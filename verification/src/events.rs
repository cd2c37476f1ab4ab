//! The event relay: how platform events are classified and which of
//! them the relay forwards, in what order, before it stops.

use vstd::prelude::*;

verus! {

/// State of a key or a mouse button in an input event.
#[derive(Clone, Copy, Debug, PartialEq, Eq, Structural)]
pub enum Action {
    Pressed,
    Released,
}

/// A mouse button.
#[derive(Clone, Copy, Debug, PartialEq, Eq, Structural)]
pub enum Button {
    Left,
    Right,
    Middle,
    Other(u8),
}

/// A platform event as this layer reads it: the input events it
/// relays, the close request that stops the relay, and everything
/// else, carried through unread. Cursor positions and scroll deltas
/// are held as whole device pixels and lines.
#[derive(Clone, Copy, Debug, PartialEq, Eq, Structural)]
pub enum Event {
    Keyboard(u32, Action),
    MouseButton(Button, Action),
    CursorMoved(i32, i32),
    Scroll(i32, i32),
    Closed,
    Other,
}

/// What the relay tells the platform loop after each event: keep
/// pumping, or stop.
#[derive(Clone, Copy, Debug, PartialEq, Eq, Structural)]
pub enum LoopControl {
    Continue,
    Break,
}

/// The relay's one decision per event, taken after the event has been
/// forwarded: the loop stops on a close request and on nothing else.
pub fn relay_step(ev: &Event) -> (r: LoopControl)
    ensures
        r is Break <==> *ev is Closed,
{
    match ev {
        Event::Closed => LoopControl::Break,
        _ => LoopControl::Continue,
    }
}

/// What the relay forwards out of a delivered sequence: every event in
/// order up to and including the first close request, and the whole
/// sequence if none arrives.
pub open spec fn relay_output(s: Seq<Event>) -> Seq<Event>
    decreases s.len(),
{
    if s.len() == 0 {
        Seq::empty()
    } else if s[0] is Closed {
        seq![s[0]]
    } else {
        seq![s[0]] + relay_output(s.skip(1))
    }
}

/// Whether a close request occurs anywhere in the sequence.
pub open spec fn has_close(s: Seq<Event>) -> bool {
    exists|i: int| 0 <= i < s.len() && (#[trigger] s[i]) is Closed
}

/// Law: as long as no close request arrives, the relay forwards every
/// delivered event, each exactly once and in delivery order.
pub proof fn lemma_relay_forwards_all(s: Seq<Event>)
    requires
        !has_close(s),
    ensures
        relay_output(s) == s,
    decreases s.len(),
{
    if s.len() == 0 {
        assert(relay_output(s) =~= s);
    } else {
        assert(!(s[0] is Closed));
        assert(!has_close(s.skip(1))) by {
            assert forall|i: int| 0 <= i < s.skip(1).len() implies !((#[trigger] s.skip(1)[i])
                is Closed) by {
                assert(s.skip(1)[i] == s[i + 1]);
            }
        }
        lemma_relay_forwards_all(s.skip(1));
        assert(relay_output(s) =~= s);
    }
}

/// Law: the relay never invents, drops out of the middle, or reorders:
/// what it forwards is always a prefix of what was delivered.
pub proof fn lemma_relay_output_is_prefix(s: Seq<Event>)
    ensures
        relay_output(s).len() <= s.len(),
        forall|j: int| 0 <= j < relay_output(s).len() ==> #[trigger] relay_output(s)[j] == s[j],
    decreases s.len(),
{
    if s.len() == 0 {
    } else if s[0] is Closed {
    } else {
        lemma_relay_output_is_prefix(s.skip(1));
        assert forall|j: int| 0 <= j < relay_output(s).len() implies #[trigger] relay_output(s)[j]
            == s[j] by {
            if j > 0 {
                assert(relay_output(s)[j] == relay_output(s.skip(1))[j - 1]);
                assert(s.skip(1)[j - 1] == s[j]);
            }
        }
    }
}

/// The relay's output when the first close request stands at `i`: the
/// prefix through `i`, nothing after it.
proof fn lemma_relay_stops_at_first_close(s: Seq<Event>, i: int)
    requires
        0 <= i < s.len(),
        s[i] is Closed,
        forall|j: int| 0 <= j < i ==> !((#[trigger] s[j]) is Closed),
    ensures
        relay_output(s) == s.subrange(0, i + 1),
    decreases i,
{
    if i == 0 {
        assert(relay_output(s) =~= s.subrange(0, 1));
    } else {
        assert(s.skip(1)[i - 1] == s[i]);
        assert forall|j: int| 0 <= j < i - 1 implies !((#[trigger] s.skip(1)[j]) is Closed) by {
            assert(s.skip(1)[j] == s[j + 1]);
        }
        lemma_relay_stops_at_first_close(s.skip(1), i - 1);
        assert(relay_output(s) =~= s.subrange(0, i + 1)) by {
            assert(relay_output(s) == seq![s[0]] + s.skip(1).subrange(0, i));
            assert forall|j: int| 0 <= j < i + 1 implies (seq![s[0]] + s.skip(1).subrange(0, i))[j]
                == s.subrange(0, i + 1)[j] by {
                if j > 0 {
                    assert(s.skip(1).subrange(0, i)[j - 1] == s[j]);
                }
            }
        }
    }
}

/// Drains one batch of delivered events the way the relay thread does:
/// forwards each in order, and stops right after the first close
/// request. Returns the forwarded events and whether the relay
/// stopped.
pub fn pump_events(delivered: &Vec<Event>) -> (r: (Vec<Event>, bool))
    ensures
        r.0@ == relay_output(delivered@),
        r.1 <==> has_close(delivered@),
{
    let mut forwarded: Vec<Event> = Vec::new();
    let mut stopped: bool = false;
    let mut i: usize = 0;
    while i < delivered.len() && !stopped
        invariant
            0 <= i <= delivered@.len(),
            forwarded@ == delivered@.subrange(0, i as int),
            forall|j: int| 0 <= j < i - 1 ==> !((#[trigger] delivered@[j]) is Closed),
            stopped ==> i >= 1 && delivered@[i - 1] is Closed,
            !stopped && i >= 1 ==> !(delivered@[i - 1] is Closed),
        decreases delivered@.len() - i,
    {
        let ev = delivered[i];
        forwarded.push(ev);
        if let Event::Closed = ev {
            stopped = true;
        }
        i += 1;
        proof {
            assert(forwarded@ =~= delivered@.subrange(0, i as int));
        }
    }
    proof {
        if stopped {
            lemma_relay_stops_at_first_close(delivered@, i - 1);
        } else {
            assert(i == delivered@.len());
            assert(!has_close(delivered@));
            lemma_relay_forwards_all(delivered@);
            assert(forwarded@ =~= delivered@);
        }
    }
    (forwarded, stopped)
}

} // verus!
