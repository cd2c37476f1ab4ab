//! What the device handle computes for its caller: the error raised
//! when creation fails, the reported size, and the run of the caller's
//! draw callback.

use vstd::prelude::*;
use crate::window::WindowDim;

verus! {

/// Error that can be risen while creating a device. The single kind
/// wraps the platform's window or context creation failure, carried
/// here as its rendered description.
#[derive(Debug, PartialEq, Eq)]
pub enum DeviceError {
    CreationError(String),
}

impl DeviceError {
    /// Wraps a creation failure's description.
    pub fn creation(reason: String) -> (r: Self)
        ensures
            r == DeviceError::CreationError(reason),
    {
        DeviceError::CreationError(reason)
    }

    /// The description of the wrapped failure.
    pub fn message(&self) -> (r: &String)
        ensures
            *self == DeviceError::CreationError(*r),
    {
        match self {
            DeviceError::CreationError(m) => m,
        }
    }
}

/// The `(width, height)` pair the device exposes for a size the
/// platform reports — if it reports one at all: a window that no
/// longer reports a size is read as zero by zero.
pub open spec fn size_of_report(reported: Option<(u32, u32)>) -> (u32, u32) {
    match reported {
        Some((w, h)) => (w, h),
        None => (0, 0),
    }
}

/// Turns the size the platform reports into the `[width, height]`
/// pair the device exposes.
pub fn size_from(reported: Option<(u32, u32)>) -> (r: [u32; 2])
    ensures
        r[0] == size_of_report(reported).0,
        r[1] == size_of_report(reported).1,
{
    match reported {
        Some((w, h)) => [w, h],
        None => [0, 0],
    }
}

/// Law: for a mode that fixes its dimensions, a backend that honors
/// the request — one that reports exactly the dimensions asked of it —
/// makes the device report the requested size; and plain fullscreen
/// fixes nothing, so whatever the display reports is exposed as is.
pub proof fn lemma_size_matches_honored_request(dim: WindowDim, w: u32, h: u32)
    ensures
        dim.requested_dimensions() == Some((w, h)) ==> size_of_report(
            dim.requested_dimensions(),
        ) == (w, h),
        dim is Fullscreen ==> size_of_report(Some((w, h))) == (w, h),
{
}

/// Runs the caller's draw callback. `draw` consists of this call
/// followed by one buffer swap; the swap is platform work and stays
/// with the device, while this run of the callback is verified: it
/// happens exactly once, before the swap.
pub fn run_draw_callback<F: FnOnce() -> ()>(f: F)
    requires
        call_requires(f, ()),
    ensures
        call_ensures(f, (), ()),
{
    f()
}

} // verus!
