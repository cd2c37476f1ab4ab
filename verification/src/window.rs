//! Window modes, window options and the plan that an `open` call derives
//! from them before it touches the platform.

use vstd::prelude::*;

verus! {

/// The window mode requested by the caller: a fixed-size window, a
/// fullscreen surface on the primary display, or a fullscreen surface
/// restricted to a given resolution.
#[derive(Clone, Copy, Debug, PartialEq, Eq, Structural)]
pub enum WindowDim {
    Windowed(u32, u32),
    Fullscreen,
    FullscreenRestricted(u32, u32),
}

impl WindowDim {
    /// The pixel dimensions the caller fixed, if the mode fixes any.
    pub open spec fn requested_dimensions(self) -> Option<(u32, u32)> {
        match self {
            WindowDim::Windowed(w, h) => Some((w, h)),
            WindowDim::Fullscreen => None,
            WindowDim::FullscreenRestricted(w, h) => Some((w, h)),
        }
    }

    /// Whether the mode asks for a fullscreen surface.
    pub open spec fn wants_fullscreen(self) -> bool {
        match self {
            WindowDim::Windowed(_, _) => false,
            WindowDim::Fullscreen => true,
            WindowDim::FullscreenRestricted(_, _) => true,
        }
    }
}

/// Options of a window. The single recognized option is whether the
/// platform cursor is hidden; it defaults to visible.
#[derive(Clone, Copy, Debug, PartialEq, Eq, Structural)]
pub struct WindowOpt {
    hide_cursor: bool,
}

impl WindowOpt {
    /// Whether these options ask for a hidden cursor.
    pub closed spec fn cursor_hidden(self) -> bool {
        self.hide_cursor
    }

    /// Replaces the hide-cursor flag and returns the updated options.
    pub fn hide_cursor(self, hide: bool) -> (r: Self)
        ensures
            r.cursor_hidden() == hide,
    {
        WindowOpt { hide_cursor: hide }
    }

    /// Reads the stored hide-cursor flag.
    pub fn is_cursor_hidden(&self) -> (r: bool)
        ensures
            r == self.cursor_hidden(),
    {
        self.hide_cursor
    }
}

impl Default for WindowOpt {
    /// The default options leave the cursor visible.
    fn default() -> (r: Self)
        ensures
            !r.cursor_hidden(),
    {
        WindowOpt { hide_cursor: false }
    }
}

/// How the platform cursor is to be set once the window exists.
#[derive(Clone, Copy, Debug, PartialEq, Eq, Structural)]
pub enum CursorMode {
    Visible,
    Hidden,
}

/// Derives the cursor setting that the factory applies from the options.
pub fn cursor_mode(opt: &WindowOpt) -> (r: CursorMode)
    ensures
        r is Hidden <==> opt.cursor_hidden(),
{
    if opt.is_cursor_hidden() {
        CursorMode::Hidden
    } else {
        CursorMode::Visible
    }
}

/// What the window builder is told: fixed dimensions, if any, and
/// whether a fullscreen surface is requested.
#[derive(Clone, Copy, Debug, PartialEq, Eq)]
pub struct WindowPlan {
    pub dimensions: Option<(u32, u32)>,
    pub fullscreen: bool,
}

/// Translates a window mode into the builder settings the factory uses.
pub fn plan_window(dim: &WindowDim) -> (r: WindowPlan)
    ensures
        r.dimensions == dim.requested_dimensions(),
        r.fullscreen == dim.wants_fullscreen(),
{
    match *dim {
        WindowDim::Windowed(w, h) => WindowPlan { dimensions: Some((w, h)), fullscreen: false },
        WindowDim::Fullscreen => WindowPlan { dimensions: None, fullscreen: true },
        WindowDim::FullscreenRestricted(w, h) => WindowPlan {
            dimensions: Some((w, h)),
            fullscreen: true,
        },
    }
}

/// The OpenGL context the factory requests: an exact API version and
/// whether the core profile is demanded.
#[derive(Clone, Copy, Debug, PartialEq, Eq, Structural)]
pub struct ContextRequest {
    pub api_major: u32,
    pub api_minor: u32,
    pub core_profile: bool,
}

/// The context every device is built with: OpenGL 3.3, core profile.
pub fn context_request() -> (r: ContextRequest)
    ensures
        r.api_major == 3,
        r.api_minor == 3,
        r.core_profile,
{
    ContextRequest { api_major: 3, api_minor: 3, core_profile: true }
}

/// Everything the factory decides before calling into the platform:
/// builder settings, context request, cursor setting and the title,
/// which is passed through unchanged.
pub struct OpenPlan {
    pub window: WindowPlan,
    pub context: ContextRequest,
    pub cursor: CursorMode,
    pub title: String,
}

/// Derives the whole plan of an `open` call from its arguments. The
/// platform work that executes the plan is the caller's: this function
/// fixes what that work is asked to do.
pub fn open_plan(dim: &WindowDim, title: String, opt: &WindowOpt) -> (r: OpenPlan)
    ensures
        r.window.dimensions == dim.requested_dimensions(),
        r.window.fullscreen == dim.wants_fullscreen(),
        r.context.api_major == 3,
        r.context.api_minor == 3,
        r.context.core_profile,
        r.cursor is Hidden <==> opt.cursor_hidden(),
        r.title@ == title@,
{
    OpenPlan {
        window: plan_window(dim),
        context: context_request(),
        cursor: cursor_mode(opt),
        title,
    }
}

/// Law: whatever mode is requested, the plan asks the platform for
/// exactly the dimensions the caller fixed — a window or a restricted
/// fullscreen surface is requested at its given size, and plain
/// fullscreen fixes no size at all.
pub proof fn lemma_plan_preserves_request(dim: WindowDim)
    ensures
        dim matches WindowDim::Windowed(w, h) ==> dim.requested_dimensions() == Some((w, h))
            && !dim.wants_fullscreen(),
        dim matches WindowDim::FullscreenRestricted(w, h) ==> dim.requested_dimensions() == Some(
            (w, h),
        ) && dim.wants_fullscreen(),
        dim is Fullscreen ==> dim.requested_dimensions() is None && dim.wants_fullscreen(),
{
}

} // verus!
