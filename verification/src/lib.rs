//! A thin, verified substrate for opening an OpenGL window: the
//! decisions behind window creation, cursor setup, size reporting and
//! event relaying are stated in contracts and proved; the platform
//! calls that execute them live with the host application.

pub mod device;
pub mod events;
pub mod window;

pub use events::Action;
pub use events::Button;
pub use events::Event;
pub use events::LoopControl;
pub use events::has_close;
pub use events::lemma_relay_forwards_all;
pub use events::lemma_relay_output_is_prefix;
pub use events::pump_events;
pub use events::relay_output;
pub use events::relay_step;

pub use device::DeviceError;
pub use device::lemma_size_matches_honored_request;
pub use device::run_draw_callback;
pub use device::size_from;
pub use device::size_of_report;

pub use window::ContextRequest;
pub use window::CursorMode;
pub use window::OpenPlan;
pub use window::WindowDim;
pub use window::WindowOpt;
pub use window::WindowPlan;
pub use window::context_request;
pub use window::cursor_mode;
pub use window::lemma_plan_preserves_request;
pub use window::open_plan;
pub use window::plan_window;
