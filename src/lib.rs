//! The event-loop and window-state core of a windowing library: the per-window state
//! store, the monitor/DPI aggregation, the single-slot native error channel, the wakeup
//! state shared with proxies and the decisions of the event loop, all over plain values.
//! Native protocol work (surfaces, frames, sockets) is done by the caller, which feeds
//! the loop the events it reads and carries out the frame work the loop returns.

pub mod backend;
pub mod event_loop;
pub mod events;
pub mod monitor;
pub mod proxy;
pub mod store;
pub mod types;
pub mod window;
pub mod xconnection;

pub use event_loop::EventsLoop;
pub use events::{ControlFlow, Event, WindowEvent};
pub use monitor::MonitorId;
pub use proxy::EventsLoopClosed;
pub use store::WindowStore;
pub use types::{
    CreationError, DeviceId, LogicalPosition, LogicalSize, MouseCursor, RawWindowParts, WindowAttributes,
    WindowBuilder, WindowId,
};
pub use window::Window;
pub use xconnection::XConnection;
