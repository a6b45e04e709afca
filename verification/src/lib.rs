//! Event-dispatch core of a system-tray application.
//!
//! The tray icon and its menu are drawn and driven by a platform window, which runs the
//! native event loop on a thread of its own and reports every activated menu entry over a
//! channel. An [`Application`] owns that window, hands out menu entry identifiers, keeps
//! the callback registered for each entry, and pumps the channel: one call waits for one
//! activation and runs the callback registered for it.

pub mod application;
pub mod error;
pub mod event;
pub mod model;
pub mod window;

pub use application::{Application, Callback};
pub use error::SystrayError;
pub use event::SystrayEvent;
pub use model::ApplicationView;
pub use window::Window;
