//! Focus tracking over a compositor's listing of top-level windows.
//!
//! The compositor reports window creation, title and state changes, the end
//! of each burst of changes, window destruction and the end of the listing
//! session. [`WindowRegistry`] folds these reports into the one window that
//! currently holds the focus and says, report by report, which line a status
//! feed owes its reader: the focused window's title, or an empty line once
//! the focus is lost.

pub mod event;
pub mod handle;
pub mod model;
pub mod output;
pub mod registry;
pub mod trace;

pub use event::{has_activated_flag, Event, EventView, WindowId, ACTIVATED};
pub use handle::{WindowHandle, WindowView};
pub use model::RegistryView;
pub use output::{Output, OutputView};
pub use registry::WindowRegistry;
