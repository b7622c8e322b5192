//! Panes: events, the help pane, the pane registry and key handling.
pub mod events;
pub mod help_pane;
pub mod keys;
pub mod registry;

pub use events::{AppEvent, KeyCode, KeyEvent, KeyModifiers};
pub use help_pane::HelpPane;
pub use keys::{GlobalKeyHandler, KeyResult, PaneKeyUtils};
pub use registry::{PaneId, PaneRegistry, PaneState};
