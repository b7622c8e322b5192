//! The user interface state: themes and the application model.
pub mod app;
pub mod commit_tree;
pub mod laws;
pub mod layout;
pub mod model;
pub mod picker;
pub mod theme;

pub use app::App;
pub use model::{ActivePane, AppMode, FileBrowserPane, InformationPane, TreeDisplayNode};
pub use theme::{build_themes, initial_theme_index, parse_hex_color, Color, ColorPalette, Theme};
