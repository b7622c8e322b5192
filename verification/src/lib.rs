//! grw: the verified core of a terminal git repository watcher.
//!
//! The library holds the application state machine (files, tree navigation,
//! scrolling, pane visibility, commit picker mode), the key dispatch, the
//! configuration merge rules, the colour themes and hex colour parsing, the
//! shared caches, and the decision logic of the git worker.
pub mod clock;
pub mod config;
pub mod git;
pub mod pane;
pub mod search;
pub mod session;
pub mod shared_state;
pub mod text;
pub mod ui;
