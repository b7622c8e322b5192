//! Git data types, the calls into libgit2, and the git worker.
pub mod repo;
pub mod types;
pub mod worker;

pub use types::{
    CommitFileChange, CommitInfo, FileChangeStatus, FileDiff, GitRepo, Status, TreeNode, ViewMode,
};
