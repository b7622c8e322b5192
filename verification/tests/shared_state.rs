use grw::git::{CommitFileChange, CommitInfo, FileChangeStatus, GitRepo, ViewMode};
use grw::shared_state::{GitSharedState, LlmSharedState, SharedStateManager};

fn commit(i: usize) -> CommitInfo {
    CommitInfo {
        sha: format!("commit_{}", i),
        short_sha: format!("commit_{}", i),
        message: format!("Test commit {}", i),
        files_changed: vec![CommitFileChange {
            path: format!("/repo/file_{}.txt", i),
            status: FileChangeStatus::Added,
            additions: i,
            deletions: 0,
        }],
    }
}

fn repo(name: &str) -> GitRepo {
    GitRepo {
        path: format!("/tmp/{}", name),
        changed_files: vec![],
        staged_files: vec![],
        dirty_directory_files: vec![],
        last_commit_files: vec![],
        last_commit_id: Some("abc".to_string()),
        current_view_mode: ViewMode::LastCommit,
        repo_name: name.to_string(),
        branch_name: "main".to_string(),
        commit_info: ("abc".to_string(), "summary".to_string()),
        total_stats: (0, 0, 0),
    }
}

#[test]
fn test_git_shared_state_error_management() {
    let mut git_state = GitSharedState::new();

    git_state.set_error("error1".to_string(), "First error".to_string());
    git_state.set_error("error2".to_string(), "Second error".to_string());

    let all_errors = git_state.get_all_errors();
    assert_eq!(all_errors.len(), 2);

    git_state.clear_all_errors();
    let all_errors_after_clear = git_state.get_all_errors();
    assert!(all_errors_after_clear.is_empty());
}

#[test]
fn test_llm_shared_state_error_management() {
    let mut llm_state = LlmSharedState::new();

    llm_state.set_error("error1".to_string(), "First error".to_string());
    llm_state.set_error("error2".to_string(), "Second error".to_string());

    let all_errors = llm_state.get_all_errors();
    assert_eq!(all_errors.len(), 2);

    llm_state.clear_all_errors();
    let all_errors_after_clear = llm_state.get_all_errors();
    assert!(all_errors_after_clear.is_empty());
}

#[test]
fn test_git_shared_state_many_commits() {
    let mut git_state = GitSharedState::new();
    for i in 0..10 {
        git_state.cache_commit(format!("commit_{}", i), commit(i));
    }
    for i in 0..10 {
        let c = git_state.get_cached_commit(&format!("commit_{}", i));
        assert!(c.is_some());
        let c = c.unwrap();
        assert_eq!(c.message, format!("Test commit {}", i));
        assert_eq!(c.files_changed[0].additions, i);
    }
    assert!(git_state.get_cached_commit("commit_10").is_none());
}

#[test]
fn test_llm_shared_state_many_summaries() {
    let mut llm_state = LlmSharedState::new();
    for i in 0..10 {
        let commit_sha = format!("commit_{}", i);
        llm_state.cache_summary(commit_sha.clone(), format!("Summary for commit {}", i));
        llm_state.start_summary_task(commit_sha);
    }
    for i in 0..10 {
        let commit_sha = format!("commit_{}", i);
        let summary = llm_state.get_cached_summary(&commit_sha);
        assert!(summary.is_some());
        assert_eq!(summary.unwrap(), format!("Summary for commit {}", i));
        assert!(llm_state.is_summary_loading(&commit_sha));
    }
    llm_state.complete_summary_task("commit_3");
    assert!(!llm_state.is_summary_loading("commit_3"));
    assert!(llm_state.is_summary_loading("commit_4"));
}

#[test]
fn test_errors_set_get_clear() {
    let mut git_state = GitSharedState::new();
    assert!(!git_state.has_errors());
    assert!(git_state.get_error("git_status").is_none());
    git_state.set_error("git_status".to_string(), "lock held".to_string());
    assert!(git_state.has_errors());
    assert_eq!(git_state.get_error("git_status"), Some("lock held".to_string()));
    git_state.set_error("git_status".to_string(), "again".to_string());
    assert_eq!(git_state.get_error("git_status"), Some("again".to_string()));
    assert_eq!(git_state.get_all_errors().len(), 1);
    assert!(git_state.clear_error("git_status"));
    assert!(!git_state.clear_error("git_status"));
    assert!(!git_state.has_errors());
}

#[test]
fn test_all_errors_lists_each_entry() {
    let mut llm_state = LlmSharedState::new();
    llm_state.set_error("a".to_string(), "1".to_string());
    llm_state.set_error("b".to_string(), "2".to_string());
    llm_state.set_error("a".to_string(), "3".to_string());
    let mut all = llm_state.get_all_errors();
    all.sort();
    assert_eq!(all, vec![("a".to_string(), "3".to_string()), ("b".to_string(), "2".to_string())]);
    assert!(llm_state.clear_error("a"));
    assert!(llm_state.has_errors());
}

#[test]
fn test_repo_snapshot_round_trip() {
    let mut git_state = GitSharedState::new();
    assert!(git_state.get_repo().is_none());
    git_state.update_repo(repo("first"));
    assert_eq!(git_state.get_repo().unwrap().repo_name, "first");
    git_state.update_repo(repo("second"));
    let r = git_state.get_repo().unwrap();
    assert_eq!(r.repo_name, "second");
    assert_eq!(r.commit_info, ("abc".to_string(), "summary".to_string()));
}

#[test]
fn test_manager_initialize_and_shutdown() {
    let mut manager = SharedStateManager::new();
    manager.git_state_mut().set_error("x".to_string(), "y".to_string());
    manager.git_state_mut().set_view_mode(3);
    manager.llm_state_mut().set_error("x".to_string(), "y".to_string());
    assert!(manager.initialize().is_ok());
    assert!(!manager.git_state().has_errors());
    assert!(!manager.llm_state().has_errors());

    manager.git_state_mut().update_repo(repo("r"));
    manager.git_state_mut().cache_commit("commit_1".to_string(), commit(1));
    manager.llm_state_mut().cache_summary("commit_1".to_string(), "s".to_string());
    manager.llm_state_mut().start_summary_task("commit_1".to_string());
    manager.git_state_mut().set_error("kept".to_string(), "e".to_string());
    assert!(manager.shutdown().is_ok());
    assert!(manager.git_state().get_repo().is_none());
    assert!(manager.git_state().get_cached_commit("commit_1").is_none());
    assert!(manager.llm_state().get_cached_summary("commit_1").is_none());
    assert!(manager.llm_state().is_summary_loading("commit_1"));
    assert!(manager.git_state().has_errors());
}
