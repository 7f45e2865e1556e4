//! Unit tests of the git command planning and the send workflow.

use phgit_core::git_ops::{
    git_add, git_commit, git_get_upstream_branch, git_push, git_status, handle_status,
    status_of_result, CommandError, GitInvocation, phStatus,
};
use phgit_core::send::{advance_send, begin_send, confirm_send, SendAction, SendState};

fn args_of(inv: &GitInvocation) -> Vec<&str> {
    inv.args.iter().map(|s| s.as_str()).collect()
}

#[test]
fn planned_invocations_are_exact() {
    let inv = git_status(Some("/repo"));
    assert_eq!(inv.repo_path.as_deref(), Some("/repo"));
    assert_eq!(args_of(&inv), vec!["status", "--porcelain"]);
    assert!(inv.stdin_data.is_none());

    let inv = git_add(None, ".");
    assert!(inv.repo_path.is_none());
    assert_eq!(args_of(&inv), vec!["add", "."]);

    let inv = git_commit(None, "feat: message");
    assert_eq!(args_of(&inv), vec!["commit", "-m", "feat: message"]);

    let inv = git_push(None, "origin", "main");
    assert_eq!(args_of(&inv), vec!["push", "origin", "main"]);

    let inv = git_get_upstream_branch(None);
    assert_eq!(args_of(&inv), vec!["rev-parse", "--abbrev-ref", "@{u}"]);
}

#[test]
fn status_interpretation() {
    assert_eq!(
        handle_status(Ok(String::new())).unwrap(),
        "Working tree clean. Nothing to commit."
    );
    assert_eq!(
        handle_status(Ok(" M file.rs".to_string())).unwrap(),
        "Changes to be committed or untracked files:\n M file.rs"
    );
    assert_eq!(
        handle_status(Err("fatal: not a git repository".to_string())),
        Err(CommandError::GitError("fatal: not a git repository".to_string()))
    );
}

#[test]
fn host_status_codes() {
    assert!(matches!(status_of_result(&Ok("done".to_string())), phStatus::Success));
    assert!(matches!(
        status_of_result(&Err(CommandError::GitError("x".to_string()))),
        phStatus::ErrorExecFailed
    ));
    assert!(matches!(
        status_of_result(&Err(CommandError::MissingCommitMessage)),
        phStatus::ErrorInvalidArgs
    ));
    assert!(matches!(status_of_result(&Err(CommandError::NoChanges)), phStatus::Success));
    assert!(matches!(
        status_of_result(&Err(CommandError::OperationAborted)),
        phStatus::Success
    ));
}

#[test]
fn send_requires_a_commit_message() {
    let args = vec!["SND".to_string()];
    match begin_send(None, &args, true) {
        Err(CommandError::MissingCommitMessage) => {}
        _ => panic!("expected MissingCommitMessage"),
    }
}

#[test]
fn send_happy_path_walks_all_steps() {
    let args = vec!["SND".to_string(), "feat:".to_string(), "Add new file".to_string()];
    let (mut session, action) = begin_send(Some("/repo"), &args, true).unwrap();
    assert_eq!(session.commit_message, "feat: Add new file");
    let inv = match action {
        SendAction::RunGit(inv) => inv,
        _ => panic!("expected a git action"),
    };
    assert_eq!(args_of(&inv), vec!["add", "."]);

    // Staging succeeded: commit next, with the joined message.
    let action = advance_send(&mut session, Ok(String::new()));
    let inv = match action {
        SendAction::RunGit(inv) => inv,
        _ => panic!("expected a git action"),
    };
    assert_eq!(args_of(&inv), vec!["commit", "-m", "feat: Add new file"]);

    // Commit succeeded: resolve the upstream.
    let action = advance_send(&mut session, Ok("done".to_string()));
    let inv = match action {
        SendAction::RunGit(inv) => inv,
        _ => panic!("expected a git action"),
    };
    assert_eq!(args_of(&inv), vec!["rev-parse", "--abbrev-ref", "@{u}"]);

    // Upstream known and confirmation skipped: push.
    let action = advance_send(&mut session, Ok("origin/main".to_string()));
    let inv = match action {
        SendAction::RunGit(inv) => inv,
        _ => panic!("expected a git action"),
    };
    assert_eq!(args_of(&inv), vec!["push", "origin", "main"]);

    // Push succeeded: the workflow reports the destination.
    let action = advance_send(&mut session, Ok(String::new()));
    match action {
        SendAction::Complete(result) => {
            assert_eq!(result.unwrap(), "Successfully sent changes to origin/main");
        }
        _ => panic!("expected completion"),
    }
    assert!(matches!(session.state, SendState::Finished));
}

#[test]
fn send_clean_tree_reports_no_changes() {
    let args = vec!["SND".to_string(), "some message".to_string()];
    let (mut session, _) = begin_send(Some("/repo"), &args, true).unwrap();
    let _ = advance_send(&mut session, Ok(String::new()));
    let action = advance_send(
        &mut session,
        Err("nothing to commit, working tree clean".to_string()),
    );
    match action {
        SendAction::Complete(result) => assert_eq!(result, Err(CommandError::NoChanges)),
        _ => panic!("expected completion"),
    }
}

#[test]
fn send_without_upstream_is_rejected() {
    let args = vec!["SND".to_string(), "some message".to_string()];
    let (mut session, _) = begin_send(Some("/repo"), &args, true).unwrap();
    let _ = advance_send(&mut session, Ok(String::new()));
    let _ = advance_send(&mut session, Ok("done".to_string()));
    let action = advance_send(
        &mut session,
        Err("fatal: no upstream configured for branch 'main'".to_string()),
    );
    match action {
        SendAction::Complete(result) => {
            assert_eq!(result, Err(CommandError::NoUpstreamConfigured));
        }
        _ => panic!("expected completion"),
    }
}

#[test]
fn send_confirmation_can_abort_the_push() {
    let args = vec!["SND".to_string(), "msg".to_string()];
    let (mut session, _) = begin_send(None, &args, false).unwrap();
    let _ = advance_send(&mut session, Ok(String::new()));
    let _ = advance_send(&mut session, Ok(String::new()));
    let action = advance_send(&mut session, Ok("origin/main".to_string()));
    match action {
        SendAction::Confirm { remote, branch } => {
            assert_eq!((remote.as_str(), branch.as_str()), ("origin", "main"));
        }
        _ => panic!("expected a confirmation prompt"),
    }
    let action = confirm_send(&mut session, false);
    match action {
        SendAction::Complete(result) => {
            assert_eq!(result, Err(CommandError::OperationAborted));
        }
        _ => panic!("expected completion"),
    }
}

#[test]
fn send_unparsable_upstream_is_a_git_error() {
    let args = vec!["SND".to_string(), "msg".to_string()];
    let (mut session, _) = begin_send(None, &args, true).unwrap();
    let _ = advance_send(&mut session, Ok(String::new()));
    let _ = advance_send(&mut session, Ok(String::new()));
    let action = advance_send(&mut session, Ok("detached".to_string()));
    match action {
        SendAction::Complete(Err(CommandError::GitError(m))) => {
            assert_eq!(m, "Could not parse upstream: 'detached'");
        }
        _ => panic!("expected a git error"),
    }
}
