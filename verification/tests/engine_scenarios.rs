//! End-to-end scenarios for the synchronization engine, on real Git
//! repositories built with git2.

use phgit_core::divergence::{decide, SyncDecision};
use phgit_core::engine::{SyncEngine, SyncError, SyncOutcome};
use phgit_core::orchestrator::{handle_run_sync, outcome_message};

use std::io::Read;
use std::io::Write;

/// Creates a commit on `refs/heads/main` with an empty tree and the given
/// message, on top of the current head if one exists.
fn add_commit(repo: &git2::Repository, message: &str) -> git2::Oid {
    let sig = git2::Signature::new("Tester", "tester@example.com", &git2::Time::new(1700000000, 0))
        .unwrap();
    let tree_id = {
        let mut index = repo.index().unwrap();
        index.write_tree().unwrap()
    };
    let tree = repo.find_tree(tree_id).unwrap();
    match repo.refname_to_id("refs/heads/main") {
        Ok(parent_id) => {
            let parent = repo.find_commit(parent_id).unwrap();
            repo.commit(Some("refs/heads/main"), &sig, &sig, message, &tree, &[&parent]).unwrap()
        }
        Err(_) => repo.commit(Some("refs/heads/main"), &sig, &sig, message, &tree, &[]).unwrap(),
    }
}

/// A repository pair sharing ancestry: the source holds one base commit,
/// the target is its clone, and both fetch from themselves or their origin.
struct RepoPair {
    source_dir: tempfile::TempDir,
    target_dir: tempfile::TempDir,
}

impl RepoPair {
    fn new() -> RepoPair {
        let source_dir = tempfile::tempdir().unwrap();
        let target_dir = tempfile::tempdir().unwrap();
        let source = git2::Repository::init(source_dir.path()).unwrap();
        source.set_head("refs/heads/main").unwrap();
        add_commit(&source, "base");
        // Each side's origin is the other side, as in a mirrored pair: a
        // fetch brings the peer's new objects into the local database.
        let source_path = source_dir.path().to_str().unwrap().to_string();
        let target_path = target_dir.path().join("clone");
        git2::Repository::clone(&source_path, &target_path).unwrap();
        source.remote("origin", target_path.to_str().unwrap()).unwrap();
        RepoPair { source_dir, target_dir }
    }

    fn source_path(&self) -> String {
        self.source_dir.path().to_str().unwrap().to_string()
    }

    fn target_path(&self) -> String {
        self.target_dir.path().join("clone").to_str().unwrap().to_string()
    }

    fn source(&self) -> git2::Repository {
        git2::Repository::open(self.source_dir.path()).unwrap()
    }

    fn target(&self) -> git2::Repository {
        git2::Repository::open(self.target_dir.path().join("clone")).unwrap()
    }

    fn engine(&self, checkpoint: Option<&str>) -> SyncEngine {
        SyncEngine::new(&self.source_path(), &self.target_path(), "origin", "main", None, checkpoint)
            .unwrap()
    }
}

fn head_hex(repo: &git2::Repository) -> String {
    repo.refname_to_id("refs/heads/main").unwrap().to_string()
}

#[test]
fn up_to_date_run_keeps_checkpoint() {
    let pair = RepoPair::new();
    // Identical heads, no prior checkpoint.
    let mut engine = pair.engine(None);
    let before = engine.checkpoint.serialize();
    let outcome = engine.run();
    assert!(matches!(outcome, SyncOutcome::UpToDate));
    assert_eq!(engine.checkpoint.serialize(), before);

    // Identical heads with a complete checkpoint at the shared head: still
    // up to date, and the recorded ids are not touched.
    let head = head_hex(&pair.source());
    let content = format!(
        "{{\"last_source_synced_oid\":\"{}\",\"last_target_synced_oid\":\"{}\"}}",
        head, head
    );
    let mut engine = pair.engine(Some(&content));
    let before = engine.checkpoint.serialize();
    assert_eq!(before, content);
    let outcome = engine.run();
    assert!(matches!(outcome, SyncOutcome::UpToDate));
    assert_eq!(engine.checkpoint.serialize(), before);
}

#[test]
fn fresh_pair_three_ahead_applies_forward() {
    let pair = RepoPair::new();
    add_commit(&pair.source(), "one");
    add_commit(&pair.source(), "two");
    add_commit(&pair.source(), "three");
    let mut engine = pair.engine(None);
    let outcome = engine.run();
    match outcome {
        SyncOutcome::AppliedForward(n) => assert_eq!(n, 3),
        other => panic!("expected AppliedForward(3), got {}", describe(&other)),
    }
    // The checkpoint records both sides at the source's new head.
    let head = head_hex(&pair.source());
    let expected = format!(
        "{{\"last_source_synced_oid\":\"{}\",\"last_target_synced_oid\":\"{}\"}}",
        head, head
    );
    assert_eq!(engine.checkpoint.serialize(), expected);
}

#[test]
fn target_ahead_applies_reverse() {
    let pair = RepoPair::new();
    add_commit(&pair.target(), "target work");
    let mut engine = pair.engine(None);
    let outcome = engine.run();
    match outcome {
        SyncOutcome::AppliedReverse(n) => assert_eq!(n, 1),
        other => panic!("expected AppliedReverse(1), got {}", describe(&other)),
    }
    let head = head_hex(&pair.target());
    let expected = format!(
        "{{\"last_source_synced_oid\":\"{}\",\"last_target_synced_oid\":\"{}\"}}",
        head, head
    );
    assert_eq!(engine.checkpoint.serialize(), expected);
}

#[test]
fn diverged_pair_never_auto_resolves() {
    let pair = RepoPair::new();
    add_commit(&pair.source(), "source only");
    add_commit(&pair.target(), "target only");
    let source_head_before = head_hex(&pair.source());
    let target_head_before = head_hex(&pair.target());
    let mut engine = pair.engine(None);
    let before = engine.checkpoint.serialize();
    let outcome = engine.run();
    assert!(matches!(outcome, SyncOutcome::Diverged));
    // Neither the checkpoint nor either repository moved.
    assert_eq!(engine.checkpoint.serialize(), before);
    assert_eq!(head_hex(&pair.source()), source_head_before);
    assert_eq!(head_hex(&pair.target()), target_head_before);
    // The report demands manual work and claims no attempted merge.
    let message = outcome_message(&outcome).unwrap_err();
    assert!(message.contains("manual reconciliation is required"));
}

#[test]
fn divergence_is_symmetric_under_role_swap() {
    let pair = RepoPair::new();
    add_commit(&pair.source(), "ahead 1");
    add_commit(&pair.source(), "ahead 2");
    // Source as source: two commits to forward.
    let forward = pair.engine(None);
    forward.fetch_phase().unwrap();
    let a = forward.analyze().unwrap();
    assert_eq!((a.report.source_ahead, a.report.target_ahead), (2, 0));
    assert!(matches!(
        decide(a.report.source_ahead, a.report.target_ahead),
        SyncDecision::ForwardPending(2)
    ));
    // Roles swapped: the same structure seen as a reverse sync. The swapped
    // engine fetches through the clone's own origin, which both sides have.
    let swapped = SyncEngine::new(&pair.target_path(), &pair.source_path(), "origin", "main", None, None)
        .unwrap();
    swapped.fetch_phase().unwrap();
    let b = swapped.analyze().unwrap();
    assert_eq!((b.report.source_ahead, b.report.target_ahead), (0, 2));
    assert!(matches!(
        decide(b.report.source_ahead, b.report.target_ahead),
        SyncDecision::ReversePending(2)
    ));
}

#[test]
fn ahead_count_grows_exactly_with_new_commits() {
    let pair = RepoPair::new();
    // Establish a checkpoint by syncing once.
    let mut engine = pair.engine(None);
    assert!(matches!(engine.run(), SyncOutcome::UpToDate));
    let checkpoint = {
        let head = head_hex(&pair.source());
        format!(
            "{{\"last_source_synced_oid\":\"{}\",\"last_target_synced_oid\":\"{}\"}}",
            head, head
        )
    };
    // Two new source commits: exactly two ahead, target unchanged.
    add_commit(&pair.source(), "n1");
    add_commit(&pair.source(), "n2");
    let engine = pair.engine(Some(&checkpoint));
    let a = engine.analyze().unwrap();
    assert_eq!((a.report.source_ahead, a.report.target_ahead), (2, 0));
    // Three more: exactly five ahead, target still unchanged.
    add_commit(&pair.source(), "n3");
    add_commit(&pair.source(), "n4");
    add_commit(&pair.source(), "n5");
    let engine = pair.engine(Some(&checkpoint));
    let a = engine.analyze().unwrap();
    assert_eq!((a.report.source_ahead, a.report.target_ahead), (5, 0));
}

#[test]
fn failed_apply_never_persists() {
    let pair = RepoPair::new();
    add_commit(&pair.source(), "pending work");
    let mut engine = pair.engine(None);
    // The checkpoint file as the driver's host would keep it on disk.
    let mut file = tempfile::NamedTempFile::new().unwrap();
    let before = engine.checkpoint.serialize();
    file.write_all(before.as_bytes()).unwrap();

    engine.fetch_phase().unwrap();
    let analysis = engine.analyze().unwrap();
    let decision = decide(analysis.report.source_ahead, analysis.report.target_ahead);
    assert!(matches!(decision, SyncDecision::ForwardPending(1)));
    // The simulated apply fails partway: the engine reports the failure and
    // the host persists nothing.
    let outcome =
        engine.commit_apply(&decision, &analysis.source_head, &analysis.target_head, false);
    match &outcome {
        SyncOutcome::Error(SyncError::ApplyFailed(_)) => {}
        other => panic!("expected ApplyFailed, got {}", describe(other)),
    }
    assert_eq!(engine.checkpoint.serialize(), before);
    // The file on disk is byte-identical to what it held before the run.
    let mut reread = String::new();
    file.reopen().unwrap().read_to_string(&mut reread).unwrap();
    assert_eq!(reread, before);
}

#[test]
fn lost_checkpoint_commits_fall_back_to_heads() {
    let pair = RepoPair::new();
    // A well-formed checkpoint whose commits exist nowhere (as after a
    // garbage collection of rewritten history).
    let content = format!(
        "{{\"last_source_synced_oid\":\"{}\",\"last_target_synced_oid\":\"{}\"}}",
        "1111111111111111111111111111111111111111", "2222222222222222222222222222222222222222"
    );
    add_commit(&pair.source(), "newer");
    let engine = pair.engine(Some(&content));
    assert!(engine.checkpoint.is_complete());
    let analysis = engine.analyze().unwrap();
    // The analyzer degraded to the merge base of the current heads instead
    // of erroring, and says so.
    assert!(analysis.used_fallback);
    assert_eq!((analysis.report.source_ahead, analysis.report.target_ahead), (1, 0));

    // Through the orchestrator, the degradation reaches the host's report,
    // so it can be logged.
    let args = vec![pair.source_path(), pair.target_path()];
    let report = handle_run_sync(&args, None, Some(&content));
    assert!(report.message.is_ok());
    assert_eq!(
        report.fallback_notice.unwrap(),
        "Note: the saved checkpoint no longer matched the repositories; the synchronization base was recomputed from the current heads."
    );
}

#[test]
fn unrelated_repositories_share_no_ancestor() {
    let source_dir = tempfile::tempdir().unwrap();
    let target_dir = tempfile::tempdir().unwrap();
    let source = git2::Repository::init(source_dir.path()).unwrap();
    let target = git2::Repository::init(target_dir.path()).unwrap();
    add_commit(&source, "source root");
    add_commit(&target, "target root");
    let engine = SyncEngine::new(
        source_dir.path().to_str().unwrap(),
        target_dir.path().to_str().unwrap(),
        "origin",
        "main",
        None,
        None,
    )
    .unwrap();
    // No fetch needed for analysis; the base lookup must fail fatally.
    match engine.analyze() {
        Err(SyncError::NoCommonAncestor(_)) => {}
        Err(_) => panic!("expected NoCommonAncestor"),
        Ok(_) => panic!("expected an error for unrelated repositories"),
    }
}

#[test]
fn outcome_messages_are_the_documented_texts() {
    assert_eq!(
        outcome_message(&SyncOutcome::UpToDate).unwrap(),
        "Repositories are already in sync."
    );
    assert_eq!(
        outcome_message(&SyncOutcome::AppliedForward(3)).unwrap(),
        "Sync from source to target applied 3 commit(s)."
    );
    assert_eq!(
        outcome_message(&SyncOutcome::AppliedReverse(12)).unwrap(),
        "Sync from target to source applied 12 commit(s)."
    );
    assert_eq!(
        outcome_message(&SyncOutcome::Error(SyncError::NoCommonAncestor("x".to_string())))
            .unwrap_err(),
        "The repositories share no common ancestor: x"
    );
    assert_eq!(
        outcome_message(&SyncOutcome::Error(SyncError::FetchFailed("timed out".to_string())))
            .unwrap_err(),
        "Fetch failed: timed out"
    );
}

#[test]
fn orchestrator_validates_arity_and_reports() {
    let report = handle_run_sync(&["only-one".to_string()], None, None);
    assert!(report.new_checkpoint.is_none());
    assert_eq!(
        report.message.unwrap_err(),
        "Usage: sync-run <path_to_source_repo> <path_to_target_repo>"
    );

    let pair = RepoPair::new();
    add_commit(&pair.source(), "ahead");
    let args = vec![pair.source_path(), pair.target_path()];
    let report = handle_run_sync(&args, None, None);
    // No checkpoint existed, so this is the ordinary first-run path: no
    // degradation to log.
    assert!(report.fallback_notice.is_none());
    assert_eq!(
        report.message.unwrap(),
        "Sync from source to target applied 1 commit(s)."
    );
    let head = head_hex(&pair.source());
    assert_eq!(
        report.new_checkpoint.unwrap(),
        format!(
            "{{\"last_source_synced_oid\":\"{}\",\"last_target_synced_oid\":\"{}\"}}",
            head, head
        )
    );
}

fn describe(outcome: &SyncOutcome) -> String {
    match outcome {
        SyncOutcome::UpToDate => "UpToDate".to_string(),
        SyncOutcome::AppliedForward(n) => format!("AppliedForward({})", n),
        SyncOutcome::AppliedReverse(n) => format!("AppliedReverse({})", n),
        SyncOutcome::Diverged => "Diverged".to_string(),
        SyncOutcome::Error(e) => format!("Error({})", e.message()),
    }
}
