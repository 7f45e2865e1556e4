//! The command orchestrator: the externally callable entry point that turns
//! an argument list into one reconciliation run and a textual result.
//!
//! It validates arity, constructs the driver, invokes the cycle, and maps
//! every outcome to a message — it performs no Git or graph logic itself.

use vstd::prelude::*;
use vstd::string::StringExecFns;

use crate::checkpoint::spec_serialize;
use crate::engine::{SyncEngine, SyncError, SyncOutcome};
use crate::fmt::{push_decimal, spec_decimal};

verus! {

/// The message text of each failure.
pub open spec fn spec_error_message(e: SyncError) -> Seq<char> {
    match e {
        SyncError::Usage => "Usage: sync-run <path_to_source_repo> <path_to_target_repo>"@,
        SyncError::OpenFailed(m) => "Failed to initialize sync engine: "@ + m@,
        SyncError::FetchFailed(m) => "Fetch failed: "@ + m@,
        SyncError::HeadLookupFailed(m) => "Could not resolve a branch head: "@ + m@,
        SyncError::NoCommonAncestor(m) => "The repositories share no common ancestor: "@ + m@,
        SyncError::CountFailed(m) => "Could not count commit-graph divergence: "@ + m@,
        SyncError::ApplyFailed(m) => "Apply step failed: "@ + m@,
    }
}

/// A successful cycle's report text.
pub open spec fn spec_success_message(o: SyncOutcome) -> Seq<char> {
    match o {
        SyncOutcome::UpToDate => "Repositories are already in sync."@,
        SyncOutcome::AppliedForward(n) => "Sync from source to target applied "@ + spec_decimal(
            n as nat,
        ) + " commit(s)."@,
        SyncOutcome::AppliedReverse(n) => "Sync from target to source applied "@ + spec_decimal(
            n as nat,
        ) + " commit(s)."@,
        _ => Seq::empty(),
    }
}

/// Divergence is not a crash: the report demands manual reconciliation and
/// does not claim that any merge was attempted — none ever is.
pub open spec fn spec_diverged_message() -> Seq<char> {
    "Repositories have diverged: both sides hold unmerged work. No action was taken; manual reconciliation is required."@
}

impl SyncError {
    /// The failure rendered for the caller.
    pub fn message(&self) -> (r: String)
        ensures
            r@ == spec_error_message(*self),
    {
        let mut out = String::new();
        match self {
            SyncError::Usage => {
                out.append("Usage: sync-run <path_to_source_repo> <path_to_target_repo>");
            },
            SyncError::OpenFailed(m) => {
                out.append("Failed to initialize sync engine: ");
                out.append(m.as_str());
            },
            SyncError::FetchFailed(m) => {
                out.append("Fetch failed: ");
                out.append(m.as_str());
            },
            SyncError::HeadLookupFailed(m) => {
                out.append("Could not resolve a branch head: ");
                out.append(m.as_str());
            },
            SyncError::NoCommonAncestor(m) => {
                out.append("The repositories share no common ancestor: ");
                out.append(m.as_str());
            },
            SyncError::CountFailed(m) => {
                out.append("Could not count commit-graph divergence: ");
                out.append(m.as_str());
            },
            SyncError::ApplyFailed(m) => {
                out.append("Apply step failed: ");
                out.append(m.as_str());
            },
        }
        out
    }
}

/// Maps an outcome to the caller's message: `Ok` carries the success report,
/// `Err` carries the divergence notice or the failure text. Divergence and
/// `NoCommonAncestor` are the non-retryable reports; fetch failures may be
/// retried by the caller.
pub fn outcome_message(o: &SyncOutcome) -> (r: Result<String, String>)
    ensures
        r is Ok <==> (o is UpToDate || o matches SyncOutcome::AppliedForward(_)
            || o matches SyncOutcome::AppliedReverse(_)),
        r matches Ok(s) ==> s@ == spec_success_message(*o),
        o is Diverged ==> (r matches Err(s) && s@ == spec_diverged_message()),
        o matches SyncOutcome::Error(err) ==> (r matches Err(s) && s@ == spec_error_message(*err)),
{
    match o {
        SyncOutcome::UpToDate => {
            let mut out = String::new();
            out.append("Repositories are already in sync.");
            Ok(out)
        },
        SyncOutcome::AppliedForward(n) => {
            let mut out = String::new();
            out.append("Sync from source to target applied ");
            push_decimal(*n, &mut out);
            out.append(" commit(s).");
            proof {
                assert(out@ =~= spec_success_message(*o));
            }
            Ok(out)
        },
        SyncOutcome::AppliedReverse(n) => {
            let mut out = String::new();
            out.append("Sync from target to source applied ");
            push_decimal(*n, &mut out);
            out.append(" commit(s).");
            proof {
                assert(out@ =~= spec_success_message(*o));
            }
            Ok(out)
        },
        SyncOutcome::Diverged => {
            let mut out = String::new();
            out.append(
                "Repositories have diverged: both sides hold unmerged work. No action was taken; manual reconciliation is required.",
            );
            Err(out)
        },
        SyncOutcome::Error(e) => Err(e.message()),
    }
}

/// What one orchestrated run hands back to its host: the message for the
/// user; only after an applied sync, the new checkpoint content to
/// persist; and, where the saved checkpoint could no longer seed the base,
/// the degradation notice the host must log.
pub struct SyncRunReport {
    pub message: Result<String, String>,
    pub new_checkpoint: Option<String>,
    pub fallback_notice: Option<String>,
}

/// The notice logged when a complete checkpoint no longer matched the
/// repositories and the base was recomputed from the current heads.
pub open spec fn spec_fallback_notice() -> Seq<char> {
    "Note: the saved checkpoint no longer matched the repositories; the synchronization base was recomputed from the current heads."@
}

/// Handles the `sync-run` command: expects exactly two arguments, the source
/// and target repository paths, and runs one reconciliation cycle between
/// them on the `main` branch against the `origin` remote.
///
/// The checkpoint file's content comes in from the caller and the new
/// content to persist goes out: `new_checkpoint` is `Some` exactly when a
/// sync was applied, and it always serializes a record with both sides at
/// the same commit. A cycle that applied nothing hands back nothing to
/// write.
pub fn handle_run_sync(
    args: &[String],
    auth_token: Option<&str>,
    checkpoint_content: Option<&str>,
) -> (r: SyncRunReport)
    requires
        checkpoint_content matches Some(s) ==> s@.len() < usize::MAX - 100,
    ensures
        args@.len() != 2 ==> (r.message matches Err(m) && m@ == spec_error_message(
            SyncError::Usage,
        )) && r.new_checkpoint is None && r.fallback_notice is None,
        // With the right arity, the message is never the usage error: an
        // `Ok` carries the success report of some outcome, and an `Err`
        // carries the divergence notice or a non-usage failure text.
        args@.len() == 2 ==> match r.message {
            Ok(s) => exists|o: SyncOutcome|
                s@ == #[trigger] spec_success_message(o) && (o is UpToDate || o
                    matches SyncOutcome::AppliedForward(_) || o
                    matches SyncOutcome::AppliedReverse(_)),
            Err(s) => s@ == spec_diverged_message() || exists|e: SyncError|
                s@ == #[trigger] spec_error_message(e) && !(e is Usage),
        },
        r.message matches Err(_) ==> r.new_checkpoint is None,
        r.new_checkpoint matches Some(c) ==> exists|m: crate::checkpoint::CheckpointView|
            c@ == #[trigger] spec_serialize(m) && m.source is Some && m.source == m.target,
        r.fallback_notice matches Some(n) ==> n@ == spec_fallback_notice(),
{
    if args.len() != 2 {
        return SyncRunReport {
            message: Err(SyncError::Usage.message()),
            new_checkpoint: None,
            fallback_notice: None,
        };
    }
    let mut engine = match SyncEngine::new(
        args[0].as_str(),
        args[1].as_str(),
        "origin",
        "main",
        auth_token,
        checkpoint_content,
    ) {
        Ok(e) => e,
        Err(err) => {
            let message = err.message();
            proof {
                assert(message@ == spec_error_message(err) && !(err is Usage));
            }
            return SyncRunReport {
                message: Err(message),
                new_checkpoint: None,
                fallback_notice: None,
            };
        },
    };
    let outcome = engine.run();
    let applied = match &outcome {
        SyncOutcome::AppliedForward(_) => true,
        SyncOutcome::AppliedReverse(_) => true,
        _ => false,
    };
    let new_checkpoint = if applied {
        let content = engine.checkpoint.serialize();
        proof {
            assert(content@ == spec_serialize(engine.checkpoint@) && engine.checkpoint@.source
                is Some && engine.checkpoint@.source == engine.checkpoint@.target);
        }
        Some(content)
    } else {
        None
    };
    let fallback_notice = if engine.base_degraded {
        let mut notice = String::new();
        notice.append(
            "Note: the saved checkpoint no longer matched the repositories; the synchronization base was recomputed from the current heads.",
        );
        Some(notice)
    } else {
        None
    };
    let message = outcome_message(&outcome);
    proof {
        match &message {
            Ok(s) => {
                assert(s@ == spec_success_message(outcome));
            },
            Err(s) => {
                match &outcome {
                    SyncOutcome::Diverged => {
                        assert(s@ == spec_diverged_message());
                    },
                    SyncOutcome::Error(e) => {
                        assert(s@ == spec_error_message(*e) && !(*e is Usage));
                    },
                    _ => {
                        assert(false);
                    },
                }
            },
        }
    }
    SyncRunReport { message, new_checkpoint, fallback_notice }
}

} // verus!
