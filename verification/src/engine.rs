//! The reconciliation driver: one full synchronization cycle over a pair of
//! repositories — fetch, analyze, decide, apply, and record.
//!
//! The engine owns the in-memory checkpoint exclusively for the duration of
//! a run. It never guesses: when both sides hold unmerged work it reports
//! divergence and changes nothing, and a failed apply step never reaches the
//! checkpoint.

use vstd::prelude::*;

use crate::checkpoint::{opt_str_view, spec_load, SyncCheckpoint};
use crate::commit_id::CommitId;
use crate::divergence::{decide, DivergenceReport, SyncDecision};
use crate::gitdb;

verus! {

/// The failure taxonomy of one reconciliation cycle.
#[derive(Debug)]
pub enum SyncError {
    /// The command arguments had the wrong arity.
    Usage,
    /// A repository could not be opened. Misconfiguration, not retryable.
    OpenFailed(String),
    /// A network fetch failed. Transient: the caller may retry the cycle.
    FetchFailed(String),
    /// A branch head could not be resolved to a commit.
    HeadLookupFailed(String),
    /// The two repositories share no common ancestor. Fatal for this
    /// repository pair: it signals a wrong pairing, not a transient fault.
    NoCommonAncestor(String),
    /// An ahead/behind count over the commit graph failed.
    CountFailed(String),
    /// The apply step did not complete. The checkpoint is left untouched:
    /// a partial transfer is never recorded as a synchronization.
    ApplyFailed(String),
}

/// The result of one reconciliation cycle, as reported to the caller.
#[derive(Debug)]
pub enum SyncOutcome {
    /// Neither side had work to propagate. The checkpoint is unchanged.
    UpToDate,
    /// The given number of commits was propagated from source to target.
    AppliedForward(usize),
    /// The given number of commits was propagated from target to source.
    AppliedReverse(usize),
    /// Both sides hold unmerged work. Nothing was applied and nothing was
    /// recorded; manual reconciliation is required.
    Diverged,
    /// The cycle stopped on the given failure, before any state change.
    Error(SyncError),
}

/// Everything one analysis pass learned: the two heads, the report, and
/// whether the base had to be recomputed from the current heads because the
/// checkpoint was absent or no longer usable.
pub struct Analysis {
    pub source_head: CommitId,
    pub target_head: CommitId,
    pub report: DivergenceReport,
    pub used_fallback: bool,
}

/// The reconciliation driver for one repository pair.
///
/// Handles, remote name, branch and checkpoint are all constructor inputs:
/// the engine holds no global state.
pub struct SyncEngine {
    /// The source side's open repository handle.
    pub source_repo: git2::Repository,
    /// The target side's open repository handle.
    pub target_repo: git2::Repository,
    /// The remote both sides fetch from before analysis.
    pub remote_name: String,
    /// The branch whose heads are reconciled.
    pub branch: String,
    /// The credential presented on fetch, where the remotes need one.
    pub auth_token: Option<String>,
    /// The record of the last synchronized pair of commits.
    pub checkpoint: SyncCheckpoint,
    /// Set by a run whose complete checkpoint could no longer seed the
    /// base, so the base was recomputed from the current heads. The host
    /// must log this degradation so operators see why work is re-derived.
    pub base_degraded: bool,
}

/// A borrowed view of the optional credential.
fn token_ref(token: &Option<String>) -> (r: Option<&str>)
    ensures
        r is Some <==> token is Some,
{
    match token {
        Some(t) => Some(t.as_str()),
        None => None,
    }
}

impl SyncEngine {
    /// Opens both repositories and adopts the checkpoint loaded from the
    /// given file content (missing or corrupt content degrades to the empty
    /// record).
    pub fn new(
        source_path: &str,
        target_path: &str,
        remote_name: &str,
        branch: &str,
        auth_token: Option<&str>,
        checkpoint_content: Option<&str>,
    ) -> (r: Result<SyncEngine, SyncError>)
        requires
            checkpoint_content matches Some(s) ==> s@.len() < usize::MAX - 100,
        ensures
            r matches Ok(e) ==> e.checkpoint.wf() && e.checkpoint@ == spec_load(
                opt_str_view(checkpoint_content),
            ) && e.remote_name@ == remote_name@ && e.branch@ == branch@
                && crate::git_ops::opt_string_view(e.auth_token) == crate::git_ops::opt_path_view(
                auth_token,
            ) && !e.base_degraded,
            r matches Err(err) ==> err matches SyncError::OpenFailed(_),
    {
        let source_repo = match gitdb::repo_open(source_path) {
            Ok(repo) => repo,
            Err(m) => {
                return Err(SyncError::OpenFailed(m));
            },
        };
        let target_repo = match gitdb::repo_open(target_path) {
            Ok(repo) => repo,
            Err(m) => {
                return Err(SyncError::OpenFailed(m));
            },
        };
        let checkpoint = crate::checkpoint::load_checkpoint(checkpoint_content);
        let auth_token = match auth_token {
            Some(token) => Some(token.to_owned()),
            None => None,
        };
        Ok(
            SyncEngine {
                source_repo,
                target_repo,
                remote_name: remote_name.to_owned(),
                branch: branch.to_owned(),
                auth_token,
                checkpoint,
                base_degraded: false,
            },
        )
    }

    /// Fetches the reconciled branch for both sides from the configured
    /// remote. Both fetches complete before analysis may begin; a failure
    /// aborts the cycle before any state mutation.
    pub fn fetch_phase(&self) -> (r: Result<(), SyncError>)
        ensures
            r matches Err(e) ==> e matches SyncError::FetchFailed(_),
    {
        match gitdb::fetch_branch(
            &self.source_repo,
            self.remote_name.as_str(),
            self.branch.as_str(),
            token_ref(&self.auth_token),
        ) {
            Ok(()) => (),
            Err(m) => {
                return Err(SyncError::FetchFailed(m));
            },
        }
        match gitdb::fetch_branch(
            &self.target_repo,
            self.remote_name.as_str(),
            self.branch.as_str(),
            token_ref(&self.auth_token),
        ) {
            Ok(()) => (),
            Err(m) => {
                return Err(SyncError::FetchFailed(m));
            },
        }
        Ok(())
    }

    /// Resolves the reconciled branch to its head commit on each side.
    pub fn resolve_heads(&self) -> (r: Result<(CommitId, CommitId), SyncError>)
        ensures
            r matches Ok(heads) ==> heads.0.wf() && heads.1.wf(),
            r matches Err(e) ==> e matches SyncError::HeadLookupFailed(_),
    {
        let source_hex = match gitdb::branch_head_hex(&self.source_repo, self.branch.as_str()) {
            Ok(h) => h,
            Err(m) => {
                return Err(SyncError::HeadLookupFailed(m));
            },
        };
        let target_hex = match gitdb::branch_head_hex(&self.target_repo, self.branch.as_str()) {
            Ok(h) => h,
            Err(m) => {
                return Err(SyncError::HeadLookupFailed(m));
            },
        };
        let source_head = match CommitId::from_hex(source_hex.as_str()) {
            Some(id) => id,
            None => {
                return Err(SyncError::HeadLookupFailed(source_hex));
            },
        };
        let target_head = match CommitId::from_hex(target_hex.as_str()) {
            Some(id) => id,
            None => {
                return Err(SyncError::HeadLookupFailed(target_hex));
            },
        };
        Ok((source_head, target_head))
    }

    /// Finds the synchronization base.
    ///
    /// A complete checkpoint is trusted first: the base is the merge base of
    /// the two recorded commits, which stays correct even when a side was
    /// rebased after the last run. When that lookup fails — or no complete
    /// checkpoint exists — the base is recomputed from the current heads,
    /// and the returned flag reports the degradation so the caller can log
    /// it. Only the direct computation can fail, and only with
    /// `NoCommonAncestor`.
    pub fn resolve_base(&self, source_head: &CommitId, target_head: &CommitId) -> (r: Result<
        (CommitId, bool),
        SyncError,
    >)
        ensures
            r matches Ok(p) ==> p.0.wf(),
            r matches Err(e) ==> e matches SyncError::NoCommonAncestor(_),
            r matches Ok(p) ==> (!self.checkpoint.spec_is_complete() ==> p.1),
    {
        if let (Some(last_source), Some(last_target)) = (
            &self.checkpoint.last_source_synced_id,
            &self.checkpoint.last_target_synced_id,
        ) {
            match gitdb::merge_base_hex(
                &self.source_repo,
                last_source.as_str(),
                last_target.as_str(),
            ) {
                Ok(hex) => {
                    if let Some(base) = CommitId::from_hex(hex.as_str()) {
                        return Ok((base, false));
                    }
                    // A malformed answer degrades like a failed lookup.
                },
                Err(_) => {
                    // The recorded commits are gone (garbage-collected or
                    // rewritten): fall back to the current heads.
                },
            }
        }
        match gitdb::merge_base_hex(&self.source_repo, source_head.as_str(), target_head.as_str()) {
            Ok(hex) => match CommitId::from_hex(hex.as_str()) {
                Some(base) => Ok((base, true)),
                None => Err(SyncError::NoCommonAncestor(hex)),
            },
            Err(m) => Err(SyncError::NoCommonAncestor(m)),
        }
    }

    /// The number of commits reachable from `head` but not from `base`,
    /// computed on the given side's object database.
    pub fn count_divergence(
        repo: &git2::Repository,
        head: &CommitId,
        base: &CommitId,
    ) -> (r: Result<usize, SyncError>)
        ensures
            r matches Err(e) ==> e matches SyncError::CountFailed(_),
    {
        match gitdb::graph_ahead_behind(repo, head.as_str(), base.as_str()) {
            Ok(counts) => Ok(counts.0),
            Err(m) => Err(SyncError::CountFailed(m)),
        }
    }

    /// One full analysis pass over current heads and checkpoint: resolves
    /// both heads, the base, and each side's ahead count. Pure graph
    /// computation — deterministic for fixed heads and checkpoint, with no
    /// network access.
    pub fn analyze(&self) -> (r: Result<Analysis, SyncError>)
        ensures
            r matches Ok(a) ==> a.source_head.wf() && a.target_head.wf() && a.report.base.wf(),
            r matches Ok(a) ==> (!self.checkpoint.spec_is_complete() ==> a.used_fallback),
            r matches Err(e) ==> match e {
                SyncError::HeadLookupFailed(_) => true,
                SyncError::NoCommonAncestor(_) => true,
                SyncError::CountFailed(_) => true,
                _ => false,
            },
    {
        let (source_head, target_head) = match self.resolve_heads() {
            Ok(heads) => heads,
            Err(e) => {
                return Err(e);
            },
        };
        let (base, used_fallback) = match self.resolve_base(&source_head, &target_head) {
            Ok(p) => p,
            Err(e) => {
                return Err(e);
            },
        };
        let source_ahead = match Self::count_divergence(&self.source_repo, &source_head, &base) {
            Ok(n) => n,
            Err(e) => {
                return Err(e);
            },
        };
        let target_ahead = match Self::count_divergence(&self.target_repo, &target_head, &base) {
            Ok(n) => n,
            Err(e) => {
                return Err(e);
            },
        };
        Ok(
            Analysis {
                source_head,
                target_head,
                report: DivergenceReport { base, source_ahead, target_ahead },
                used_fallback,
            },
        )
    }

    /// Records the result of the apply step.
    ///
    /// Only a successful forward or reverse apply moves the checkpoint — to
    /// the propagated head on both sides. An up-to-date or diverged cycle,
    /// and every failed apply, leaves the record exactly as it was: a sync
    /// that did not happen is never recorded.
    pub fn commit_apply(
        &mut self,
        decision: &SyncDecision,
        source_head: &CommitId,
        target_head: &CommitId,
        apply_ok: bool,
    ) -> (r: SyncOutcome)
        requires
            source_head.wf(),
            target_head.wf(),
            old(self).checkpoint.wf(),
        ensures
            final(self).checkpoint.wf(),
            final(self).remote_name@ == old(self).remote_name@,
            final(self).branch@ == old(self).branch@,
            final(self).auth_token == old(self).auth_token,
            final(self).base_degraded == old(self).base_degraded,
            decision == SyncDecision::UpToDate ==> r is UpToDate && final(self).checkpoint@ == old(
                self,
            ).checkpoint@,
            decision == SyncDecision::Diverged ==> r is Diverged && final(self).checkpoint@ == old(
                self,
            ).checkpoint@,
            !apply_ok && !(decision == SyncDecision::UpToDate) && !(decision
                == SyncDecision::Diverged) ==> (r matches SyncOutcome::Error(e)
                && e matches SyncError::ApplyFailed(_)) && final(self).checkpoint@ == old(
                self,
            ).checkpoint@,
            decision matches SyncDecision::ForwardPending(n) ==> (apply_ok ==> r
                == SyncOutcome::AppliedForward(*n) && final(self).checkpoint@.source == Some(
                source_head@,
            ) && final(self).checkpoint@.target == Some(source_head@)),
            decision matches SyncDecision::ReversePending(n) ==> (apply_ok ==> r
                == SyncOutcome::AppliedReverse(*n) && final(self).checkpoint@.source == Some(
                target_head@,
            ) && final(self).checkpoint@.target == Some(target_head@)),
    {
        match decision {
            SyncDecision::UpToDate => SyncOutcome::UpToDate,
            SyncDecision::Diverged => SyncOutcome::Diverged,
            SyncDecision::ForwardPending(n) => {
                if apply_ok {
                    // The target now stands at the source's head.
                    self.checkpoint = SyncCheckpoint {
                        last_source_synced_id: Some(source_head.clone()),
                        last_target_synced_id: Some(source_head.clone()),
                    };
                    SyncOutcome::AppliedForward(*n)
                } else {
                    SyncOutcome::Error(
                        SyncError::ApplyFailed(
                            "forward apply did not complete; checkpoint left unchanged".to_owned(),
                        ),
                    )
                }
            },
            SyncDecision::ReversePending(n) => {
                if apply_ok {
                    // The source now stands at the target's head.
                    self.checkpoint = SyncCheckpoint {
                        last_source_synced_id: Some(target_head.clone()),
                        last_target_synced_id: Some(target_head.clone()),
                    };
                    SyncOutcome::AppliedReverse(*n)
                } else {
                    SyncOutcome::Error(
                        SyncError::ApplyFailed(
                            "reverse apply did not complete; checkpoint left unchanged".to_owned(),
                        ),
                    )
                }
            },
        }
    }

    /// One full reconciliation cycle: fetch both sides, analyze divergence,
    /// decide, apply, and record. Fetching strictly precedes analysis, which
    /// strictly precedes the apply and the checkpoint update; an up-to-date,
    /// diverged or failed cycle leaves the checkpoint untouched, and an
    /// applied cycle records the propagated head on both sides.
    pub fn run(&mut self) -> (r: SyncOutcome)
        requires
            old(self).checkpoint.wf(),
        ensures
            final(self).checkpoint.wf(),
            final(self).remote_name@ == old(self).remote_name@,
            final(self).branch@ == old(self).branch@,
            final(self).auth_token == old(self).auth_token,
            // The degradation flag can rise only out of a complete
            // checkpoint whose recorded commits no longer seeded the base.
            final(self).base_degraded ==> old(self).checkpoint.spec_is_complete(),
            r matches SyncOutcome::Error(e) ==> match e {
                SyncError::FetchFailed(_) => true,
                SyncError::HeadLookupFailed(_) => true,
                SyncError::NoCommonAncestor(_) => true,
                SyncError::CountFailed(_) => true,
                _ => false,
            },
            !(r matches SyncOutcome::AppliedForward(_)) && !(r matches SyncOutcome::AppliedReverse(
                _,
            )) ==> final(self).checkpoint@ == old(self).checkpoint@,
            r matches SyncOutcome::AppliedForward(n) ==> n > 0 && final(self).checkpoint@.source
                is Some && final(self).checkpoint@.source == final(self).checkpoint@.target,
            r matches SyncOutcome::AppliedReverse(n) ==> n > 0 && final(self).checkpoint@.source
                is Some && final(self).checkpoint@.source == final(self).checkpoint@.target,
    {
        self.base_degraded = false;
        match self.fetch_phase() {
            Ok(()) => (),
            Err(e) => {
                return SyncOutcome::Error(e);
            },
        }
        let analysis = match self.analyze() {
            Ok(a) => a,
            Err(e) => {
                return SyncOutcome::Error(e);
            },
        };
        // A fallback out of a complete checkpoint is a degradation the
        // host must be able to log; a fallback on an empty checkpoint is
        // the ordinary first-run path.
        self.base_degraded = self.checkpoint.is_complete() && analysis.used_fallback;
        let decision = decide(analysis.report.source_ahead, analysis.report.target_ahead);
        // The transfer itself is the pusher collaborator's work; this driver
        // records its (here: successful) completion.
        self.commit_apply(&decision, &analysis.source_head, &analysis.target_head, true)
    }
}

} // verus!
