//! Divergence analysis: classifying the relation of two repository heads
//! against their synchronization base, and the convergence decision.

use vstd::prelude::*;

use crate::commit_id::CommitId;

verus! {

/// The result of one analysis pass: the synchronization base and how many
/// commits each side is ahead of it. Produced fresh each run, never persisted.
pub struct DivergenceReport {
    pub base: CommitId,
    pub source_ahead: usize,
    pub target_ahead: usize,
}

/// The action selected from the ahead counts of one analysis pass.
#[derive(PartialEq, Eq, Structural, Clone, Copy, Debug)]
pub enum SyncDecision {
    /// Neither side is ahead: nothing to do.
    UpToDate,
    /// Only the source is ahead by the given count: apply source to target.
    ForwardPending(usize),
    /// Only the target is ahead by the given count: apply target to source.
    ReversePending(usize),
    /// Both sides hold unmerged work. Terminal: the engine never guesses a
    /// resolution, since auto-resolving could silently discard commits.
    Diverged,
}

/// The decision rule of the reconciler, as a function of the ahead counts.
pub open spec fn spec_decide(source_ahead: usize, target_ahead: usize) -> SyncDecision {
    if source_ahead == 0 && target_ahead == 0 {
        SyncDecision::UpToDate
    } else if source_ahead > 0 && target_ahead > 0 {
        SyncDecision::Diverged
    } else if source_ahead > 0 {
        SyncDecision::ForwardPending(source_ahead)
    } else {
        SyncDecision::ReversePending(target_ahead)
    }
}

/// Selects the convergence action for the given ahead counts:
/// `(0, 0)` is up to date, `(n>0, 0)` forwards exactly `n` commits,
/// `(0, n>0)` reverses exactly `n`, and `(m>0, n>0)` is divergence.
pub fn decide(source_ahead: usize, target_ahead: usize) -> (d: SyncDecision)
    ensures
        d == spec_decide(source_ahead, target_ahead),
        d == SyncDecision::UpToDate <==> source_ahead == 0 && target_ahead == 0,
        d == SyncDecision::Diverged <==> source_ahead > 0 && target_ahead > 0,
        source_ahead > 0 && target_ahead == 0 ==> d == SyncDecision::ForwardPending(source_ahead),
        d matches SyncDecision::ForwardPending(n) ==> source_ahead > 0 && target_ahead == 0
            && n == source_ahead,
        target_ahead > 0 && source_ahead == 0 ==> d == SyncDecision::ReversePending(target_ahead),
        d matches SyncDecision::ReversePending(n) ==> target_ahead > 0 && source_ahead == 0
            && n == target_ahead,
{
    if source_ahead == 0 && target_ahead == 0 {
        SyncDecision::UpToDate
    } else if source_ahead > 0 && target_ahead > 0 {
        SyncDecision::Diverged
    } else if source_ahead > 0 {
        SyncDecision::ForwardPending(source_ahead)
    } else {
        SyncDecision::ReversePending(target_ahead)
    }
}

/// The same decision seen from the other side: source and target exchanged.
pub open spec fn spec_swap_roles(d: SyncDecision) -> SyncDecision {
    match d {
        SyncDecision::UpToDate => SyncDecision::UpToDate,
        SyncDecision::ForwardPending(n) => SyncDecision::ReversePending(n),
        SyncDecision::ReversePending(n) => SyncDecision::ForwardPending(n),
        SyncDecision::Diverged => SyncDecision::Diverged,
    }
}

/// Divergence symmetry: swapping the source and target roles detects the same
/// structural relationship with the two counts exchanged. An up-to-date pair
/// stays up to date, a forward sync of `n` commits becomes a reverse sync of
/// the same `n`, and divergence remains divergence.
pub proof fn lemma_divergence_symmetry(source_ahead: usize, target_ahead: usize)
    ensures
        spec_decide(target_ahead, source_ahead) == spec_swap_roles(
            spec_decide(source_ahead, target_ahead),
        ),
{
}

/// Up-to-date is decided exactly on equal analysis outcomes: the decision is
/// `UpToDate` if and only if neither side is ahead of the base, so a pair
/// whose heads coincide is never asked to apply anything.
pub proof fn lemma_up_to_date_exact(source_ahead: usize, target_ahead: usize)
    ensures
        spec_decide(source_ahead, target_ahead) == SyncDecision::UpToDate <==> (source_ahead == 0
            && target_ahead == 0),
{
}

/// Divergence never resolves itself: whenever both sides hold unmerged work
/// the decision is `Diverged`, and `Diverged` arises in no other situation.
pub proof fn lemma_diverged_exact(source_ahead: usize, target_ahead: usize)
    ensures
        spec_decide(source_ahead, target_ahead) == SyncDecision::Diverged <==> (source_ahead > 0
            && target_ahead > 0),
{
}

/// Forward counts are exact and monotone: while the target stays even with
/// the base, the forward decision carries precisely the source's ahead count,
/// so a source that gains `extra` commits is forwarded by exactly `extra`
/// more.
pub proof fn lemma_forward_count_monotone(source_ahead: usize, extra: usize, target_ahead: usize)
    requires
        source_ahead > 0,
        target_ahead == 0,
        source_ahead + extra <= usize::MAX,
    ensures
        spec_decide(source_ahead, target_ahead) == SyncDecision::ForwardPending(source_ahead),
        spec_decide((source_ahead + extra) as usize, target_ahead)
            == SyncDecision::ForwardPending((source_ahead + extra) as usize),
{
}

} // verus!
