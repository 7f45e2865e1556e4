//! The pipeline controller's decisions: a state machine over the pipeline's
//! status, driven by what it observes of the current step's job.

use vstd::prelude::*;
use vstd::string::StrSliceExecFns;
use vstd::string::StringExecFns;

use crate::crds::{PhgitPipelineSpec, PipelinePhase};
use crate::fmt::{push_decimal, spec_decimal};

verus! {

/// What the controller observed about the job of the current step.
pub enum JobObservation {
    /// No job with the step's name exists yet.
    Missing,
    /// The job reported at least one successful completion.
    Succeeded,
    /// The job reported at least one failure.
    Failed,
    /// The job exists and is still running.
    StillRunning,
    /// The job exists but has not reported a status yet.
    NoStatus,
}

/// What the controller must do for the pipeline next.
pub enum PipelineAction {
    /// A new pipeline: record phase Running with both indices at zero and
    /// requeue immediately.
    Initialize,
    /// Every stage is done: record phase Succeeded.
    CompleteSuccess,
    /// Create the job for the step at the given stage and step indices,
    /// then check back.
    CreateJob { stage: usize, step: usize },
    /// The step's job succeeded: move the indices to the given next step
    /// and requeue immediately.
    AdvanceTo { stage: usize, step: usize },
    /// The step's job failed: record phase Failed. Terminal.
    FailPipeline,
    /// Nothing to decide yet: check the job again later.
    CheckAgainLater,
    /// A terminal phase: leave the resource alone until it changes.
    AwaitChange,
}

/// The indices that follow a completed step: the next step of the same
/// stage, or the first step of the next stage when the stage is exhausted.
pub open spec fn spec_next_indices(
    steps_in_stage: nat,
    stage_index: nat,
    step_index: nat,
) -> (nat, nat) {
    if step_index + 1 >= steps_in_stage {
        ((stage_index + 1) as nat, 0 as nat)
    } else {
        (stage_index, (step_index + 1) as nat)
    }
}

/// One reconciliation decision for a running pipeline.
///
/// A pipeline whose stage index has passed the last stage is complete. An
/// observed success advances the indices; an observed failure is terminal;
/// a missing job is created; anything else waits.
pub fn running_pipeline_action(
    spec: &PhgitPipelineSpec,
    stage_index: usize,
    step_index: usize,
    observation: &JobObservation,
) -> (a: PipelineAction)
    requires
        stage_index < spec.stages@.len() ==> step_index < spec.stages@[stage_index as int].steps@.len(),
        spec.stages@.len() < usize::MAX,
        stage_index < spec.stages@.len() ==> spec.stages@[stage_index as int].steps@.len()
            < usize::MAX,
    ensures
        stage_index >= spec.stages@.len() ==> a is CompleteSuccess,
        stage_index < spec.stages@.len() ==> match observation {
            JobObservation::Missing => a == (PipelineAction::CreateJob {
                stage: stage_index,
                step: step_index,
            }),
            JobObservation::Succeeded => (a matches PipelineAction::AdvanceTo { stage, step }
                && (stage as nat, step as nat) == spec_next_indices(
                spec.stages@[stage_index as int].steps@.len(),
                stage_index as nat,
                step_index as nat,
            )),
            JobObservation::Failed => a is FailPipeline,
            JobObservation::StillRunning => a is CheckAgainLater,
            JobObservation::NoStatus => a is CheckAgainLater,
        },
{
    if stage_index >= spec.stages.len() {
        return PipelineAction::CompleteSuccess;
    }
    match observation {
        JobObservation::Missing => PipelineAction::CreateJob {
            stage: stage_index,
            step: step_index,
        },
        JobObservation::Succeeded => {
            let steps_in_stage = vec_ref(&spec.stages, stage_index).steps.len();
            if step_index + 1 >= steps_in_stage {
                PipelineAction::AdvanceTo { stage: stage_index + 1, step: 0 }
            } else {
                PipelineAction::AdvanceTo { stage: stage_index, step: step_index + 1 }
            }
        },
        JobObservation::Failed => PipelineAction::FailPipeline,
        JobObservation::StillRunning => PipelineAction::CheckAgainLater,
        JobObservation::NoStatus => PipelineAction::CheckAgainLater,
    }
}

/// The dispatch on the recorded phase: a new pipeline is initialized, a
/// running one proceeds by observation, and a finished one is left alone.
pub fn pipeline_phase_action(phase: &Option<PipelinePhase>) -> (a: PipelineAction)
    ensures
        (phase is None || phase == Some(PipelinePhase::Pending)) ==> a is Initialize,
        phase == Some(PipelinePhase::Succeeded) || phase == Some(PipelinePhase::Failed)
            ==> a is AwaitChange,
        phase == Some(PipelinePhase::Running) ==> a is CheckAgainLater,
{
    match phase {
        None => PipelineAction::Initialize,
        Some(PipelinePhase::Pending) => PipelineAction::Initialize,
        Some(PipelinePhase::Running) => PipelineAction::CheckAgainLater,
        Some(PipelinePhase::Succeeded) => PipelineAction::AwaitChange,
        Some(PipelinePhase::Failed) => PipelineAction::AwaitChange,
    }
}

/// The text of `s` with every underscore replaced by a dash, as job names
/// require.
pub fn dash_for_underscores(s: &str) -> (r: String)
    requires
        s@.len() < usize::MAX,
    ensures
        r@ == s@.map_values(|c: char| if c == '_' { '-' } else { c }),
{
    let ghost mapped = s@.map_values(|c: char| if c == '_' { '-' } else { c });
    let n = s.unicode_len();
    let mut out = String::new();
    let mut i: usize = 0;
    proof {
        reveal_strlit("-");
    }
    while i < n
        invariant
            0 <= i <= n,
            n == s@.len(),
            n < usize::MAX,
            mapped == s@.map_values(|c: char| if c == '_' { '-' } else { c }),
            out@ =~= mapped.subrange(0, i as int),
        decreases n - i,
    {
        let c = s.get_char(i);
        if c == '_' {
            out.append("-");
        } else {
            out.append(s.substring_char(i, i + 1));
        }
        proof {
            reveal_strlit("-");
            assert(mapped[i as int] == if s@[i as int] == '_' {
                '-'
            } else {
                s@[i as int]
            });
            assert(out@ =~= mapped.subrange(0, i + 1));
        }
        i += 1;
    }
    proof {
        assert(out@ =~= mapped);
    }
    out
}

/// The name of the job for one pipeline step:
/// `<pipeline>-s<stage>-<step name with dashes>`.
pub open spec fn spec_job_name(pipeline: Seq<char>, stage: nat, step_name: Seq<char>) -> Seq<char> {
    pipeline + "-s"@ + spec_decimal(stage) + "-"@ + step_name.map_values(
        |c: char|
            if c == '_' {
                '-'
            } else {
                c
            },
    )
}

/// Builds the job name for one pipeline step.
pub fn pipeline_job_name(pipeline: &str, stage: usize, step_name: &str) -> (r: String)
    requires
        step_name@.len() < usize::MAX,
    ensures
        r@ == spec_job_name(pipeline@, stage as nat, step_name@),
{
    let mut out = String::new();
    out.append(pipeline);
    out.append("-s");
    push_decimal(stage, &mut out);
    out.append("-");
    let dashed = dash_for_underscores(step_name);
    out.append(dashed.as_str());
    proof {
        assert(out@ =~= spec_job_name(pipeline@, stage as nat, step_name@));
    }
    out
}

/// One element of a vector.
fn vec_ref<T>(v: &Vec<T>, i: usize) -> (r: &T)
    requires
        i < v@.len(),
    ensures
        *r == v@[i as int],
{
    &v[i]
}

} // verus!
