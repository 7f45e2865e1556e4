//! CI/CD workflow reshaping: a parsed workflow's job map becomes a job
//! list that carries each job's name inside the job itself, which is the
//! form consumers iterate over. Reading the YAML and writing the JSON are
//! the host's work.

use vstd::prelude::*;

verus! {

/// A single step of a job: its name and the command it runs.
pub struct WorkflowStep {
    pub name: String,
    pub run: String,
}

/// A job as the workflow file declares it: its name is the key it is
/// stored under, not a field.
pub struct WorkflowJob {
    pub runs_on: String,
    pub steps: Vec<WorkflowStep>,
}

/// A job as consumers want it: the name moved into the job.
pub struct NamedWorkflowJob {
    pub name: String,
    pub runs_on: String,
    pub steps: Vec<WorkflowStep>,
}

/// A whole workflow in the consumer-facing shape.
pub struct Workflow {
    pub name: String,
    pub jobs: Vec<NamedWorkflowJob>,
}

/// Moves each job's key into the job: entry by entry, in order, the name
/// becomes a field and everything else carries over unchanged.
pub fn jobs_to_list(jobs: Vec<(String, WorkflowJob)>) -> (r: Vec<NamedWorkflowJob>)
    ensures
        r@.len() == jobs@.len(),
        forall|i: int|
            0 <= i < jobs@.len() ==> {
                &&& (#[trigger] r@[i]).name == jobs@[i].0
                &&& r@[i].runs_on == jobs@[i].1.runs_on
                &&& r@[i].steps == jobs@[i].1.steps
            },
{
    let ghost orig = jobs@;
    let mut rest = jobs;
    let mut out: Vec<NamedWorkflowJob> = Vec::new();
    while rest.len() > 0
        invariant
            out@.len() + rest@.len() == orig.len(),
            rest@ =~= orig.skip(out@.len() as int),
            forall|i: int|
                0 <= i < out@.len() ==> {
                    &&& (#[trigger] out@[i]).name == orig[i].0
                    &&& out@[i].runs_on == orig[i].1.runs_on
                    &&& out@[i].steps == orig[i].1.steps
                },
        decreases rest@.len(),
    {
        let (name, job) = rest.remove(0);
        out.push(NamedWorkflowJob { name, runs_on: job.runs_on, steps: job.steps });
        proof {
            assert(rest@ =~= orig.skip(out@.len() as int));
        }
    }
    proof {
        assert(out@.len() == orig.len());
    }
    out
}

/// Builds the consumer-facing workflow from its name and its declared jobs.
pub fn build_workflow(name: String, jobs: Vec<(String, WorkflowJob)>) -> (r: Workflow)
    ensures
        r.name == name,
        r.jobs@.len() == jobs@.len(),
        forall|i: int|
            0 <= i < jobs@.len() ==> {
                &&& (#[trigger] r.jobs@[i]).name == jobs@[i].0
                &&& r.jobs@[i].runs_on == jobs@[i].1.runs_on
                &&& r.jobs@[i].steps == jobs@[i].1.steps
            },
{
    let jobs = jobs_to_list(jobs);
    Workflow { name, jobs }
}

} // verus!
