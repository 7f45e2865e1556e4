//! The policy engine: the exact checker invocation and the verdict drawn
//! from its structured output. Running the checker is the host's work.

use vstd::prelude::*;
use vstd::string::StringExecFns;

use crate::command::ToolInvocation;

verus! {

/// One result object of the policy checker's JSON output. Only the
/// failures decide the verdict.
pub struct CheckResult {
    /// The failure messages of this check, if the key was present.
    pub failures: Option<Vec<FailureDetail>>,
}

/// One failure message of a policy check.
pub struct FailureDetail {
    pub msg: String,
}

/// The policy check invocation:
/// `conftest test -p <policies> <manifests> -o json`.
pub fn conftest_invocation(policy_path: &str, manifest_path: &str) -> (r: ToolInvocation)
    ensures
        r.program@ == "conftest"@,
        r.args@.len() == 6,
        r.args@[0]@ == "test"@,
        r.args@[1]@ == "-p"@,
        r.args@[2]@ == policy_path@,
        r.args@[3]@ == manifest_path@,
        r.args@[4]@ == "-o"@,
        r.args@[5]@ == "json"@,
{
    let mut args: Vec<String> = Vec::new();
    args.push(String::from_str("test"));
    args.push(String::from_str("-p"));
    args.push(policy_path.to_owned());
    args.push(manifest_path.to_owned());
    args.push(String::from_str("-o"));
    args.push(String::from_str("json"));
    ToolInvocation { program: String::from_str("conftest"), args }
}

/// One check passed: it reported no failures (no failure key, or an empty
/// list).
pub open spec fn spec_check_passed(c: CheckResult) -> bool {
    match c.failures {
        Some(f) => f@.len() == 0,
        None => true,
    }
}

/// The verdict over the checker's whole output: every check passed. An
/// empty output means no policy failed.
pub fn all_checks_passed(results: &Vec<CheckResult>) -> (r: bool)
    ensures
        r == forall|i: int| 0 <= i < results@.len() ==> spec_check_passed(#[trigger] results@[i]),
{
    let mut i: usize = 0;
    while i < results.len()
        invariant
            0 <= i <= results@.len(),
            forall|j: int| 0 <= j < i ==> spec_check_passed(#[trigger] results@[j]),
        decreases results@.len() - i,
    {
        let passed = match &results[i].failures {
            Some(f) => f.len() == 0,
            None => true,
        };
        if !passed {
            return false;
        }
        i += 1;
    }
    true
}

} // verus!
