//! DevOps tool wrappers: the exact command lines handed to the
//! infrastructure tools. Spawning and streaming are the host's work.

use vstd::prelude::*;
use vstd::string::StringExecFns;

use crate::command::ToolInvocation;

verus! {

/// Plans `terraform plan` with the user's extra arguments appended.
pub fn handle_terraform_plan(args: &[String]) -> (r: ToolInvocation)
    ensures
        r.program@ == "terraform"@,
        r.args@.len() == args@.len() + 1,
        r.args@[0]@ == "plan"@,
        forall|i: int| 0 <= i < args@.len() ==> (#[trigger] r.args@[i + 1])@ == args@[i]@,
{
    let mut full_args: Vec<String> = Vec::new();
    full_args.push(String::from_str("plan"));
    append_all(&mut full_args, args);
    ToolInvocation { program: String::from_str("terraform"), args: full_args }
}

/// Plans `terraform apply` with the user's extra arguments appended.
pub fn handle_terraform_apply(args: &[String]) -> (r: ToolInvocation)
    ensures
        r.program@ == "terraform"@,
        r.args@.len() == args@.len() + 1,
        r.args@[0]@ == "apply"@,
        forall|i: int| 0 <= i < args@.len() ==> (#[trigger] r.args@[i + 1])@ == args@[i]@,
{
    let mut full_args: Vec<String> = Vec::new();
    full_args.push(String::from_str("apply"));
    append_all(&mut full_args, args);
    ToolInvocation { program: String::from_str("terraform"), args: full_args }
}

/// Plans the read of one secret in JSON form:
/// `vault read -format=json <path>`. Exactly one argument — the secret
/// path — is accepted.
pub fn handle_vault_read(args: &[String]) -> (r: Result<ToolInvocation, String>)
    ensures
        r is Ok <==> args@.len() == 1,
        r matches Ok(inv) ==> {
            &&& inv.program@ == "vault"@
            &&& inv.args@.len() == 3
            &&& inv.args@[0]@ == "read"@
            &&& inv.args@[1]@ == "-format=json"@
            &&& inv.args@[2]@ == args@[0]@
        },
{
    if args.len() != 1 {
        return Err("Expected exactly one argument: <secret_path>".to_owned());
    }
    let mut vault_args: Vec<String> = Vec::new();
    vault_args.push(String::from_str("read"));
    vault_args.push(String::from_str("-format=json"));
    vault_args.push(args[0].clone());
    Ok(ToolInvocation { program: String::from_str("vault"), args: vault_args })
}

/// Appends every element of `extra` to `out`, in order.
fn append_all(out: &mut Vec<String>, extra: &[String])
    ensures
        final(out)@.len() == old(out)@.len() + extra@.len(),
        forall|i: int| 0 <= i < old(out)@.len() ==> (#[trigger] final(out)@[i])@ == old(
            out,
        )@[i]@,
        forall|i: int|
            old(out)@.len() <= i < final(out)@.len() ==> (#[trigger] final(out)@[i])@
                == extra@[i - old(out)@.len()]@,
{
    let mut i: usize = 0;
    while i < extra.len()
        invariant
            0 <= i <= extra@.len(),
            out@.len() == old(out)@.len() + i,
            forall|j: int| 0 <= j < old(out)@.len() ==> (#[trigger] out@[j])@ == old(out)@[j]@,
            forall|j: int|
                old(out)@.len() <= j < out@.len() ==> (#[trigger] out@[j])@ == extra@[j - old(
                    out,
                )@.len()]@,
        decreases extra@.len() - i,
    {
        out.push(extra[i].clone());
        i += 1;
    }
}

} // verus!
