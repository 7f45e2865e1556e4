//! Preview environments: the request model, the naming rules for the
//! namespaces that isolate each preview, and the selection of manifest
//! files. Cluster and Git I/O stay with the host.

use vstd::prelude::*;
use vstd::string::StrSliceExecFns;
use vstd::string::StringExecFns;

use crate::crds::{PhgitPreviewSpec, PhgitPreviewStatus, StatusCondition};
use crate::fmt::{push_decimal, spec_decimal};
use crate::text::{match_at, replace_char};

verus! {

/// What a preview request asks for.
pub enum Action {
    Create,
    Destroy,
}

/// One preview-environment task.
pub struct PreviewConfig {
    /// Whether to create or destroy the environment.
    pub action: Action,
    /// The pull request this preview belongs to; names its resources.
    pub pr_number: u32,
    /// The repository to deploy.
    pub git_repo_url: String,
    /// The commit that triggered the action.
    pub commit_sha: String,
    /// An optional kubeconfig path; the environment's default otherwise.
    pub kubeconfig_path: Option<String>,
}

/// The default time-to-live recorded on a preview namespace, in hours.
pub const DEFAULT_NAMESPACE_TTL_HOURS: u32 = 24;

/// The namespace of a pull request's preview environment: `pr-<number>`.
pub fn preview_namespace(pr_number: u32) -> (r: String)
    ensures
        r@ == "pr-"@ + spec_decimal(pr_number as nat),
{
    let mut out = String::new();
    out.append("pr-");
    push_decimal(pr_number as usize, &mut out);
    proof {
        assert(out@ =~= "pr-"@ + spec_decimal(pr_number as nat));
    }
    out
}

/// The namespace generated for one preview resource:
/// `preview-<branch>-<app>-<uid prefix>`, with every slash of the branch
/// turned into a dash so the name stays a valid DNS label, and the first
/// six characters of the resource's unique id.
pub fn generate_namespace_name(spec: &PhgitPreviewSpec, uid: &str) -> (r: String)
    requires
        uid@.len() >= 6,
        spec.branch@.len() < usize::MAX,
    ensures
        r@ == "preview-"@ + spec.branch@.map_values(
            |c: char|
                if c == '/' {
                    '-'
                } else {
                    c
                },
        ) + "-"@ + spec.app_name@ + "-"@ + uid@.subrange(0, 6),
{
    let mut out = String::new();
    out.append("preview-");
    let branch = replace_char(spec.branch.as_str(), '/', '-');
    out.append(branch.as_str());
    out.append("-");
    out.append(spec.app_name.as_str());
    out.append("-");
    out.append(uid.substring_char(0, 6));
    proof {
        assert(out@ =~= "preview-"@ + spec.branch@.map_values(
            |c: char|
                if c == '/' {
                    '-'
                } else {
                    c
                },
        ) + "-"@ + spec.app_name@ + "-"@ + uid@.subrange(0, 6));
    }
    out
}

/// True exactly for the file names a preview deploys: those ending in
/// `.yaml` or `.yml`.
pub open spec fn spec_is_manifest_file(name: Seq<char>) -> bool {
    ||| (name.len() >= 5 && name.subrange(name.len() - 5, name.len() as int) == ".yaml"@)
    ||| (name.len() >= 4 && name.subrange(name.len() - 4, name.len() as int) == ".yml"@)
}

/// Decides whether a directory entry is a manifest to apply.
pub fn is_manifest_file(name: &str) -> (r: bool)
    requires
        name@.len() < usize::MAX,
    ensures
        r == spec_is_manifest_file(name@),
{
    proof {
        reveal_strlit(".yaml");
        reveal_strlit(".yml");
    }
    let n = name.unicode_len();
    let yaml = if n >= 5 {
        match_at(name, n - 5, ".yaml")
    } else {
        false
    };
    let yml = if n >= 4 {
        match_at(name, n - 4, ".yml")
    } else {
        false
    };
    yaml || yml
}

/// The status recorded when reconciliation of a preview begins.
pub fn creating_status(namespace: String) -> (r: PhgitPreviewStatus)
    ensures
        r.namespace matches Some(ns) && ns@ == namespace@,
        r.conditions@.len() == 1,
        r.conditions@[0].type_@ == "Creating"@,
        r.conditions@[0].message@ == "Reconciliation started"@,
{
    let mut conditions: Vec<StatusCondition> = Vec::new();
    conditions.push(
        StatusCondition::new(
            String::from_str("Creating"),
            String::from_str("Reconciliation started"),
        ),
    );
    PhgitPreviewStatus { namespace: Some(namespace), conditions }
}

} // verus!
