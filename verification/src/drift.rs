//! Git-aware drift reconciliation: the sync task model, the diff-derived
//! drift reports, and the texts of the reconciliation branch, commit and
//! pull request. Cluster reads, repository writes and the pull-request API
//! call are the host's; every text and decision is built and checked here.

use vstd::prelude::*;
use vstd::string::StringExecFns;

use crate::fmt::{push_decimal, spec_decimal};

verus! {

/// A Git-aware synchronization task.
pub struct SyncConfig {
    /// The repository holding the desired state.
    pub repo_url: String,
    /// The branch to sync against.
    pub branch: String,
    /// Where the manifests live within the repository.
    pub manifest_path: String,
    /// An optional kubeconfig path for the cluster.
    pub kubeconfig_path: Option<String>,
    /// Only detect and report drift; change nothing.
    pub dry_run: bool,
    /// Open a pull request reconciling detected drift.
    pub create_pr: bool,
}

/// What GitHub operations need: the token and the repository coordinates.
pub struct GitHubContext<'a> {
    pub token: &'a str,
    pub repo_owner: &'a str,
    pub repo_name: &'a str,
}

/// One detected configuration drift: the resource and its diff.
pub struct DriftDetail {
    /// The resource kind (for example "Deployment").
    pub kind: String,
    /// The resource name.
    pub name: String,
    /// Its namespace.
    pub namespace: String,
    /// The unified diff between the recorded and the live state.
    pub patch: String,
}

// --- Trusted items ----------------------------------------------------------
/// What the standard library's case folding yields for the given text.
pub uninterp spec fn lower_of(s: Seq<char>) -> Seq<char>;

/// Relies on str::to_lowercase: the result depends on the characters alone.
#[verifier::external_body]
pub(crate) fn lowercase(s: &str) -> (r: String)
    ensures
        r@ == lower_of(s@),
{
    s.to_lowercase()
}

/// Relies on std::time::SystemTime::now and chrono's
/// DateTime::from_timestamp and format: the current UTC time rendered
/// compactly for a branch name. A clock before the Unix epoch or out of
/// chrono's range is reported as an error instead of panicking.
/// Time-dependent: nothing is assumed of the returned text.
#[verifier::external_body]
pub(crate) fn utc_timestamp_compact() -> (r: Result<String, String>)
{
    let now = match std::time::SystemTime::now().duration_since(std::time::UNIX_EPOCH) {
        Ok(elapsed) => elapsed,
        Err(e) => return Err(e.to_string()),
    };
    let seconds = i64::try_from(now.as_secs()).unwrap_or(i64::MAX);
    match chrono::DateTime::<chrono::Utc>::from_timestamp(seconds, 0) {
        Some(time) => Ok(time.format("%Y-%m-%dT%H%M%SZ").to_string()),
        None => Err(String::from("timestamp out of range")),
    }
}

/// One line of a diff: removed, added, or common to both sides.
pub enum DiffTag {
    Delete,
    Insert,
    Equal,
}

/// The tagged lines of the line diff between the two texts, a function of
/// those texts alone: `'-'` marks a removed line, `'+'` an added one, and
/// `' '` a line common to both sides.
pub uninterp spec fn line_changes_of(old_text: Seq<char>, new_text: Seq<char>) -> Seq<
    (char, Seq<char>),
>;

/// A change stream seen as tag characters and line texts.
pub open spec fn spec_changes_view(changes: Seq<(DiffTag, String)>) -> Seq<(char, Seq<char>)> {
    changes.map_values(
        |c: (DiffTag, String)|
            (
                match c.0 {
                    DiffTag::Delete => '-',
                    DiffTag::Insert => '+',
                    DiffTag::Equal => ' ',
                },
                c.1@,
            ),
    )
}

/// Relies on similar::TextDiff::from_lines and its change stream: the lines
/// of a line-oriented diff between the two texts, each tagged. The diff is
/// a function of the two texts alone.
#[verifier::external_body]
pub(crate) fn line_diff(old_text: &str, new_text: &str) -> (r: Vec<(DiffTag, String)>)
    ensures
        spec_changes_view(r@) == line_changes_of(old_text@, new_text@),
{
    similar::TextDiff::from_lines(old_text, new_text)
        .iter_all_changes()
        .map(|change| {
            let tag = match change.tag() {
                similar::ChangeTag::Delete => DiffTag::Delete,
                similar::ChangeTag::Insert => DiffTag::Insert,
                similar::ChangeTag::Equal => DiffTag::Equal,
            };
            (tag, change.to_string())
        })
        .collect()
}

// --- Patch building ----------------------------------------------------------
/// The patch text of a change stream from position `i` on: removed lines
/// prefixed `-`, added lines prefixed `+`, common lines dropped.
pub open spec fn spec_patch_from(changes: Seq<(DiffTag, String)>, i: int) -> Seq<char>
    decreases changes.len() - i,
    when 0 <= i <= changes.len()
{
    if i >= changes.len() {
        Seq::empty()
    } else {
        (match changes[i].0 {
            DiffTag::Delete => "-"@ + changes[i].1@,
            DiffTag::Insert => "+"@ + changes[i].1@,
            DiffTag::Equal => Seq::<char>::empty(),
        }) + spec_patch_from(changes, i + 1)
    }
}

/// Appends the patch text of the changes from `i` on.
fn append_patch(changes: &Vec<(DiffTag, String)>, i: usize, out: &mut String)
    requires
        i <= changes@.len(),
    ensures
        final(out)@ == old(out)@ + spec_patch_from(changes@, i as int),
    decreases changes@.len() - i,
{
    if i >= changes.len() {
        proof {
            assert(out@ =~= old(out)@ + spec_patch_from(changes@, i as int));
        }
        return ;
    }
    match &changes[i].0 {
        DiffTag::Delete => {
            out.append("-");
            out.append(changes[i].1.as_str());
        },
        DiffTag::Insert => {
            out.append("+");
            out.append(changes[i].1.as_str());
        },
        DiffTag::Equal => {
        },
    }
    append_patch(changes, i + 1, out);
    proof {
        assert(out@ =~= old(out)@ + spec_patch_from(changes@, i as int));
    }
}

/// Builds a patch from a change stream, keeping only the changed lines.
/// An empty patch means no drift: it yields nothing.
pub fn build_drift_patch(changes: &Vec<(DiffTag, String)>) -> (r: Option<String>)
    ensures
        r matches Some(p) ==> p@ == spec_patch_from(changes@, 0) && p@.len() > 0,
        r is None ==> spec_patch_from(changes@, 0).len() == 0,
{
    let mut out = String::new();
    append_patch(changes, 0, &mut out);
    proof {
        assert(out@ =~= spec_patch_from(changes@, 0));
    }
    if out.as_str().is_empty() {
        None
    } else {
        Some(out)
    }
}

/// The patch text of a tagged change stream: removed lines prefixed `-`,
/// added lines prefixed `+`, common lines dropped.
pub open spec fn spec_patch_of(changes: Seq<(char, Seq<char>)>, i: int) -> Seq<char>
    decreases changes.len() - i,
    when 0 <= i <= changes.len()
{
    if i >= changes.len() {
        Seq::empty()
    } else {
        (if changes[i].0 == '-' {
            "-"@ + changes[i].1
        } else if changes[i].0 == '+' {
            "+"@ + changes[i].1
        } else {
            Seq::<char>::empty()
        }) + spec_patch_of(changes, i + 1)
    }
}

/// The two patch readings agree: over a change stream and over its view.
proof fn lemma_patch_view(changes: Seq<(DiffTag, String)>, i: int)
    requires
        0 <= i <= changes.len(),
    ensures
        spec_patch_from(changes, i) == spec_patch_of(spec_changes_view(changes), i),
    decreases changes.len() - i,
{
    let v = spec_changes_view(changes);
    assert(v.len() == changes.len());
    if i < changes.len() {
        lemma_patch_view(changes, i + 1);
        assert(v[i] == (
            match changes[i].0 {
                DiffTag::Delete => '-',
                DiffTag::Insert => '+',
                DiffTag::Equal => ' ',
            },
            changes[i].1@,
        ));
    }
}

/// Diffs the recorded text against the live one and keeps the changed
/// lines, each signed: exactly the patch of the two texts' line diff.
/// Equal texts mean no drift and yield nothing; a returned patch is never
/// empty.
pub fn drift_patch(recorded: &str, live: &str) -> (r: Option<String>)
    ensures
        r matches Some(p) ==> p@ == spec_patch_of(line_changes_of(recorded@, live@), 0)
            && p@.len() > 0,
        r is None ==> spec_patch_of(line_changes_of(recorded@, live@), 0).len() == 0,
{
    let changes = line_diff(recorded, live);
    let r = build_drift_patch(&changes);
    proof {
        lemma_patch_view(changes@, 0);
    }
    r
}

/// The unified-diff framing of one drifted file's patch.
pub fn unified_patch(rel_path: &str, patch: &str) -> (r: String)
    ensures
        r@ == "--- a/"@ + rel_path@ + "\n+++ b/"@ + rel_path@ + "\n"@ + patch@,
{
    let mut out = String::new();
    out.append("--- a/");
    out.append(rel_path);
    out.append("\n+++ b/");
    out.append(rel_path);
    out.append("\n");
    out.append(patch);
    proof {
        assert(out@ =~= "--- a/"@ + rel_path@ + "\n+++ b/"@ + rel_path@ + "\n"@ + patch@);
    }
    out
}

/// The patch reported for a resource that lives in the cluster but has no
/// file in the repository yet.
pub fn missing_file_patch(file_path: &str, live_yaml: &str) -> (r: String)
    ensures
        r@ == "--- /dev/null\n+++ "@ + file_path@ + "\n"@ + live_yaml@,
{
    let mut out = String::new();
    out.append("--- /dev/null\n+++ ");
    out.append(file_path);
    out.append("\n");
    out.append(live_yaml);
    proof {
        assert(out@ =~= "--- /dev/null\n+++ "@ + file_path@ + "\n"@ + live_yaml@);
    }
    out
}

/// The repository path of a resource's manifest:
/// `<namespace>/<kind lowercased>/<name>.yaml`.
pub fn manifest_rel_path(namespace: &str, kind: &str, name: &str) -> (r: String)
    ensures
        r@ == namespace@ + "/"@ + lower_of(kind@) + "/"@ + name@ + ".yaml"@,
{
    let mut out = String::new();
    out.append(namespace);
    out.append("/");
    let kind_lower = lowercase(kind);
    out.append(kind_lower.as_str());
    out.append("/");
    out.append(name);
    out.append(".yaml");
    proof {
        assert(out@ =~= namespace@ + "/"@ + lower_of(kind@) + "/"@ + name@ + ".yaml"@);
    }
    out
}

// --- Reconciliation texts -----------------------------------------------------
/// Names a fresh reconciliation branch after the current UTC time; an
/// unusable clock still yields a well-formed name. The timestamp comes
/// from the clock, so only the `reconciliation/` prefix is promised.
pub fn new_reconciliation_branch() -> (r: String)
    ensures
        r@.len() >= 15,
        r@.subrange(0, 15) == "reconciliation/"@,
{
    proof {
        reveal_strlit("reconciliation/");
    }
    let timestamp = match utc_timestamp_compact() {
        Ok(t) => t,
        Err(_) => String::from_str("at-unknown-time"),
    };
    let branch = reconciliation_branch_name(timestamp.as_str());
    proof {
        assert(branch@.subrange(0, 15) =~= "reconciliation/"@);
    }
    branch
}

/// The reconciliation branch for a given timestamp:
/// `reconciliation/<timestamp>`.
pub fn reconciliation_branch_name(timestamp: &str) -> (r: String)
    ensures
        r@ == "reconciliation/"@ + timestamp@,
{
    let mut out = String::new();
    out.append("reconciliation/");
    out.append(timestamp);
    proof {
        assert(out@ =~= "reconciliation/"@ + timestamp@);
    }
    out
}

/// The pull request's title for a given number of drifted resources.
pub fn reconciliation_pr_title(drift_count: usize) -> (r: String)
    ensures
        r@ == "Automated Reconciliation: Fix "@ + spec_decimal(drift_count as nat)
            + " Drifted Resources"@,
{
    let mut out = String::new();
    out.append("Automated Reconciliation: Fix ");
    push_decimal(drift_count, &mut out);
    out.append(" Drifted Resources");
    proof {
        assert(out@ =~= "Automated Reconciliation: Fix "@ + spec_decimal(drift_count as nat)
            + " Drifted Resources"@);
    }
    out
}

/// The commit message of a reconciliation commit.
pub fn reconciliation_commit_message(drift_count: usize) -> (r: String)
    ensures
        r@ == "Automated Reconciliation: Fix "@ + spec_decimal(drift_count as nat)
            + " drifted resources\n\nThis commit was generated automatically to bring the cluster state back in sync with the Git source of truth."@,
{
    let mut out = String::new();
    out.append("Automated Reconciliation: Fix ");
    push_decimal(drift_count, &mut out);
    out.append(
        " drifted resources\n\nThis commit was generated automatically to bring the cluster state back in sync with the Git source of truth.",
    );
    proof {
        assert(out@ =~= "Automated Reconciliation: Fix "@ + spec_decimal(drift_count as nat)
            + " drifted resources\n\nThis commit was generated automatically to bring the cluster state back in sync with the Git source of truth."@);
    }
    out
}

// --- The pull request body ------------------------------------------------------
/// The section of the pull-request body describing one drifted resource.
pub open spec fn spec_drift_section(d: DriftDetail) -> Seq<char> {
    "### `"@ + d.kind@ + "` `"@ + d.namespace@ + "/"@ + d.name@ + "`\n"@ + "```diff\n"@ + d.patch@
        + "\n```\n\n"@
}

/// The sections of the drifts from position `i` on, in order.
pub open spec fn spec_drift_sections_from(drifts: Seq<DriftDetail>, i: int) -> Seq<char>
    decreases drifts.len() - i,
    when 0 <= i <= drifts.len()
{
    if i >= drifts.len() {
        Seq::empty()
    } else {
        spec_drift_section(drifts[i]) + spec_drift_sections_from(drifts, i + 1)
    }
}

/// The full body of a reconciliation pull request: the fixed preamble
/// followed by one section per drifted resource.
pub open spec fn spec_pr_body(drifts: Seq<DriftDetail>) -> Seq<char> {
    "## Automated Configuration Drift Reconciliation\n\n"@
        + "This pull request was automatically generated by the sync workflow to correct configuration drift detected between the live Kubernetes cluster and this repository.\n\n"@
        + "The following resources were found to be out of sync and have been updated to match the live cluster state:\n\n"@
        + spec_drift_sections_from(drifts, 0)
}

/// Appends the sections of the drifts from `i` on.
fn append_drift_sections(drifts: &Vec<DriftDetail>, i: usize, out: &mut String)
    requires
        i <= drifts@.len(),
    ensures
        final(out)@ == old(out)@ + spec_drift_sections_from(drifts@, i as int),
    decreases drifts@.len() - i,
{
    if i >= drifts.len() {
        proof {
            assert(out@ =~= old(out)@ + spec_drift_sections_from(drifts@, i as int));
        }
        return ;
    }
    out.append("### `");
    out.append(drifts[i].kind.as_str());
    out.append("` `");
    out.append(drifts[i].namespace.as_str());
    out.append("/");
    out.append(drifts[i].name.as_str());
    out.append("`\n");
    out.append("```diff\n");
    out.append(drifts[i].patch.as_str());
    out.append("\n```\n\n");
    proof {
        assert(out@ =~= old(out)@ + spec_drift_section(drifts@[i as int]));
    }
    append_drift_sections(drifts, i + 1, out);
    proof {
        assert(out@ =~= old(out)@ + spec_drift_sections_from(drifts@, i as int));
    }
}

/// Renders the body of the reconciliation pull request.
pub fn generate_pr_body(drifts: &Vec<DriftDetail>) -> (r: String)
    ensures
        r@ == spec_pr_body(drifts@),
{
    let mut out = String::new();
    out.append("## Automated Configuration Drift Reconciliation\n\n");
    out.append(
        "This pull request was automatically generated by the sync workflow to correct configuration drift detected between the live Kubernetes cluster and this repository.\n\n",
    );
    out.append(
        "The following resources were found to be out of sync and have been updated to match the live cluster state:\n\n",
    );
    append_drift_sections(drifts, 0, &mut out);
    proof {
        assert(out@ =~= spec_pr_body(drifts@));
    }
    out
}

} // verus!
