//! The object-database accessor: read access to a local repository's refs,
//! commits and ancestry queries, and the remote fetcher.
//!
//! Every call into the Git library stands behind a trusted item here. The
//! results of these calls depend on the repository state on disk, so the
//! contracts state only what holds of every outcome — the shape of the hex
//! ids handed back — and the verified callers take the results as arguments
//! and do the rest.

use vstd::prelude::*;
use vstd::string::StringExecFns;

use crate::commit_id::is_hex_id;

verus! {

#[verifier::external_type_specification]
#[verifier::external_body]
pub struct ExRepository(git2::Repository);

/// Relies on git2::Repository::open: opens an existing repository at the
/// given path; any failure is reported through the library's error message.
#[verifier::external_body]
pub(crate) fn repo_open(path: &str) -> (r: Result<git2::Repository, String>)
{
    match git2::Repository::open(path) {
        Ok(repo) => Ok(repo),
        Err(e) => Err(e.message().to_string()),
    }
}

#[verifier::external_type_specification]
#[verifier::external_body]
pub struct ExOid(git2::Oid);

/// Relies on git2::Oid::from_str: parses a hex-formatted object id. Only
/// empty, overlong (over forty digits) and non-hex input is rejected; the
/// underlying library also accepts shorter ids (zero-padded) and uppercase
/// digits, though every caller here passes a forty-digit lowercase id.
#[verifier::external_body]
pub(crate) fn oid_from_hex(s: &str) -> (r: Result<git2::Oid, String>)
{
    match git2::Oid::from_str(s) {
        Ok(oid) => Ok(oid),
        Err(e) => Err(e.message().to_string()),
    }
}

/// Relies on the hex display of git2::Oid: renders an id as forty lowercase
/// hex digits (ids are always SHA-1 here).
#[verifier::external_body]
pub(crate) fn oid_to_hex(oid: git2::Oid) -> (r: String)
    ensures
        is_hex_id(r@),
{
    oid.to_string()
}

/// Relies on git2::Repository::refname_to_id: resolves a fully qualified
/// reference name to the id it points at.
#[verifier::external_body]
pub(crate) fn refname_to_id(repo: &git2::Repository, refname: &str) -> (r: Result<
    git2::Oid,
    String,
>)
{
    match repo.refname_to_id(refname) {
        Ok(oid) => Ok(oid),
        Err(e) => Err(e.message().to_string()),
    }
}

/// Resolves a local branch to its head commit, rendered in hex.
pub(crate) fn branch_head_hex(repo: &git2::Repository, branch: &str) -> (r: Result<String, String>)
    ensures
        r matches Ok(h) ==> is_hex_id(h@),
{
    let mut refname = String::new();
    refname.append("refs/heads/");
    refname.append(branch);
    match refname_to_id(repo, refname.as_str()) {
        Ok(oid) => Ok(oid_to_hex(oid)),
        Err(m) => Err(m),
    }
}

/// Relies on git2::Repository::merge_base: finds a best common ancestor of
/// the two commits. Fails when either id is not in the object database or
/// no common ancestor exists.
#[verifier::external_body]
pub(crate) fn merge_base_raw(repo: &git2::Repository, one: git2::Oid, two: git2::Oid) -> (r: Result<
    git2::Oid,
    String,
>)
{
    match repo.merge_base(one, two) {
        Ok(oid) => Ok(oid),
        Err(e) => Err(e.message().to_string()),
    }
}

/// Finds a best common ancestor of the two hex-named commits, in hex.
pub(crate) fn merge_base_hex(repo: &git2::Repository, one: &str, two: &str) -> (r: Result<
    String,
    String,
>)
    ensures
        r matches Ok(h) ==> is_hex_id(h@),
{
    let a = match oid_from_hex(one) {
        Ok(oid) => oid,
        Err(m) => {
            return Err(m);
        },
    };
    let b = match oid_from_hex(two) {
        Ok(oid) => oid,
        Err(m) => {
            return Err(m);
        },
    };
    match merge_base_raw(repo, a, b) {
        Ok(oid) => Ok(oid_to_hex(oid)),
        Err(m) => Err(m),
    }
}

/// Relies on git2::Repository::graph_ahead_behind: counts the commits
/// unique to `local` and to `upstream` respectively.
#[verifier::external_body]
pub(crate) fn graph_ahead_behind_raw(
    repo: &git2::Repository,
    local: git2::Oid,
    upstream: git2::Oid,
) -> (r: Result<(usize, usize), String>)
{
    match repo.graph_ahead_behind(local, upstream) {
        Ok(counts) => Ok(counts),
        Err(e) => Err(e.message().to_string()),
    }
}

/// Counts the commits unique to each of the two hex-named commits.
pub(crate) fn graph_ahead_behind(
    repo: &git2::Repository,
    local: &str,
    upstream: &str,
) -> (r: Result<(usize, usize), String>)
{
    let a = match oid_from_hex(local) {
        Ok(oid) => oid,
        Err(m) => {
            return Err(m);
        },
    };
    let b = match oid_from_hex(upstream) {
        Ok(oid) => oid,
        Err(m) => {
            return Err(m);
        },
    };
    graph_ahead_behind_raw(repo, a, b)
}

#[verifier::external_type_specification]
#[verifier::external_body]
pub struct ExRemote<'a>(git2::Remote<'a>);

/// Relies on git2::Repository::find_remote: looks up a configured remote by
/// its name.
#[verifier::external_body]
pub(crate) fn find_remote<'r>(repo: &'r git2::Repository, name: &str) -> (r: Result<
    git2::Remote<'r>,
    String,
>)
{
    match repo.find_remote(name) {
        Ok(remote) => Ok(remote),
        Err(e) => Err(e.message().to_string()),
    }
}

/// Relies on git2::Remote::fetch: downloads the named branch from the
/// remote, updating remote-tracking refs and never the working tree.
/// Network, authentication and lookup failures are all reported through the
/// error message.
#[verifier::external_body]
pub(crate) fn remote_fetch(remote: &mut git2::Remote<'_>, branch: &str) -> (r: Result<(), String>)
{
    match remote.fetch(&[branch], None, None) {
        Ok(()) => Ok(()),
        Err(e) => Err(e.message().to_string()),
    }
}

/// Relies on git2::Remote::fetch with an authentication callback built
/// from git2::Cred::userpass_plaintext: downloads the named branch from the
/// remote, presenting the given token as the credential.
#[verifier::external_body]
pub(crate) fn remote_fetch_with_token(
    remote: &mut git2::Remote<'_>,
    branch: &str,
    token: &str,
) -> (r: Result<(), String>)
{
    let token_owned = token.to_string();
    let mut callbacks = git2::RemoteCallbacks::new();
    callbacks.credentials(move |_url, _user, _allowed| {
        git2::Cred::userpass_plaintext(&token_owned, "")
    });
    let mut options = git2::FetchOptions::new();
    options.remote_callbacks(callbacks);
    match remote.fetch(&[branch], Some(&mut options), None) {
        Ok(()) => Ok(()),
        Err(e) => Err(e.message().to_string()),
    }
}

/// Fetches one branch from the named remote of the given repository,
/// presenting the credential token where one was configured.
pub(crate) fn fetch_branch(
    repo: &git2::Repository,
    remote_name: &str,
    branch: &str,
    auth_token: Option<&str>,
) -> (r: Result<(), String>)
{
    let mut remote = match find_remote(repo, remote_name) {
        Ok(remote) => remote,
        Err(m) => {
            return Err(m);
        },
    };
    match auth_token {
        Some(token) => remote_fetch_with_token(&mut remote, branch, token),
        None => remote_fetch(&mut remote, branch),
    }
}

} // verus!
