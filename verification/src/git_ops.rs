//! Workflow-aware Git commands: the exact command lines the module runs,
//! and the decisions taken around their results.
//!
//! The planning and classification here is verified; a thin host shell
//! spawns the planned invocations and feeds their outcomes back.

use vstd::prelude::*;
use vstd::string::StringExecFns;

verus! {

/// The module's status codes toward its host.
#[allow(non_camel_case_types)]
pub enum phStatus {
    Success,
    ErrorGeneral,
    ErrorInvalidArgs,
    ErrorNotFound,
    ErrorInitFailed,
    ErrorExecFailed,
}

/// The log levels of the host's logging callback.
#[allow(non_camel_case_types)]
pub enum phLogLevel {
    Debug,
    Info,
    Warn,
    Error,
    Fatal,
}

/// One fully planned `git` invocation: where to run it, its arguments, and
/// what to pipe to its standard input.
pub struct GitInvocation {
    /// The repository directory the command runs in, or the current one.
    pub repo_path: Option<String>,
    /// The arguments handed to `git`.
    pub args: Vec<String>,
    /// Data for the command's standard input, if any.
    pub stdin_data: Option<String>,
}

pub open spec fn opt_string_view(o: Option<String>) -> Option<Seq<char>> {
    match o {
        Some(s) => Some(s@),
        None => None,
    }
}

pub open spec fn opt_path_view(o: Option<&str>) -> Option<Seq<char>> {
    match o {
        Some(s) => Some(s@),
        None => None,
    }
}

/// An owned copy of an optional owned path.
pub fn clone_path(o: &Option<String>) -> (r: Option<String>)
    ensures
        opt_string_view(r) == opt_string_view(*o),
{
    match o {
        Some(s) => Some(s.clone()),
        None => None,
    }
}

fn copy_path(repo_path: Option<&str>) -> (r: Option<String>)
    ensures
        opt_string_view(r) == opt_path_view(repo_path),
{
    match repo_path {
        Some(p) => Some(p.to_owned()),
        None => None,
    }
}

/// Plans the status query in machine-readable form:
/// `git status --porcelain`.
pub fn git_status(repo_path: Option<&str>) -> (r: GitInvocation)
    ensures
        opt_string_view(r.repo_path) == opt_path_view(repo_path),
        r.args@.len() == 2,
        r.args@[0]@ == "status"@,
        r.args@[1]@ == "--porcelain"@,
        r.stdin_data is None,
{
    let mut args: Vec<String> = Vec::new();
    args.push(String::from_str("status"));
    args.push(String::from_str("--porcelain"));
    GitInvocation { repo_path: copy_path(repo_path), args, stdin_data: None }
}

/// Plans staging of the given pathspec: `git add <pathspec>`.
pub fn git_add(repo_path: Option<&str>, pathspec: &str) -> (r: GitInvocation)
    ensures
        opt_string_view(r.repo_path) == opt_path_view(repo_path),
        r.args@.len() == 2,
        r.args@[0]@ == "add"@,
        r.args@[1]@ == pathspec@,
        r.stdin_data is None,
{
    let mut args: Vec<String> = Vec::new();
    args.push(String::from_str("add"));
    args.push(pathspec.to_owned());
    GitInvocation { repo_path: copy_path(repo_path), args, stdin_data: None }
}

/// Plans a commit with the given message: `git commit -m <message>`.
pub fn git_commit(repo_path: Option<&str>, message: &str) -> (r: GitInvocation)
    ensures
        opt_string_view(r.repo_path) == opt_path_view(repo_path),
        r.args@.len() == 3,
        r.args@[0]@ == "commit"@,
        r.args@[1]@ == "-m"@,
        r.args@[2]@ == message@,
        r.stdin_data is None,
{
    let mut args: Vec<String> = Vec::new();
    args.push(String::from_str("commit"));
    args.push(String::from_str("-m"));
    args.push(message.to_owned());
    GitInvocation { repo_path: copy_path(repo_path), args, stdin_data: None }
}

/// Plans a push to the given remote and branch: `git push <remote> <branch>`.
pub fn git_push(repo_path: Option<&str>, remote: &str, branch: &str) -> (r: GitInvocation)
    ensures
        opt_string_view(r.repo_path) == opt_path_view(repo_path),
        r.args@.len() == 3,
        r.args@[0]@ == "push"@,
        r.args@[1]@ == remote@,
        r.args@[2]@ == branch@,
        r.stdin_data is None,
{
    let mut args: Vec<String> = Vec::new();
    args.push(String::from_str("push"));
    args.push(remote.to_owned());
    args.push(branch.to_owned());
    GitInvocation { repo_path: copy_path(repo_path), args, stdin_data: None }
}

/// Plans the query for the current branch's configured upstream
/// (for example `origin/main`): `git rev-parse --abbrev-ref @{u}`.
pub fn git_get_upstream_branch(repo_path: Option<&str>) -> (r: GitInvocation)
    ensures
        opt_string_view(r.repo_path) == opt_path_view(repo_path),
        r.args@.len() == 3,
        r.args@[0]@ == "rev-parse"@,
        r.args@[1]@ == "--abbrev-ref"@,
        r.args@[2]@ == "@{u}"@,
        r.stdin_data is None,
{
    let mut args: Vec<String> = Vec::new();
    args.push(String::from_str("rev-parse"));
    args.push(String::from_str("--abbrev-ref"));
    args.push(String::from_str("@{u}"));
    GitInvocation { repo_path: copy_path(repo_path), args, stdin_data: None }
}

/// Structured failures of the command logic.
#[derive(Debug)]
pub enum CommandError {
    /// A generic failure of the underlying git command.
    GitError(String),
    /// Sending was requested, but the working tree was clean.
    NoChanges,
    /// The current branch has no configured upstream remote and branch.
    NoUpstreamConfigured,
    /// No commit message was provided.
    MissingCommitMessage,
    /// The user declined the confirmation prompt.
    OperationAborted,
}

impl PartialEq for CommandError {
    fn eq(&self, other: &Self) -> (r: bool) {
        match (self, other) {
            (CommandError::GitError(a), CommandError::GitError(b)) => a.eq(b),
            (CommandError::NoChanges, CommandError::NoChanges) => true,
            (CommandError::NoUpstreamConfigured, CommandError::NoUpstreamConfigured) => true,
            (CommandError::MissingCommitMessage, CommandError::MissingCommitMessage) => true,
            (CommandError::OperationAborted, CommandError::OperationAborted) => true,
            _ => false,
        }
    }
}

impl vstd::std_specs::cmp::PartialEqSpecImpl for CommandError {
    open spec fn obeys_eq_spec() -> bool {
        true
    }

    open spec fn eq_spec(&self, other: &Self) -> bool {
        match (self, other) {
            (CommandError::GitError(a), CommandError::GitError(b)) => a@ == b@,
            (CommandError::NoChanges, CommandError::NoChanges) => true,
            (CommandError::NoUpstreamConfigured, CommandError::NoUpstreamConfigured) => true,
            (CommandError::MissingCommitMessage, CommandError::MissingCommitMessage) => true,
            (CommandError::OperationAborted, CommandError::OperationAborted) => true,
            _ => false,
        }
    }
}

impl From<String> for CommandError {
    /// A raw git failure message becomes a `GitError`.
    fn from(err: String) -> (r: Self) {
        CommandError::GitError(err)
    }
}

impl vstd::std_specs::convert::FromSpecImpl<String> for CommandError {
    open spec fn obeys_from_spec() -> bool {
        true
    }

    open spec fn from_spec(err: String) -> Self {
        CommandError::GitError(err)
    }
}

/// The host's status code for each command result, as the module reports it.
pub fn status_of_result(result: &Result<String, CommandError>) -> (r: phStatus)
    ensures
        result is Ok ==> r is Success,
        result matches Err(e) ==> match e {
            CommandError::GitError(_) => r is ErrorExecFailed,
            CommandError::MissingCommitMessage => r is ErrorInvalidArgs,
            CommandError::NoUpstreamConfigured => r is ErrorExecFailed,
            // A clean tree and a user abort are successful no-op states.
            CommandError::NoChanges => r is Success,
            CommandError::OperationAborted => r is Success,
        },
{
    match result {
        Ok(_) => phStatus::Success,
        Err(CommandError::GitError(_)) => phStatus::ErrorExecFailed,
        Err(CommandError::MissingCommitMessage) => phStatus::ErrorInvalidArgs,
        Err(CommandError::NoUpstreamConfigured) => phStatus::ErrorExecFailed,
        Err(CommandError::NoChanges) => phStatus::Success,
        Err(CommandError::OperationAborted) => phStatus::Success,
    }
}

/// Interprets the outcome of the planned status query: a clean tree, the
/// listing of pending changes, or the underlying git failure.
pub fn handle_status(status_output: Result<String, String>) -> (r: Result<String, CommandError>)
    ensures
        status_output matches Ok(out) ==> (r matches Ok(m) && (if out@.len() == 0 {
            m@ == "Working tree clean. Nothing to commit."@
        } else {
            m@ == "Changes to be committed or untracked files:\n"@ + out@
        })),
        status_output matches Err(e) ==> r == Err::<String, CommandError>(
            CommandError::GitError(e),
        ),
{
    match status_output {
        Ok(out) => {
            if out.as_str().is_empty() {
                let mut m = String::new();
                m.append("Working tree clean. Nothing to commit.");
                Ok(m)
            } else {
                let mut m = String::new();
                m.append("Changes to be committed or untracked files:\n");
                m.append(out.as_str());
                Ok(m)
            }
        },
        Err(e) => Err(CommandError::GitError(e)),
    }
}

} // verus!
