//! The send workflow: stage everything, commit, discover the upstream,
//! confirm, push — as a verified state machine.
//!
//! Each step hands the host an action (a planned `git` invocation, or a
//! confirmation prompt); the host performs it and feeds the outcome back.
//! All decisions — message assembly, error classification, upstream parsing,
//! the final report — are made here.

use vstd::prelude::*;
use vstd::string::StringExecFns;

use crate::git_ops::{
    git_add, git_commit, git_get_upstream_branch, git_push, opt_string_view, CommandError,
    GitInvocation,
};
use crate::text::{spec_contains, split_once_char_at, str_contains};

verus! {

/// Where the send workflow stands.
pub enum SendState {
    /// `git add .` is running.
    Staging,
    /// `git commit -m <message>` is running.
    Committing,
    /// `git rev-parse --abbrev-ref @{u}` is running.
    ResolvingUpstream,
    /// The user is being asked to confirm the push.
    AwaitingConfirmation { remote: String, branch: String },
    /// `git push <remote> <branch>` is running.
    Pushing { remote: String, branch: String },
    /// The workflow has ended.
    Finished,
}

/// What the host must do next.
pub enum SendAction {
    /// Run the planned git command and report its outcome.
    RunGit(GitInvocation),
    /// Ask the user whether to push to `remote`/`branch`.
    Confirm { remote: String, branch: String },
    /// The workflow is over with this result.
    Complete(Result<String, CommandError>),
}

/// One send workflow in progress.
pub struct SendSession {
    /// The repository the commands run in, or the current directory.
    pub repo_path: Option<String>,
    /// The commit message assembled from the command arguments.
    pub commit_message: String,
    /// Skips the interactive confirmation before the push.
    pub skip_confirmation: bool,
    /// The current step.
    pub state: SendState,
}

/// The space-joined text of the given parts, in order.
pub open spec fn spec_join_spaces(parts: Seq<Seq<char>>) -> Seq<char>
    decreases parts.len(),
{
    if parts.len() == 0 {
        Seq::empty()
    } else if parts.len() == 1 {
        parts[0]
    } else {
        parts[0] + " "@ + spec_join_spaces(parts.drop_first())
    }
}

/// The commit message of a send invocation: every argument after the command
/// word, joined by single spaces.
pub open spec fn spec_commit_message(args: Seq<String>) -> Seq<char> {
    spec_join_spaces(args.skip(1).map_values(|s: String| s@))
}

/// Appends the space-joined tail of `args` starting at `i`.
fn append_join(args: &[String], i: usize, out: &mut String)
    requires
        i < args@.len(),
    ensures
        final(out)@ == old(out)@ + spec_join_spaces(
            args@.skip(i as int).map_values(|s: String| s@),
        ),
    decreases args@.len() - i,
{
    let ghost parts = args@.skip(i as int).map_values(|s: String| s@);
    out.append(slice_ref(args, i).as_str());
    if i < args.len() - 1 {
        out.append(" ");
        append_join(args, i + 1, out);
        proof {
            assert(args@.skip(i as int).drop_first() =~= args@.skip(i + 1));
            assert(parts.drop_first() =~= args@.skip(i + 1).map_values(|s: String| s@));
            assert(out@ =~= old(out)@ + spec_join_spaces(parts));
        }
    } else {
        proof {
            assert(parts.len() == 1);
            assert(out@ =~= old(out)@ + spec_join_spaces(parts));
        }
    }
}

/// One element of a slice.
fn slice_ref<T>(s: &[T], i: usize) -> (r: &T)
    requires
        i < s@.len(),
    ensures
        *r == s@[i as int],
{
    &s[i]
}

/// Assembles the commit message from the argument list, or reports that none
/// was given: everything after the command word, space-joined.
pub fn commit_message_from_args(args: &[String]) -> (r: Result<String, CommandError>)
    ensures
        args@.len() <= 1 ==> r == Err::<String, CommandError>(CommandError::MissingCommitMessage),
        args@.len() > 1 ==> (r matches Ok(m) && m@ == spec_commit_message(args@)),
{
    if args.len() <= 1 {
        return Err(CommandError::MissingCommitMessage);
    }
    let mut out = String::new();
    append_join(args, 1, &mut out);
    proof {
        assert(out@ =~= spec_commit_message(args@));
    }
    Ok(out)
}

/// The commit outcome that means "the working tree was clean": git reports
/// it with one of two phrasings.
pub open spec fn spec_is_clean_tree_failure(e: Seq<char>) -> bool {
    spec_contains(e, "nothing to commit"@) || spec_contains(e, "no changes added to commit"@)
}

/// Begins a send workflow: validates the commit message, then stages all
/// changes (`git add .`) as the first action.
pub fn begin_send(repo_path: Option<&str>, args: &[String], skip_confirmation: bool) -> (r: Result<
    (SendSession, SendAction),
    CommandError,
>)
    ensures
        args@.len() <= 1 ==> r == Err::<(SendSession, SendAction), CommandError>(
            CommandError::MissingCommitMessage,
        ),
        args@.len() > 1 ==> r is Ok,
        r matches Ok((session, action)) ==> {
            &&& args@.len() > 1
            &&& session.state is Staging
            &&& session.skip_confirmation == skip_confirmation
            &&& session.commit_message@ == spec_commit_message(args@)
            &&& opt_string_view(session.repo_path) == crate::git_ops::opt_path_view(repo_path)
            &&& (action matches SendAction::RunGit(inv) && inv.args@.len() == 2 && inv.args@[0]@
                == "add"@ && inv.args@[1]@ == "."@)
        },
{
    let commit_message = match commit_message_from_args(args) {
        Ok(m) => m,
        Err(e) => {
            return Err(e);
        },
    };
    let invocation = git_add(repo_path, ".");
    let session = SendSession {
        repo_path: crate::git_ops::clone_path(&invocation.repo_path),
        commit_message,
        skip_confirmation,
        state: SendState::Staging,
    };
    Ok((session, SendAction::RunGit(invocation)))
}

/// Advances the workflow on the outcome of the last git command.
///
/// Staging failures and push failures surface as `GitError`; a commit
/// failure that only says the tree was clean becomes `NoChanges`; a missing
/// upstream becomes `NoUpstreamConfigured`; an unparsable upstream (no `/`)
/// is a `GitError`. A successful push completes with the report naming
/// `remote/branch`.
pub fn advance_send(session: &mut SendSession, result: Result<String, String>) -> (a: SendAction)
    requires
        old(session).state is Staging || old(session).state is Committing || old(
            session,
        ).state is ResolvingUpstream || old(session).state matches SendState::Pushing { .. },
        (match result {
            Ok(out) => out@.len(),
            Err(e) => e@.len(),
        }) < usize::MAX - 1,
    ensures
        final(session).repo_path == old(session).repo_path,
        final(session).commit_message == old(session).commit_message,
        final(session).skip_confirmation == old(session).skip_confirmation,
        a matches SendAction::Complete(_) <==> final(session).state is Finished,
        old(session).state is Staging ==> match result {
            Ok(_) => final(session).state is Committing && (a matches SendAction::RunGit(inv)
                && inv.args@.len() == 3 && inv.args@[0]@ == "commit"@ && inv.args@[1]@ == "-m"@
                && inv.args@[2]@ == old(session).commit_message@),
            Err(e) => a == SendAction::Complete(
                Err::<String, CommandError>(CommandError::GitError(e)),
            ),
        },
        old(session).state is Committing ==> match result {
            Ok(_) => final(session).state is ResolvingUpstream && (a matches SendAction::RunGit(
                inv,
            ) && inv.args@.len() == 3 && inv.args@[0]@ == "rev-parse"@),
            Err(e) => a == SendAction::Complete(
                Err::<String, CommandError>(
                    if spec_is_clean_tree_failure(e@) {
                        CommandError::NoChanges
                    } else {
                        CommandError::GitError(e)
                    },
                ),
            ),
        },
        old(session).state is ResolvingUpstream ==> match result {
            Ok(upstream) => {
                if (exists|i: int| 0 <= i < upstream@.len() && #[trigger] upstream@[i] == '/') {
                    // The push goes exactly where the upstream's first
                    // slash splits it: `remote/branch`.
                    exists|i: int|
                        {
                            &&& 0 <= i < upstream@.len()
                            &&& #[trigger] upstream@[i] == '/'
                            &&& (forall|j: int| 0 <= j < i ==> upstream@[j] != '/')
                            &&& {
                                let rem = upstream@.subrange(0, i);
                                let br = upstream@.subrange(i + 1, upstream@.len() as int);
                                if old(session).skip_confirmation {
                                    &&& (final(session).state matches SendState::Pushing {
                                        remote,
                                        branch,
                                    } && remote@ == rem && branch@ == br)
                                    &&& (a matches SendAction::RunGit(inv) && inv.args@.len() == 3
                                        && inv.args@[0]@ == "push"@ && inv.args@[1]@ == rem
                                        && inv.args@[2]@ == br)
                                } else {
                                    &&& (final(session).state
                                        matches SendState::AwaitingConfirmation { remote, branch }
                                        && remote@ == rem && branch@ == br)
                                    &&& (a matches SendAction::Confirm { remote, branch }
                                        && remote@ == rem && branch@ == br)
                                }
                            }
                        }
                } else {
                    final(session).state is Finished && (a matches SendAction::Complete(res)
                        && res matches Err(e) && e matches CommandError::GitError(m) && m@
                        == "Could not parse upstream: '"@ + upstream@ + "'"@)
                }
            },
            Err(_) => a == SendAction::Complete(
                Err::<String, CommandError>(CommandError::NoUpstreamConfigured),
            ),
        },
        old(session).state matches SendState::Pushing { remote, branch } ==> match result {
            Ok(_) => (a matches SendAction::Complete(res) && res matches Ok(m) && m@
                == spec_push_report(remote@, branch@)) && final(session).state is Finished,
            Err(e) => a == SendAction::Complete(
                Err::<String, CommandError>(CommandError::GitError(e)),
            ),
        },
{
    let mut state = SendState::Finished;
    core::mem::swap(&mut session.state, &mut state);
    match state {
        SendState::Staging => match result {
            Ok(_) => {
                let inv = git_commit(
                    option_as_deref(&session.repo_path),
                    session.commit_message.as_str(),
                );
                session.state = SendState::Committing;
                SendAction::RunGit(inv)
            },
            Err(e) => SendAction::Complete(Err(CommandError::GitError(e))),
        },
        SendState::Committing => match result {
            Ok(_) => {
                let inv = git_get_upstream_branch(option_as_deref(&session.repo_path));
                session.state = SendState::ResolvingUpstream;
                SendAction::RunGit(inv)
            },
            Err(e) => {
                if str_contains(e.as_str(), "nothing to commit") || str_contains(
                    e.as_str(),
                    "no changes added to commit",
                ) {
                    SendAction::Complete(Err(CommandError::NoChanges))
                } else {
                    SendAction::Complete(Err(CommandError::GitError(e)))
                }
            },
        },
        SendState::ResolvingUpstream => match result {
            Ok(upstream) => match split_once_char_at(upstream.as_str(), '/') {
                Some((slash, remote, branch)) => {
                    proof {
                        assert(upstream@[slash as int] == '/');
                        assert(remote@ == upstream@.subrange(0, slash as int));
                        assert(branch@ == upstream@.subrange(
                            slash + 1,
                            upstream@.len() as int,
                        ));
                    }
                    if session.skip_confirmation {
                        let inv = git_push(
                            option_as_deref(&session.repo_path),
                            remote.as_str(),
                            branch.as_str(),
                        );
                        session.state = SendState::Pushing { remote, branch };
                        SendAction::RunGit(inv)
                    } else {
                        session.state = SendState::AwaitingConfirmation {
                            remote: remote.clone(),
                            branch: branch.clone(),
                        };
                        SendAction::Confirm { remote, branch }
                    }
                },
                None => {
                    let mut m = String::new();
                    m.append("Could not parse upstream: '");
                    m.append(upstream.as_str());
                    m.append("'");
                    proof {
                        assert(m@ =~= "Could not parse upstream: '"@ + upstream@ + "'"@);
                    }
                    SendAction::Complete(Err(CommandError::GitError(m)))
                },
            },
            Err(_) => SendAction::Complete(Err(CommandError::NoUpstreamConfigured)),
        },
        SendState::Pushing { remote, branch } => match result {
            Ok(_) => {
                let mut m = String::new();
                m.append("Successfully sent changes to ");
                m.append(remote.as_str());
                m.append("/");
                m.append(branch.as_str());
                proof {
                    assert(m@ =~= spec_push_report(remote@, branch@));
                }
                SendAction::Complete(Ok(m))
            },
            Err(e) => SendAction::Complete(Err(CommandError::GitError(e))),
        },
        _ => SendAction::Complete(Err(CommandError::OperationAborted)),
    }
}

/// The report of a completed push.
pub open spec fn spec_push_report(remote: Seq<char>, branch: Seq<char>) -> Seq<char> {
    "Successfully sent changes to "@ + remote + "/"@ + branch
}

/// Resolves the confirmation prompt: an accepted prompt pushes, a declined
/// one aborts the workflow with `OperationAborted` and pushes nothing.
pub fn confirm_send(session: &mut SendSession, accepted: bool) -> (a: SendAction)
    requires
        old(session).state matches SendState::AwaitingConfirmation { .. },
    ensures
        final(session).repo_path == old(session).repo_path,
        old(session).state matches SendState::AwaitingConfirmation { remote, branch } ==> (
        accepted ==> (final(session).state matches SendState::Pushing { remote: r2, branch: b2 }
            && r2@ == remote@ && b2@ == branch@) && (a matches SendAction::RunGit(inv)
            && inv.args@.len() == 3 && inv.args@[0]@ == "push"@ && inv.args@[1]@ == remote@
            && inv.args@[2]@ == branch@)),
        !accepted ==> final(session).state is Finished && a == SendAction::Complete(
            Err::<String, CommandError>(CommandError::OperationAborted),
        ),
{
    let mut state = SendState::Finished;
    core::mem::swap(&mut session.state, &mut state);
    match state {
        SendState::AwaitingConfirmation { remote, branch } => {
            if accepted {
                let inv = git_push(
                    option_as_deref(&session.repo_path),
                    remote.as_str(),
                    branch.as_str(),
                );
                session.state = SendState::Pushing { remote, branch };
                SendAction::RunGit(inv)
            } else {
                SendAction::Complete(Err(CommandError::OperationAborted))
            }
        },
        _ => SendAction::Complete(Err(CommandError::OperationAborted)),
    }
}

/// A borrowed view of an optional owned path.
fn option_as_deref(o: &Option<String>) -> (r: Option<&str>)
    ensures
        crate::git_ops::opt_path_view(r) == opt_string_view(*o),
{
    match o {
        Some(s) => Some(s.as_str()),
        None => None,
    }
}

} // verus!
