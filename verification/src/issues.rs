//! The issue tracker client: the canonical issue model, argument
//! validation, and the request URL. The HTTP work is the host's.

use vstd::prelude::*;
use vstd::string::StringExecFns;

verus! {

/// The module's status codes toward its host.
pub enum GitphStatus {
    Success,
    ErrorInvalidArgs,
    ErrorInitFailed,
    ErrorExecFailed,
}

/// The log levels of the host's logging callback.
pub enum GitphLogLevel {
    Debug,
    Info,
    Warn,
    Error,
    Fatal,
}

/// The canonical representation of an issue, independent of its source.
pub struct Issue {
    pub id: u64,
    pub title: String,
    pub author: String,
    pub state: String,
    pub url: String,
}

/// The capability interface of an issue-tracker backend. The host
/// implements it over its network client; nothing is assumed of an
/// implementation beyond its signature.
pub trait IssueTrackerService {
    /// Fetches the details of one issue by its id.
    fn get_issue_details(&self, repo: &str, issue_id: &str) -> (r: Result<Issue, String>);
}

/// Validates the issue-query arguments: exactly a repository and an issue
/// id are expected.
pub fn validate_issue_args(args: &[String]) -> (r: Result<(), String>)
    ensures
        r is Ok <==> args@.len() == 2,
        r matches Err(m) ==> m@ == "Usage: issue-get <user/repo> <issue_id>"@,
{
    if args.len() != 2 {
        return Err(String::from_str("Usage: issue-get <user/repo> <issue_id>"));
    }
    Ok(())
}

/// The API endpoint queried for one issue.
pub fn issue_api_url(repo: &str, issue_id: &str) -> (r: String)
    ensures
        r@ == "https://api.github.com/repos/"@ + repo@ + "/issues/"@ + issue_id@,
{
    let mut url = String::new();
    url.append("https://api.github.com/repos/");
    url.append(repo);
    url.append("/issues/");
    url.append(issue_id);
    proof {
        assert(url@ =~= "https://api.github.com/repos/"@ + repo@ + "/issues/"@ + issue_id@);
    }
    url
}

} // verus!
