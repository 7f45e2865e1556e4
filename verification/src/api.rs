//! The repository API client: the provider-agnostic repository model, the
//! parsing of `user/repo` references, and the request URLs. The HTTP work
//! is the host's.

use vstd::prelude::*;
use vstd::string::StringExecFns;

use crate::text::split_once_char_at;

verus! {

/// The module's status codes toward its host.
pub enum Status {
    Success,
    ErrorInitFailed,
    ErrorInvalidArgs,
    ErrorExecFailed,
}

/// The log levels of the host's logging callback.
pub enum LogLevel {
    Debug,
    Info,
    Warn,
    Error,
    Fatal,
}

/// A provider-agnostic description of a repository.
pub struct RepoInfo {
    pub full_name: String,
    pub description: String,
    pub stars: i64,
    pub forks: i64,
    pub url: String,
    pub default_branch: String,
}

/// The capability interface of a repository API backend. The host
/// implements it over its network client; nothing is assumed of an
/// implementation beyond its signature.
pub trait ApiProvider {
    /// Fetches a repository's details from the backend.
    fn fetch_repo_info(&self, user: &str, repo: &str) -> (r: Result<RepoInfo, String>);
}

/// Splits a `user/repo` reference at its first slash. Exactly the
/// references with a nonempty user, a slash, and a nonempty repository
/// part are accepted.
pub fn parse_repo_spec(repo_path: &str) -> (r: Result<(String, String), String>)
    requires
        repo_path@.len() < usize::MAX - 1,
    ensures
        r matches Ok(p) ==> exists|i: int|
            {
                &&& 0 < i < repo_path@.len() - 1
                &&& #[trigger] repo_path@[i] == '/'
                &&& (forall|j: int| 0 <= j < i ==> repo_path@[j] != '/')
                &&& p.0@ == repo_path@.subrange(0, i)
                &&& p.1@ == repo_path@.subrange(i + 1, repo_path@.len() as int)
            },
        (forall|i: int| 0 <= i < repo_path@.len() ==> repo_path@[i] != '/') ==> r is Err,
{
    match split_once_char_at(repo_path, '/') {
        Some((i, user, repo)) => {
            if user.as_str().is_empty() || repo.as_str().is_empty() {
                return Err("Invalid format. Please use <user/repo>".to_owned());
            }
            proof {
                assert(user@.len() == i);
                assert(repo@.len() == repo_path@.len() - i - 1);
            }
            Ok((user, repo))
        },
        None => Err("Invalid format. Please use <user/repo>".to_owned()),
    }
}

/// The API endpoint queried for a repository's details.
pub fn github_repo_url(user: &str, repo: &str) -> (r: String)
    ensures
        r@ == "https://api.github.com/repos/"@ + user@ + "/"@ + repo@,
{
    let mut url = String::new();
    url.append("https://api.github.com/repos/");
    url.append(user);
    url.append("/");
    url.append(repo);
    proof {
        assert(url@ =~= "https://api.github.com/repos/"@ + user@ + "/"@ + repo@);
    }
    url
}

/// Maps a provider's raw repository answer to the generic model: a missing
/// description becomes the placeholder text, everything else carries over.
pub fn repo_info_from_parts(
    full_name: String,
    description: Option<String>,
    stars: i64,
    forks: i64,
    url: String,
    default_branch: String,
) -> (r: RepoInfo)
    ensures
        r.full_name@ == full_name@,
        description matches Some(d) ==> r.description@ == d@,
        description is None ==> r.description@ == "(No description provided)"@,
        r.stars == stars,
        r.forks == forks,
        r.url@ == url@,
        r.default_branch@ == default_branch@,
{
    let description = match description {
        Some(d) => d,
        None => String::from_str("(No description provided)"),
    };
    RepoInfo { full_name, description, stars, forks, url, default_branch }
}

} // verus!
