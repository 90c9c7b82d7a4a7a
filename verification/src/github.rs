//! The git-origin side of the pipeline: how a ref parameter resolves to a
//! commit, the endpoints files and metadata are fetched from, and how the
//! answers are read. The network calls themselves live outside the
//! library; everything here is a function of the strings involved.

use vstd::prelude::*;
use crate::errors::ApiError;
use crate::ids::{relative_to_manifest_dir_chars, GithubCrateId};
use crate::strutil::{str_eq, string_push};

verus! {

/// What must be done to turn a ref parameter into a commit hash.
#[derive(PartialEq, Eq, Structural, Clone, Copy, Debug)]
pub enum RefAction {
    /// Resolve the default branch, then that branch's head commit.
    ResolveDefaultBranchHead,
    /// Treat the parameter as a branch or tag name and resolve its head.
    ResolveBranchHead,
    /// The parameter already is a commit hash; use it verbatim.
    UseVerbatim,
}

/// The resolution rule: the sentinel `latest` asks for the default
/// branch's head; a string of exactly forty characters is taken to be a
/// commit hash already; anything else is a branch or tag name. The length
/// heuristic is a documented approximation: a forty-character branch name
/// is misclassified.
pub open spec fn classify_ref_chars(r: Seq<char>) -> RefAction {
    if r == "latest"@ {
        RefAction::ResolveDefaultBranchHead
    } else if r.len() != 40 {
        RefAction::ResolveBranchHead
    } else {
        RefAction::UseVerbatim
    }
}

/// The effective ref of a parameter under the rule that only the sentinel
/// `latest` is rewritten, to the default branch's head commit; any other
/// parameter passes through unchanged.
pub open spec fn resolve_ref_param_chars(r: Seq<char>, default_branch_head: Seq<char>) -> Seq<
    char,
> {
    if r == "latest"@ {
        default_branch_head
    } else {
        r
    }
}

/// The commit hash a ref parameter resolves to, given the resolved head of
/// the default branch and the resolved head of the branch named by the
/// parameter, for the cases that need them.
pub open spec fn resolve_ref_to_hash_chars(
    r: Seq<char>,
    default_branch_head: Seq<char>,
    branch_head: Seq<char>,
) -> Seq<char> {
    match classify_ref_chars(r) {
        RefAction::ResolveDefaultBranchHead => default_branch_head,
        RefAction::ResolveBranchHead => branch_head,
        RefAction::UseVerbatim => r,
    }
}

/// The git hosting service, addressed through its REST and raw-content
/// endpoints.
pub struct GithubApi;

impl GithubApi {
    /// Which upstream lookups a ref parameter needs before it can name a
    /// commit.
    pub fn classify_ref(gh_ref_param: &str) -> (r: RefAction)
        ensures
            r == classify_ref_chars(gh_ref_param@),
    {
        if str_eq(gh_ref_param, "latest") {
            RefAction::ResolveDefaultBranchHead
        } else if gh_ref_param.unicode_len() != 40 {
            RefAction::ResolveBranchHead
        } else {
            RefAction::UseVerbatim
        }
    }

    /// If the ref is "latest" then take the resolved head commit of the
    /// default branch; otherwise return the parameter as-is.
    pub fn resolve_gh_ref_param(gh_ref_param: &str, default_branch_head: &str) -> (r: String)
        ensures
            r@ == resolve_ref_param_chars(gh_ref_param@, default_branch_head@),
    {
        if str_eq(gh_ref_param, "latest") {
            default_branch_head.to_owned()
        } else {
            gh_ref_param.to_owned()
        }
    }

    /// The commit hash of a ref parameter: "latest" resolves through the
    /// default branch, a non-forty-character string through the branch of
    /// that name, and a forty-character string stands as it is.
    pub fn resolve_gh_ref_param_to_hash(
        gh_ref_param: &str,
        default_branch_head: &str,
        branch_head: &str,
    ) -> (r: String)
        ensures
            r@ == resolve_ref_to_hash_chars(gh_ref_param@, default_branch_head@, branch_head@),
    {
        match Self::classify_ref(gh_ref_param) {
            RefAction::ResolveDefaultBranchHead => default_branch_head.to_owned(),
            RefAction::ResolveBranchHead => branch_head.to_owned(),
            RefAction::UseVerbatim => gh_ref_param.to_owned(),
        }
    }

    /// The content-delivery address of one file at one ref:
    /// `https://raw.githubusercontent.com/<owner>/<repo>/<ref>/<path>`.
    pub fn file_url(owner: &str, repo: &str, gh_ref: &str, file_path: &str) -> (r: String)
        ensures
            r@ == "https://raw.githubusercontent.com/"@ + owner@ + seq!['/'] + repo@ + seq!['/']
                + gh_ref@ + seq!['/'] + file_path@,
    {
        let mut r = String::from_str("https://raw.githubusercontent.com/");
        r.append(owner);
        string_push(&mut r, '/');
        r.append(repo);
        string_push(&mut r, '/');
        r.append(gh_ref);
        string_push(&mut r, '/');
        r.append(file_path);
        r
    }

    /// The REST address answering a branch's head commit.
    pub fn branch_url(owner: &str, repo: &str, branch: &str) -> (r: String)
        ensures
            r@ == "https://api.github.com/repos/"@ + owner@ + seq!['/'] + repo@ + "/branches/"@
                + branch@,
    {
        let mut r = String::from_str("https://api.github.com/repos/");
        r.append(owner);
        string_push(&mut r, '/');
        r.append(repo);
        r.append("/branches/");
        r.append(branch);
        r
    }

    /// The REST address answering a repository's metadata, its default
    /// branch among it.
    pub fn repo_url(owner: &str, repo: &str) -> (r: String)
        ensures
            r@ == "https://api.github.com/repos/"@ + owner@ + seq!['/'] + repo@,
    {
        let mut r = String::from_str("https://api.github.com/repos/");
        r.append(owner);
        string_push(&mut r, '/');
        r.append(repo);
        r
    }
}

/// The head commit hash inside a branch-metadata answer, where the body is
/// a JSON object carrying a string at `commit.sha`.
pub uninterp spec fn branch_sha_of(body: Seq<char>) -> Option<Seq<char>>;

/// Relies on `serde_json::from_str` and `serde_json::Value::{get,
/// as_str}`: reads the string member `commit.sha` of a branch-metadata
/// answer.
#[verifier::external_body]
pub fn parse_branch_sha(body: &str) -> (r: Option<String>)
    ensures
        r matches Some(s) ==> branch_sha_of(body@) == Some(s@),
        r is None ==> branch_sha_of(body@) is None,
{
    let v: serde_json::Value = serde_json::from_str(body).ok()?;
    Some(v.get("commit")?.get("sha")?.as_str()?.to_owned())
}

/// The default branch name inside a repository-metadata answer, where the
/// body is a JSON object carrying a string at `default_branch`.
pub uninterp spec fn default_branch_of(body: Seq<char>) -> Option<Seq<char>>;

/// Relies on `serde_json::from_str` and `serde_json::Value::{get,
/// as_str}`: reads the string member `default_branch` of a
/// repository-metadata answer.
#[verifier::external_body]
pub fn parse_default_branch(body: &str) -> (r: Option<String>)
    ensures
        r matches Some(s) ==> default_branch_of(body@) == Some(s@),
        r is None ==> default_branch_of(body@) is None,
{
    let v: serde_json::Value = serde_json::from_str(body).ok()?;
    Some(v.get("default_branch")?.as_str()?.to_owned())
}

/// The commit hash inside a commit-metadata answer, where the body is a
/// JSON object carrying a string at `sha`.
pub uninterp spec fn commit_sha_of(body: Seq<char>) -> Option<Seq<char>>;

/// Relies on `serde_json::from_str` and `serde_json::Value::{get,
/// as_str}`: reads the string member `sha` of a commit-metadata answer.
#[verifier::external_body]
pub fn parse_commit_sha(body: &str) -> (r: Option<String>)
    ensures
        r matches Some(s) ==> commit_sha_of(body@) == Some(s@),
        r is None ==> commit_sha_of(body@) is None,
{
    let v: serde_json::Value = serde_json::from_str(body).ok()?;
    Some(v.get("sha")?.as_str()?.to_owned())
}

/// The commit answer of the latest-commit route.
pub struct CommitInfo {
    pub sha: String,
}

/// Files of a git-hosted crate, located relative to its manifest.
pub struct GithubFiles;

impl GithubFiles {
    /// The repository path of the crate's manifest file.
    pub fn manifest_path(crate_id: &GithubCrateId) -> (r: String)
        ensures
            r@ == crate_id@.manifest_dir,
    {
        crate_id.manifest_dir.clone()
    }

    /// The repository path of the crate's lock file, a sibling of the
    /// manifest.
    pub fn lock_path(crate_id: &GithubCrateId) -> (r: String)
        ensures
            r@ == relative_to_manifest_dir_chars(crate_id@.manifest_dir, "Cargo.lock"@),
    {
        GithubCrateId::relative_to_manifest_dir(crate_id.manifest_dir.as_str(), "Cargo.lock")
    }
}

/// The authorization header of an origin request, built from the access
/// credential the process environment supplied. An absent credential is a
/// fatal configuration error for any call that needs one, never a soft
/// failure.
pub fn github_auth_header(token: Option<&str>) -> (r: Result<String, ApiError>)
    ensures
        token matches Some(t) ==> (r matches Ok(h) && h@ == "Bearer "@ + t@),
        token is None ==> (r matches Err(e) && e == ApiError::ConfigurationMissing),
{
    match token {
        Some(t) => {
            let mut h = String::from_str("Bearer ");
            h.append(t);
            Ok(h)
        },
        None => Err(ApiError::ConfigurationMissing),
    }
}

/// Responses addressed by the literal version token `latest` must not be
/// cached: the token denotes a moving target.
pub fn version_is_cacheable(version: &str) -> (r: bool)
    ensures
        r == (version@ != "latest"@),
{
    !str_eq(version, "latest")
}

/// For git origins only a full forty-character commit hash denotes
/// immutable content; `latest` and branch or tag names must not be cached.
pub fn gh_ref_is_cacheable(gh_ref: &str) -> (r: bool)
    ensures
        r == (gh_ref@ != "latest"@ && gh_ref@.len() == 40),
{
    if str_eq(gh_ref, "latest") {
        false
    } else {
        gh_ref.unicode_len() == 40
    }
}

} // verus!
