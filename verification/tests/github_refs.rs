use bevyhub_api::errors::{upstream_status_check, ApiError};
use bevyhub_api::github::{
    gh_ref_is_cacheable, parse_branch_sha, parse_commit_sha, parse_default_branch,
    version_is_cacheable, GithubApi, GithubFiles, RefAction,
};
use bevyhub_api::ids::GithubCrateId;

const COMMIT_HASH: &str = "61eb2f523bfbfb41778e67770f1d115988622b80";

#[test]
fn classify_ref_follows_the_length_heuristic() {
    assert_eq!(GithubApi::classify_ref("latest"), RefAction::ResolveDefaultBranchHead);
    assert_eq!(GithubApi::classify_ref("main"), RefAction::ResolveBranchHead);
    assert_eq!(GithubApi::classify_ref(COMMIT_HASH), RefAction::UseVerbatim);
    // the documented approximation: a forty-character branch name counts as a hash
    assert_eq!(
        GithubApi::classify_ref("a-branch-name-of-exactly-forty-characters"),
        RefAction::ResolveBranchHead
    );
    assert_eq!("a-branch-name-of-exactly-forty-character".len(), 40);
    assert_eq!(
        GithubApi::classify_ref("a-branch-name-of-exactly-forty-character"),
        RefAction::UseVerbatim
    );
}

#[test]
fn resolve_gh_ref_param_rewrites_only_latest() {
    assert_eq!(
        GithubApi::resolve_gh_ref_param("latest", COMMIT_HASH),
        COMMIT_HASH
    );
    assert_eq!(GithubApi::resolve_gh_ref_param("main", COMMIT_HASH), "main");
    assert_eq!(
        GithubApi::resolve_gh_ref_param(COMMIT_HASH, "other"),
        COMMIT_HASH
    );
}

#[test]
fn resolve_gh_ref_param_to_hash_resolves_branches() {
    let default_head = COMMIT_HASH;
    let branch_head = "99eb2f523bfbfb41778e67770f1d115988622b99";
    assert_eq!(
        GithubApi::resolve_gh_ref_param_to_hash("latest", default_head, branch_head),
        default_head
    );
    assert_eq!(
        GithubApi::resolve_gh_ref_param_to_hash("main", default_head, branch_head),
        branch_head
    );
    assert_eq!(
        GithubApi::resolve_gh_ref_param_to_hash(COMMIT_HASH, default_head, branch_head),
        COMMIT_HASH
    );
}

#[test]
fn github_urls_are_templated_from_the_parts() {
    assert_eq!(
        GithubApi::file_url("mrchantey", "bevyhub", "main", "scenes/space-scene.json"),
        "https://raw.githubusercontent.com/mrchantey/bevyhub/main/scenes/space-scene.json"
    );
    assert_eq!(
        GithubApi::branch_url("mrchantey", "bevyhub", "main"),
        "https://api.github.com/repos/mrchantey/bevyhub/branches/main"
    );
    assert_eq!(
        GithubApi::repo_url("mrchantey", "bevyhub"),
        "https://api.github.com/repos/mrchantey/bevyhub"
    );
}

#[test]
fn github_metadata_answers_are_read_by_member() {
    let branch_body = "{\"name\":\"main\",\"commit\":{\"sha\":\"61eb2f523bfbfb41778e67770f1d115988622b80\"}}";
    assert_eq!(parse_branch_sha(branch_body).unwrap(), COMMIT_HASH);
    assert!(parse_branch_sha("{\"commit\":{}}").is_none());
    let repo_body = "{\"default_branch\":\"main\",\"fork\":false}";
    assert_eq!(parse_default_branch(repo_body).unwrap(), "main");
    assert!(parse_default_branch("not json").is_none());
    let commit_body = "{\"sha\":\"61eb2f523bfbfb41778e67770f1d115988622b80\"}";
    assert_eq!(parse_commit_sha(commit_body).unwrap(), COMMIT_HASH);
    assert!(parse_commit_sha("{}").is_none());
}

#[test]
fn lock_path_sits_beside_the_manifest() {
    let root = GithubCrateId {
        owner: "o".to_string(),
        repo: "r".to_string(),
        commit_hash: "c".to_string(),
        manifest_dir: "Cargo.toml".to_string(),
    };
    assert_eq!(GithubFiles::lock_path(&root), "Cargo.lock");
    assert_eq!(GithubFiles::manifest_path(&root), "Cargo.toml");
    let nested = GithubCrateId {
        manifest_dir: "crates/foo/Cargo.toml".to_string(),
        ..root
    };
    assert_eq!(GithubFiles::lock_path(&nested), "crates/foo/Cargo.lock");
}

#[test]
fn auth_header_needs_the_credential() {
    assert_eq!(
        bevyhub_api::github::github_auth_header(Some("SECRET-REDACTED")).unwrap(),
        "Bearer SECRET-REDACTED"
    );
    assert_eq!(
        bevyhub_api::github::github_auth_header(None).unwrap_err(),
        ApiError::ConfigurationMissing
    );
}

#[test]
fn upstream_statuses_map_to_distinct_failures() {
    assert!(upstream_status_check(200).is_ok());
    assert!(upstream_status_check(204).is_ok());
    assert_eq!(upstream_status_check(404).unwrap_err(), ApiError::NotFoundUpstream);
    assert_eq!(upstream_status_check(500).unwrap_err(), ApiError::UpstreamUnavailable);
    assert_eq!(upstream_status_check(301).unwrap_err(), ApiError::UpstreamUnavailable);
}

#[test]
fn moving_targets_are_not_cacheable() {
    assert!(!version_is_cacheable("latest"));
    assert!(version_is_cacheable("1.2.3"));
    assert!(!gh_ref_is_cacheable("latest"));
    assert!(!gh_ref_is_cacheable("main"));
    assert!(gh_ref_is_cacheable(COMMIT_HASH));
}
