use bevyhub_api::ids::{CrateId, CratesIoCrateId, GithubCrateId, SceneId};
use bevyhub_api::storage::unpkg_path;
use bevyhub_api::version::SemVer;

fn template_version() -> SemVer {
    SemVer {
        major: 0,
        minor: 0,
        patch: 1,
        pre: "rc.1".to_string(),
        build: String::new(),
    }
}

#[test]
fn relative_to_manifest_dir() {
    assert_eq!(
        GithubCrateId::relative_to_manifest_dir("crates/bevyhub_api/Cargo.toml", "Cargo.lock")
            .as_str(),
        "crates/bevyhub_api/Cargo.lock"
    );
    assert_eq!(
        GithubCrateId::relative_to_manifest_dir("Cargo.toml", "scenes/my-scene.json").as_str(),
        "scenes/my-scene.json"
    );
}

#[test]
fn crates_io_path_embeds_origin_and_version() {
    let id = CrateId::new_crates_io("bevyhub_template", template_version());
    assert_eq!(id.path(), "crates_io/bevyhub_template/0.0.1-rc.1");
    assert_eq!(id.into_doc_id().0, "crates_io/bevyhub_template/0.0.1-rc.1");
}

#[test]
fn github_path_embeds_every_field() {
    let id = CrateId::new_github("mrchantey", "bevyhub", "61eb2f523bfbfb41778e67770f1d115988622b80", None);
    assert_eq!(
        id.path(),
        "github/mrchantey/bevyhub/61eb2f523bfbfb41778e67770f1d115988622b80/Cargo.toml"
    );
    let sub = CrateId::new_github("mrchantey", "bevyhub", "abc", Some("crates/foo/Cargo.toml"));
    assert_eq!(sub.path(), "github/mrchantey/bevyhub/abc/crates/foo/Cargo.toml");
}

#[test]
fn paths_never_collide_across_origins() {
    let a = CrateId::new_crates_io("x", SemVer::new(1, 0, 0)).path();
    let b = CrateId::new_github("x", "1", "0", Some("y")).path();
    assert_ne!(a, b);
    assert!(a.starts_with("crates_io/"));
    assert!(b.starts_with("github/"));
}

#[test]
fn scene_id_path_appends_scene_name() {
    let scene = SceneId::new_crates_io("bevyhub_template", template_version(), "my-beautiful-scene");
    assert_eq!(
        scene.path(),
        "crates_io/bevyhub_template/0.0.1-rc.1/my-beautiful-scene"
    );
    assert_eq!(scene.scene_name(), "my-beautiful-scene");
    let my_beautiful = SceneId::my_beautiful_scene();
    assert_eq!(my_beautiful.path(), scene.path());
    assert_eq!(my_beautiful, scene);
}

#[test]
fn scene_id_from_parts_matches_new() {
    let a = SceneId::from_parts(
        "bevyhub_template".to_string(),
        "my-beautiful-scene".to_string(),
        template_version(),
    );
    let b = CrateId::bevyhub_template().into_scene_id("my-beautiful-scene");
    assert_eq!(a, b);
    assert_eq!(a.crate_id(), &CrateId::bevyhub_template());
}

#[test]
fn slash_formatted_and_unpkg_path() {
    let id = CratesIoCrateId::bevyhub_template();
    assert_eq!(id.slash_formatted(), "bevyhub_template/0.0.1-rc.1");
    assert_eq!(
        unpkg_path(&id, "Cargo.toml"),
        "unpkg/bevyhub_template/0.0.1-rc.1/Cargo.toml"
    );
}

#[test]
fn repo_url_names_owner_and_repo() {
    let id = GithubCrateId {
        owner: "mrchantey".to_string(),
        repo: "bevyhub".to_string(),
        commit_hash: "abc".to_string(),
        manifest_dir: "Cargo.toml".to_string(),
    };
    assert_eq!(id.into_repo_url(), "https://github.com/mrchantey/bevyhub");
}

#[test]
fn template_ids_agree_with_parsed_version() {
    let parsed = SemVer::parse("0.0.1-rc.1").unwrap();
    let built = template_version();
    assert_eq!(parsed, built);
    assert_eq!(
        CrateId::bevyhub_template(),
        CrateId::new_crates_io("bevyhub_template", parsed)
    );
    let bad = CrateId::bevyhub_template_bad_version();
    assert_eq!(bad.path(), "crates_io/bevyhub_template/0.0.0");
}
