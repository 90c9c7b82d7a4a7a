use bevyhub_api::docs::SceneDoc;
use bevyhub_api::ids::{CrateId, SceneId};
use bevyhub_api::latest::{NewestUpstream, SetLatestScenesInDb};
use bevyhub_api::version::SemVer;

fn scene_for(crate_id: CrateId, scene_name: &str, is_latest: bool) -> SceneDoc {
    let scene_id = SceneId::new(crate_id, scene_name);
    SceneDoc {
        id: scene_id.into_doc_id(),
        crate_doc_id: scene_id.crate_id().into_doc_id(),
        scene_id,
        name: scene_name.to_string(),
        description: None,
        is_latest,
    }
}

fn registry_scene(name: &str, version: SemVer, scene: &str, is_latest: bool) -> SceneDoc {
    scene_for(CrateId::new_crates_io(name, version), scene, is_latest)
}

#[test]
fn set_latest_scenes_in_db_works() {
    // versions 1.0.0 (flagged latest) and 1.1.0 (not flagged) of one crate
    let mut scenes = vec![
        registry_scene("demo", SemVer::new(1, 0, 0), "a", true),
        registry_scene("demo", SemVer::new(1, 0, 0), "b", true),
        registry_scene("demo", SemVer::new(1, 1, 0), "a", false),
        registry_scene("other", SemVer::new(9, 9, 9), "x", true),
    ];
    // the registry now reports 1.1.0 as newest
    let newest = SemVer::new(1, 1, 0);
    SetLatestScenesInDb::set_latest_scenes_in_db_crates_io(&mut scenes, "demo", &newest);
    assert!(!scenes[0].is_latest);
    assert!(!scenes[1].is_latest);
    assert!(scenes[2].is_latest);
    // scenes of other crates are untouched
    assert!(scenes[3].is_latest);
    // running the recomputation again with no upstream change is a no-op
    let before: Vec<bool> = scenes.iter().map(|s| s.is_latest).collect();
    SetLatestScenesInDb::set_latest_scenes_in_db_crates_io(&mut scenes, "demo", &newest);
    let after: Vec<bool> = scenes.iter().map(|s| s.is_latest).collect();
    assert_eq!(before, after);
}

#[test]
fn github_recompute_flags_exactly_the_head_commit() {
    let old_commit = "0000000000000000000000000000000000000000";
    let new_commit = "1111111111111111111111111111111111111111";
    let mut scenes = vec![
        scene_for(CrateId::new_github("o", "r", old_commit, None), "a", true),
        scene_for(CrateId::new_github("o", "r", new_commit, None), "a", false),
        // a different manifest inside the same repository is another family
        scene_for(
            CrateId::new_github("o", "r", old_commit, Some("crates/x/Cargo.toml")),
            "a",
            true,
        ),
    ];
    SetLatestScenesInDb::set_latest_scenes_in_db_github(
        &mut scenes,
        "o",
        "r",
        "Cargo.toml",
        new_commit,
    );
    assert!(!scenes[0].is_latest);
    assert!(scenes[1].is_latest);
    assert!(scenes[2].is_latest);
}

#[test]
fn dispatch_matches_the_origin() {
    let mut scenes = vec![
        registry_scene("demo", SemVer::new(1, 0, 0), "a", false),
    ];
    let id = CrateId::new_crates_io("demo", SemVer::new(1, 0, 0));
    SetLatestScenesInDb::set_latest_scenes_in_db(
        &mut scenes,
        &id,
        &NewestUpstream::RegistryVersion(SemVer::new(1, 0, 0)),
    );
    assert!(scenes[0].is_latest);
}
