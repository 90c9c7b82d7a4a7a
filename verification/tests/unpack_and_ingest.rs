use bevyhub_api::errors::ApiError;
use bevyhub_api::ids::{CrateId, CratesIoCrateId};
use bevyhub_api::latest::NewestUpstream;
use bevyhub_api::services::{ApiEnvironment, FetchedUpstream, Services};
use bevyhub_api::storage::ByteStore;
use bevyhub_api::unpack::CratesIoFiles;
use bevyhub_api::version::SemVer;
use std::io::Write;

const MANIFEST_TEXT: &str = "[package]\nname = \"bevyhub_template\"\nversion = \"0.0.1-rc.1\"\n\n[[package.metadata.scene]]\nname = \"my-beautiful-scene\"\ndescription = \"a scene\"\n";

fn make_archive(files: &[(&str, &[u8])]) -> Vec<u8> {
    let mut builder = tar::Builder::new(Vec::new());
    for (path, bytes) in files {
        let mut header = tar::Header::new_gnu();
        header.set_size(bytes.len() as u64);
        header.set_mode(0o644);
        header.set_cksum();
        builder.append_data(&mut header, path, *bytes).unwrap();
    }
    let tar_bytes = builder.into_inner().unwrap();
    let mut encoder = flate2::write::GzEncoder::new(Vec::new(), flate2::Compression::default());
    encoder.write_all(&tar_bytes).unwrap();
    encoder.finish().unwrap()
}

fn template_archive() -> Vec<u8> {
    make_archive(&[
        ("bevyhub_template-0.0.1-rc.1/Cargo.toml", MANIFEST_TEXT.as_bytes()),
        ("bevyhub_template-0.0.1-rc.1/Cargo.lock", b"# lock"),
        ("bevyhub_template-0.0.1-rc.1/scenes/one.json", b"{}"),
    ])
}

fn fetched_with_tarball() -> FetchedUpstream {
    FetchedUpstream {
        tarball: Some(template_archive()),
        manifest_bytes: None,
        lock_bytes: None,
        newest: NewestUpstream::RegistryVersion(SemVer::parse("0.0.1-rc.1").unwrap()),
    }
}

#[test]
fn manifest_read_after_unpack_parses_to_a_nonempty_name() {
    let mut services = Services::init();
    let id = CrateId::bevyhub_template();
    let pkg = services.cargo_manifest(&id, &fetched_with_tarball()).unwrap();
    assert!(!pkg.name.is_empty());
    assert_eq!(pkg.name, "bevyhub_template");
}

#[test]
fn unpack_strips_the_archive_root_directory() {
    let mut storage = ByteStore::new();
    let id = CratesIoCrateId::bevyhub_template();
    let archive = template_archive();
    let bytes =
        CratesIoFiles::get_crate_file(&mut storage, &id, "scenes/one.json", Some(&archive))
            .unwrap();
    assert_eq!(bytes, b"{}");
}

#[test]
fn absent_file_is_not_found_and_triggers_no_second_unpack() {
    let mut storage = ByteStore::new();
    let id = CratesIoCrateId::bevyhub_template();
    let archive = template_archive();
    CratesIoFiles::unpack_cargo_if_needed(&mut storage, &id, Some(&archive)).unwrap();
    let entries_after_unpack = storage.entries.len();
    // the file is legitimately absent from the archive: a true not-found
    let missing = CratesIoFiles::get_crate_file(&mut storage, &id, "scenes/absent.json", None);
    assert_eq!(missing.unwrap_err(), ApiError::NotFound);
    assert_eq!(storage.entries.len(), entries_after_unpack);
    // and the unpacked files are still served
    assert!(!CratesIoFiles::tarball_needed_for_file(&storage, &id, "whatever"));
}

#[test]
fn second_read_serves_from_the_store() {
    let mut storage = ByteStore::new();
    let id = CratesIoCrateId::bevyhub_template();
    let archive = template_archive();
    let first = CratesIoFiles::get_or_unpack_tarball(
        &mut storage,
        &id,
        "unpkg/bevyhub_template/0.0.1-rc.1/Cargo.toml",
        Some(&archive),
    )
    .unwrap();
    // no archive handed in: the store alone answers, with the same bytes
    let second = CratesIoFiles::get_or_unpack_tarball(
        &mut storage,
        &id,
        "unpkg/bevyhub_template/0.0.1-rc.1/Cargo.toml",
        None,
    )
    .unwrap();
    assert_eq!(first, second);
    assert_eq!(first, MANIFEST_TEXT.as_bytes());
}

#[test]
fn archive_without_a_manifest_is_an_integrity_violation() {
    let mut services = Services::init();
    let id = CrateId::bevyhub_template();
    let archive = make_archive(&[("bevyhub_template-0.0.1-rc.1/README.md", b"hi")]);
    let fetched = FetchedUpstream {
        tarball: Some(archive),
        manifest_bytes: None,
        lock_bytes: None,
        newest: NewestUpstream::RegistryVersion(SemVer::new(0, 0, 1)),
    };
    assert_eq!(
        services.cargo_manifest(&id, &fetched).unwrap_err(),
        ApiError::IntegrityViolation
    );
}

#[test]
fn garbage_bytes_are_malformed_upstream_data() {
    let mut services = Services::init();
    let id = CrateId::bevyhub_template();
    let fetched = FetchedUpstream {
        tarball: Some(vec![0u8; 64]),
        manifest_bytes: None,
        lock_bytes: None,
        newest: NewestUpstream::RegistryVersion(SemVer::new(0, 0, 1)),
    };
    assert_eq!(
        services.cargo_manifest(&id, &fetched).unwrap_err(),
        ApiError::MalformedUpstreamData
    );
}

#[test]
fn ingestion_stores_docs_and_flags_the_latest() {
    let mut services = Services::init();
    let id = CrateId::bevyhub_template();
    let (crate_doc, scene_docs) = services.unpack_crate_to_db(&id, &fetched_with_tarball()).unwrap();
    assert_eq!(crate_doc.id.0, "crates_io/bevyhub_template/0.0.1-rc.1");
    assert_eq!(scene_docs.len(), 1);
    assert_eq!(scene_docs[0].name, "my-beautiful-scene");
    assert_eq!(
        scene_docs[0].id.0,
        "crates_io/bevyhub_template/0.0.1-rc.1/my-beautiful-scene"
    );
    assert_eq!(scene_docs[0].crate_doc_id.0, crate_doc.id.0);
    // stored, and flagged latest since the ingested version is the newest
    assert!(services.db().has_scene(&scene_docs[0].id));
    assert_eq!(services.db().scenes.len(), 1);
    assert!(services.db().scenes[0].is_latest);
    assert_eq!(services.db().crates.len(), 1);
}

#[test]
fn ingestion_of_a_git_crate_uses_the_fetched_bytes() {
    let mut services = Services::init();
    let id = CrateId::new_github("mrchantey", "bevyhub", "61eb2f523bfbfb41778e67770f1d115988622b80", None);
    let fetched = FetchedUpstream {
        tarball: None,
        manifest_bytes: Some(MANIFEST_TEXT.as_bytes().to_vec()),
        lock_bytes: Some(b"# lock".to_vec()),
        newest: NewestUpstream::RepoHeadCommit(
            "61eb2f523bfbfb41778e67770f1d115988622b80".to_string(),
        ),
    };
    let (crate_doc, scene_docs) = services.unpack_crate_to_db(&id, &fetched).unwrap();
    assert_eq!(
        crate_doc.repository.as_deref(),
        Some("https://github.com/mrchantey/bevyhub")
    );
    assert_eq!(scene_docs.len(), 1);
    assert!(services.db().scenes[0].is_latest);
    assert!(services.db().has_scene(&scene_docs[0].id));
}

#[test]
fn failed_ingestion_inserts_nothing() {
    let mut services = Services::init();
    let id = CrateId::bevyhub_template();
    // a workspace-only manifest is unsupported at a concrete identity
    let archive = make_archive(&[
        (
            "bevyhub_template-0.0.1-rc.1/Cargo.toml",
            b"[workspace]\nmembers = []\n" as &[u8],
        ),
        ("bevyhub_template-0.0.1-rc.1/Cargo.lock", b"# lock"),
    ]);
    let fetched = FetchedUpstream {
        tarball: Some(archive),
        manifest_bytes: None,
        lock_bytes: None,
        newest: NewestUpstream::RegistryVersion(SemVer::parse("0.0.1-rc.1").unwrap()),
    };
    assert_eq!(
        services.unpack_crate_to_db(&id, &fetched).unwrap_err(),
        ApiError::UnsupportedManifestShape
    );
    // the failing ingestion inserted nothing
    assert!(services.db().crates.is_empty());
    assert!(services.db().scenes.is_empty());
}

#[test]
fn resolve_operations_serve_from_the_store_after_one_ingestion() {
    let mut services = Services::init();
    let id = CrateId::bevyhub_template();
    let fetched = fetched_with_tarball();
    let doc = services.crate_doc(&id, &fetched).unwrap();
    assert_eq!(doc.name, "bevyhub_template");
    // a second resolution needs nothing fetched: the store already knows the identity
    let empty_handed = FetchedUpstream {
        tarball: None,
        manifest_bytes: None,
        lock_bytes: None,
        newest: NewestUpstream::RegistryVersion(SemVer::parse("0.0.1-rc.1").unwrap()),
    };
    let again = services.crate_doc(&id, &empty_handed).unwrap();
    assert_eq!(again.id.0, doc.id.0);
    let scenes = services.all_scene_docs(&id, &empty_handed).unwrap();
    assert_eq!(scenes.len(), 1);
    let scene_id = id.into_scene_id("my-beautiful-scene");
    let scene = services.scene_doc(&scene_id, &empty_handed).unwrap();
    assert_eq!(scene.name, "my-beautiful-scene");
    let absent = id.into_scene_id("no-such-scene");
    assert_eq!(
        services.scene_doc(&absent, &empty_handed).unwrap_err(),
        ApiError::NotFound
    );
}

#[test]
fn clear_for_populate_refuses_production() {
    let mut services = Services::init_with_env(ApiEnvironment::Prod);
    assert_eq!(
        services.clear_for_populate().unwrap_err(),
        ApiError::PolicyRefusal
    );
    let mut staging = Services::init_with_env(ApiEnvironment::Staging);
    assert!(staging.clear_for_populate().is_ok());
    assert!(staging.db().crates.is_empty());
}
