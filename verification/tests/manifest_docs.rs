use bevyhub_api::docs::CrateDoc;
use bevyhub_api::errors::ApiError;
use bevyhub_api::ids::CrateId;
use bevyhub_api::manifest::read_package_fields;
use bevyhub_api::version::SemVer;

fn fields_of(text: &str) -> Result<bevyhub_api::manifest::PackageFields, ApiError> {
    read_package_fields(&text.as_bytes().to_vec())
}

#[test]
fn manifest_fields_read_locally_set_values() {
    let pkg = fields_of(
        "[package]\nname = \"bevyhub_template\"\nversion = \"0.0.1-rc.1\"\ndescription = \"a demo\"\nkeywords = [\"bevy\", \"scene\"]\nauthors = [\"someone\"]\nrepository = \"https://example.org/repo\"\n",
    )
    .unwrap();
    assert_eq!(pkg.name, "bevyhub_template");
    assert_eq!(pkg.version.as_deref(), Some("0.0.1-rc.1"));
    assert_eq!(pkg.description.as_deref(), Some("a demo"));
    assert_eq!(pkg.keywords.as_deref(), Some(&["bevy".to_string(), "scene".to_string()][..]));
    assert_eq!(pkg.authors.as_deref(), Some(&["someone".to_string()][..]));
    assert_eq!(pkg.repository.as_deref(), Some("https://example.org/repo"));
    assert!(!pkg.has_metadata);
    assert!(pkg.scenes.is_empty());
}

#[test]
fn workspace_inherited_fields_read_as_not_local() {
    let pkg = fields_of(
        "[package]\nname = \"x\"\nversion.workspace = true\nkeywords.workspace = true\n",
    )
    .unwrap();
    assert!(pkg.version.is_none());
    assert!(pkg.keywords.is_none());
}

#[test]
fn manifest_without_package_section_is_unsupported() {
    assert_eq!(
        fields_of("[workspace]\nmembers = []\n").unwrap_err(),
        ApiError::UnsupportedManifestShape
    );
}

#[test]
fn malformed_manifests_are_distinct_failures() {
    assert_eq!(
        fields_of("this is not toml [").unwrap_err(),
        ApiError::MalformedUpstreamData
    );
    // a package without a name
    assert_eq!(
        fields_of("[package]\nversion = \"1.0.0\"\n").unwrap_err(),
        ApiError::MalformedUpstreamData
    );
    // ill-typed keyword entries
    assert_eq!(
        fields_of("[package]\nname = \"x\"\nkeywords = [1, 2]\n").unwrap_err(),
        ApiError::MalformedUpstreamData
    );
}

#[test]
fn empty_package_name_is_malformed() {
    assert_eq!(
        fields_of("[package]\nname = \"\"\nversion = \"1.0.0\"\n").unwrap_err(),
        ApiError::MalformedUpstreamData
    );
}

#[test]
fn description_is_carried_through_or_defaults_to_nothing() {
    let with = fields_of(
        "[package]\nname = \"x\"\nversion = \"1.0.0\"\ndescription = \"a demo\"\n",
    )
    .unwrap();
    let doc = CrateDoc::from_package(&CrateId::bevyhub_template(), &with).unwrap();
    assert_eq!(doc.description.as_deref(), Some("a demo"));
    let without = fields_of("[package]\nname = \"x\"\nversion = \"1.0.0\"\n").unwrap();
    let doc = CrateDoc::from_package(&CrateId::bevyhub_template(), &without).unwrap();
    assert!(doc.description.is_none());
    // an inherited description is not followed: it defaults like an absent one
    let inherited = fields_of(
        "[package]\nname = \"x\"\nversion = \"1.0.0\"\ndescription.workspace = true\n",
    )
    .unwrap();
    let doc = CrateDoc::from_package(&CrateId::bevyhub_template(), &inherited).unwrap();
    assert!(doc.description.is_none());
}

#[test]
fn scene_entries_are_read_in_order() {
    let pkg = fields_of(
        "[package]\nname = \"x\"\nversion = \"1.0.0\"\n\n[[package.metadata.scene]]\nname = \"first\"\ndescription = \"one\"\n\n[[package.metadata.scene]]\nname = \"second\"\n",
    )
    .unwrap();
    assert!(pkg.has_metadata);
    assert_eq!(pkg.scenes.len(), 2);
    assert_eq!(pkg.scenes[0].name, "first");
    assert_eq!(pkg.scenes[0].description.as_deref(), Some("one"));
    assert_eq!(pkg.scenes[1].name, "second");
    assert!(pkg.scenes[1].description.is_none());
}

#[test]
fn missing_version_resolves_to_the_default() {
    let pkg = fields_of("[package]\nname = \"x\"\n").unwrap();
    let doc = CrateDoc::from_package(&CrateId::bevyhub_template(), &pkg).unwrap();
    assert_eq!(doc.version, SemVer::new(0, 0, 1));
    assert_eq!(doc.version.to_display_string(), "0.0.1");
}

#[test]
fn inherited_version_resolves_to_the_default_not_an_error() {
    let pkg = fields_of("[package]\nname = \"x\"\nversion.workspace = true\n").unwrap();
    let doc = CrateDoc::from_package(&CrateId::bevyhub_template(), &pkg).unwrap();
    assert_eq!(doc.version, SemVer::new(0, 0, 1));
}

#[test]
fn readme_and_collections_resolve_to_defaults() {
    let pkg = fields_of("[package]\nname = \"x\"\nversion = \"1.2.3\"\n").unwrap();
    let doc = CrateDoc::from_package(&CrateId::bevyhub_template(), &pkg).unwrap();
    assert_eq!(doc.readme, "README.md");
    assert!(doc.keywords.is_empty());
    assert!(doc.authors.is_empty());
    assert!(doc.description.is_none());
    assert_eq!(doc.name, "x");
    assert_eq!(doc.version, SemVer::new(1, 2, 3));
}

#[test]
fn bad_local_version_is_malformed() {
    let pkg = fields_of("[package]\nname = \"x\"\nversion = \"one.two\"\n").unwrap();
    assert_eq!(
        CrateDoc::from_package(&CrateId::bevyhub_template(), &pkg).unwrap_err(),
        ApiError::MalformedUpstreamData
    );
}

#[test]
fn repository_defaults_to_the_git_origin_only() {
    let pkg = fields_of("[package]\nname = \"x\"\nversion = \"1.0.0\"\n").unwrap();
    let git_id = CrateId::new_github("mrchantey", "bevyhub", "abc", None);
    let git_doc = CrateDoc::from_package(&git_id, &pkg).unwrap();
    assert_eq!(
        git_doc.repository.as_deref(),
        Some("https://github.com/mrchantey/bevyhub")
    );
    let registry_doc = CrateDoc::from_package(&CrateId::bevyhub_template(), &pkg).unwrap();
    assert!(registry_doc.repository.is_none());
    let with_repo = fields_of(
        "[package]\nname = \"x\"\nversion = \"1.0.0\"\nrepository = \"https://example.org\"\n",
    )
    .unwrap();
    let doc = CrateDoc::from_package(&git_id, &with_repo).unwrap();
    assert_eq!(doc.repository.as_deref(), Some("https://example.org"));
}

#[test]
fn crate_doc_is_keyed_by_the_identity_path() {
    let pkg = fields_of("[package]\nname = \"bevyhub_template\"\nversion = \"0.0.1-rc.1\"\n").unwrap();
    let id = CrateId::bevyhub_template();
    let doc = CrateDoc::from_package(&id, &pkg).unwrap();
    assert_eq!(doc.doc_id().0, "crates_io/bevyhub_template/0.0.1-rc.1");
    assert_eq!(doc.crate_id(), &id);
}

#[test]
fn error_messages_name_each_kind() {
    assert_eq!(ApiError::NotFoundUpstream.message(), "not found upstream");
    assert_eq!(ApiError::UpstreamUnavailable.message(), "upstream unavailable");
    assert_eq!(ApiError::ConfigurationMissing.message(), "missing configuration");
    assert_ne!(
        ApiError::IntegrityViolation.message(),
        ApiError::NotFound.message()
    );
}
