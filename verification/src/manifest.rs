//! Reading a package manifest: the `toml` crate parses the bytes, and each
//! value the pipeline cares about is pulled out into plain fields through a
//! named trusted reader, so that every caller's contract can speak of "the
//! manifest these bytes hold". A field set through workspace inheritance is
//! not followed across files: it reads as not locally present.

use vstd::prelude::*;
use crate::errors::ApiError;

verus! {

/// The mathematical value of a [`SceneEntry`].
pub ghost struct SceneEntryV {
    pub name: Seq<char>,
    pub description: Option<Seq<char>>,
}

/// One scene declared under the package metadata.
#[derive(Debug)]
pub struct SceneEntry {
    pub name: String,
    pub description: Option<String>,
}

impl View for SceneEntry {
    type V = SceneEntryV;

    open spec fn view(&self) -> SceneEntryV {
        SceneEntryV { name: self.name@, description: self.description.deep_view() }
    }
}

impl DeepView for SceneEntry {
    type V = SceneEntryV;

    open spec fn deep_view(&self) -> SceneEntryV {
        self@
    }
}

impl Clone for SceneEntry {
    fn clone(&self) -> (res: Self)
        ensures
            res@ == self@,
    {
        SceneEntry {
            name: self.name.clone(),
            description: match &self.description {
                Some(d) => Some(d.clone()),
                None => None,
            },
        }
    }
}

/// The mathematical value of a [`PackageFields`].
pub ghost struct PackageFieldsV {
    pub name: Seq<char>,
    pub version: Option<Seq<char>>,
    pub readme: Option<Seq<char>>,
    pub description: Option<Seq<char>>,
    pub repository: Option<Seq<char>>,
    pub keywords: Option<Seq<Seq<char>>>,
    pub authors: Option<Seq<Seq<char>>>,
    pub has_metadata: bool,
    pub scenes: Seq<SceneEntryV>,
}

/// The package fields of a manifest, as locally present values: a field
/// that is absent or marked workspace-inherited carries nothing here, and
/// resolves later to its documented default, never to a workspace lookup.
#[derive(Debug)]
pub struct PackageFields {
    /// The package name; every well-formed package carries a non-empty one.
    pub name: String,
    /// The version string, where locally set.
    pub version: Option<String>,
    /// The readme path, where locally set to a string.
    pub readme: Option<String>,
    pub description: Option<String>,
    pub repository: Option<String>,
    pub keywords: Option<Vec<String>>,
    pub authors: Option<Vec<String>>,
    /// Whether the package carries a metadata section at all; scene
    /// construction needs the lock file only then.
    pub has_metadata: bool,
    /// The declared scenes, in declaration order.
    pub scenes: Vec<SceneEntry>,
}

impl View for PackageFields {
    type V = PackageFieldsV;

    open spec fn view(&self) -> PackageFieldsV {
        PackageFieldsV {
            name: self.name@,
            version: self.version.deep_view(),
            readme: self.readme.deep_view(),
            description: self.description.deep_view(),
            repository: self.repository.deep_view(),
            keywords: self.keywords.deep_view(),
            authors: self.authors.deep_view(),
            has_metadata: self.has_metadata,
            scenes: self.scenes.deep_view(),
        }
    }
}

/// Whether the bytes are UTF-8 text that parses as a TOML document.
pub uninterp spec fn manifest_is_toml_of(bytes: Seq<u8>) -> bool;

/// Relies on `std::str::from_utf8` and `toml::from_str`: whether the bytes
/// hold a well-formed TOML document.
#[verifier::external_body]
fn manifest_is_toml(bytes: &Vec<u8>) -> (r: bool)
    ensures
        r == manifest_is_toml_of(bytes@),
{
    match std::str::from_utf8(bytes.as_slice()) {
        Ok(s) => toml::from_str::<toml::Value>(s).is_ok(),
        Err(_) => false,
    }
}

/// Whether the document carries a package section; false where the bytes
/// are not well-formed TOML at all.
pub uninterp spec fn manifest_has_package_of(bytes: Seq<u8>) -> bool;

/// Relies on `toml::from_str` and `toml::Value::get`: whether the parsed
/// document has a `package` member.
#[verifier::external_body]
fn manifest_has_package(bytes: &Vec<u8>) -> (r: bool)
    ensures
        r == manifest_has_package_of(bytes@),
{
    let Ok(s) = std::str::from_utf8(bytes.as_slice()) else { return false };
    let Ok(v) = toml::from_str::<toml::Value>(s) else { return false };
    v.get("package").is_some()
}

/// The locally set string member of the package section under a key;
/// nothing where the member is absent or of any other kind than a string
/// (a workspace-inheritance table among them), or where the document does
/// not parse.
pub uninterp spec fn manifest_str_field_of(bytes: Seq<u8>, key: Seq<char>) -> Option<Seq<char>>;

/// Relies on `toml::from_str`, `toml::Value::get` and
/// `toml::Value::as_str`: the string at `package.<key>`.
#[verifier::external_body]
fn manifest_str_field(bytes: &Vec<u8>, key: &str) -> (r: Option<String>)
    ensures
        r.deep_view() == manifest_str_field_of(bytes@, key@),
{
    let v: toml::Value = toml::from_str(std::str::from_utf8(bytes.as_slice()).ok()?).ok()?;
    Some(v.get("package")?.get(key)?.as_str()?.to_owned())
}

/// The mathematical value of a [`StringListField`].
pub ghost enum StringListFieldV {
    /// The member is absent, inherited, or not an array: not locally set.
    Absent,
    /// The member is locally an array of strings.
    Listed(Seq<Seq<char>>),
    /// The member is locally an array holding a non-string element.
    IllTyped,
}

/// The state of one string-list member of the package section.
pub enum StringListField {
    Absent,
    Listed(Vec<String>),
    IllTyped,
}

impl View for StringListField {
    type V = StringListFieldV;

    open spec fn view(&self) -> StringListFieldV {
        match self {
            StringListField::Absent => StringListFieldV::Absent,
            StringListField::Listed(items) => StringListFieldV::Listed(items.deep_view()),
            StringListField::IllTyped => StringListFieldV::IllTyped,
        }
    }
}

/// The state of the string-list member of the package section under a key.
pub uninterp spec fn manifest_string_list_of(bytes: Seq<u8>, key: Seq<char>) -> StringListFieldV;

/// Relies on `toml::from_str`, `toml::Value::{get, as_array, as_str}`: the
/// array of strings at `package.<key>`, converted element by element.
#[verifier::external_body]
fn manifest_string_list(bytes: &Vec<u8>, key: &str) -> (r: StringListField)
    ensures
        r@ == manifest_string_list_of(bytes@, key@),
{
    let Ok(text) = std::str::from_utf8(bytes.as_slice()) else { return StringListField::Absent };
    let Ok(v) = toml::from_str::<toml::Value>(text) else { return StringListField::Absent };
    let m = v.get("package").and_then(|p| p.get(key));
    let Some(xs) = m.and_then(|m| m.as_array()) else { return StringListField::Absent };
    let mut out = Vec::new();
    for x in xs {
        let Some(s) = x.as_str() else { return StringListField::IllTyped };
        out.push(s.to_owned());
    }
    StringListField::Listed(out)
}

/// Whether the package carries a metadata section.
pub uninterp spec fn manifest_has_metadata_of(bytes: Seq<u8>) -> bool;

/// Relies on `toml::from_str` and `toml::Value::get`: whether the parsed
/// document has a `package.metadata` member.
#[verifier::external_body]
fn manifest_has_metadata(bytes: &Vec<u8>) -> (r: bool)
    ensures
        r == manifest_has_metadata_of(bytes@),
{
    let Ok(s) = std::str::from_utf8(bytes.as_slice()) else { return false };
    let Ok(v) = toml::from_str::<toml::Value>(s) else { return false };
    v.get("package").and_then(|p| p.get("metadata")).is_some()
}

/// The scene declarations of the manifest, each with its name and
/// optional description — an empty list where the metadata declares none;
/// nothing where the `scene` member is not an array of named tables or
/// the document does not parse at all.
pub uninterp spec fn manifest_scene_list_of(bytes: Seq<u8>) -> Option<Seq<SceneEntryV>>;

/// Relies on `toml::from_str`, `toml::Value::{get, as_array, as_str}`: the
/// entries at `package.metadata.scene`, each converted to its name and
/// description.
#[verifier::external_body]
fn manifest_scene_list(bytes: &Vec<u8>) -> (r: Option<Vec<SceneEntry>>)
    ensures
        r.deep_view() == manifest_scene_list_of(bytes@),
{
    let doc = toml::from_str::<toml::Value>(std::str::from_utf8(bytes.as_slice()).ok()?).ok()?;
    let meta = doc.get("package").and_then(|p| p.get("metadata"));
    let Some(scene) = meta.and_then(|m| m.get("scene")) else { return Some(Vec::new()) };
    let xs = scene.as_array()?;
    let mut out = Vec::new();
    for x in xs {
        let n = x.get("name").and_then(|n| n.as_str())?;
        out.push(SceneEntry { name: n.to_owned(), description: x.get("description").and_then(|s| s.as_str()).map(str::to_owned) });
    }
    Some(out)
}

/// What a manifest read yields on given bytes.
pub ghost enum ManifestReadV {
    /// The package fields the bytes hold.
    Fields(PackageFieldsV),
    /// A well-formed document without a package section: a workspace-only
    /// manifest, unsupported at a concrete identity.
    NoPackage,
    /// Bytes that are not a manifest: not TOML, a package without a
    /// non-empty name, or ill-typed members.
    Malformed,
}

/// The one manifest read these bytes admit, composed from the named
/// member reads: the documented defaulting happens later, on these fields.
pub open spec fn manifest_read_of(bytes: Seq<u8>) -> ManifestReadV {
    if !manifest_is_toml_of(bytes) {
        ManifestReadV::Malformed
    } else if !manifest_has_package_of(bytes) {
        ManifestReadV::NoPackage
    } else {
        match manifest_str_field_of(bytes, "name"@) {
            Option::None => ManifestReadV::Malformed,
            Option::Some(name) => {
                let keywords = manifest_string_list_of(bytes, "keywords"@);
                let authors = manifest_string_list_of(bytes, "authors"@);
                let scenes = manifest_scene_list_of(bytes);
                if name.len() == 0 || keywords is IllTyped || authors is IllTyped || scenes
                    is None {
                    ManifestReadV::Malformed
                } else {
                    ManifestReadV::Fields(
                        PackageFieldsV {
                            name,
                            version: manifest_str_field_of(bytes, "version"@),
                            readme: manifest_str_field_of(bytes, "readme"@),
                            description: manifest_str_field_of(bytes, "description"@),
                            repository: manifest_str_field_of(bytes, "repository"@),
                            keywords: match keywords {
                                StringListFieldV::Listed(ks) => Some(ks),
                                _ => None,
                            },
                            authors: match authors {
                                StringListFieldV::Listed(aus) => Some(aus),
                                _ => None,
                            },
                            has_metadata: manifest_has_metadata_of(bytes),
                            scenes: scenes.unwrap(),
                        },
                    )
                }
            },
        }
    }
}

/// How a manifest-read result relates to the bytes it was read from: the
/// returned fields are exactly the bytes' fields, a workspace-only
/// manifest is the unsupported-shape failure, and anything else that is
/// not a manifest is the malformed-data failure — each if and only if.
pub open spec fn manifest_outcome_ties(r: &Result<PackageFields, ApiError>, bytes: Seq<u8>) -> bool {
    match r {
        Result::Ok(p) => manifest_read_of(bytes) == ManifestReadV::Fields(p@),
        Result::Err(e) => match manifest_read_of(bytes) {
            ManifestReadV::NoPackage => *e == ApiError::UnsupportedManifestShape,
            ManifestReadV::Malformed => *e == ApiError::MalformedUpstreamData,
            ManifestReadV::Fields(_) => false,
        },
    }
}

/// Reads the package fields out of manifest bytes. A manifest without a
/// package section denotes no concrete crate and is refused as
/// unsupported; bytes that are not TOML, a package without a non-empty
/// name, and ill-typed members are malformed upstream data.
pub fn read_package_fields(bytes: &Vec<u8>) -> (r: Result<PackageFields, ApiError>)
    ensures
        manifest_outcome_ties(&r, bytes@),
        r matches Ok(p) ==> p.name@.len() > 0,
{
    if !manifest_is_toml(bytes) {
        return Err(ApiError::MalformedUpstreamData);
    }
    if !manifest_has_package(bytes) {
        return Err(ApiError::UnsupportedManifestShape);
    }
    let name = match manifest_str_field(bytes, "name") {
        Some(n) => n,
        None => {
            return Err(ApiError::MalformedUpstreamData);
        },
    };
    if name.as_str().is_empty() {
        return Err(ApiError::MalformedUpstreamData);
    }
    let keywords = match manifest_string_list(bytes, "keywords") {
        StringListField::Absent => None,
        StringListField::Listed(ks) => Some(ks),
        StringListField::IllTyped => {
            return Err(ApiError::MalformedUpstreamData);
        },
    };
    let authors = match manifest_string_list(bytes, "authors") {
        StringListField::Absent => None,
        StringListField::Listed(aus) => Some(aus),
        StringListField::IllTyped => {
            return Err(ApiError::MalformedUpstreamData);
        },
    };
    let scenes = match manifest_scene_list(bytes) {
        Some(es) => es,
        None => {
            return Err(ApiError::MalformedUpstreamData);
        },
    };
    let fields = PackageFields {
        name,
        version: manifest_str_field(bytes, "version"),
        readme: manifest_str_field(bytes, "readme"),
        description: manifest_str_field(bytes, "description"),
        repository: manifest_str_field(bytes, "repository"),
        keywords,
        authors,
        has_metadata: manifest_has_metadata(bytes),
        scenes,
    };
    proof {
        assert(fields@.scenes =~= manifest_scene_list_of(bytes@).unwrap());
        assert(manifest_read_of(bytes@) matches ManifestReadV::Fields(f) && fields@ == f);
    }
    Ok(fields)
}

} // verus!
