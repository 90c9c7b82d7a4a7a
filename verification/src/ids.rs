//! Immutable identities of crates and scenes, and the deterministic path
//! strings that serve as storage-namespace prefixes and document keys.
//!
//! The path of an identity embeds its origin tag, so paths never collide
//! across origins, and equal identities always render the same path.

use vstd::prelude::*;
use crate::strutil::{join_with, split_on, split_str, join_str, string_push};
use crate::version::{SemVer, SemVerV, version_chars};

verus! {

/// The primary key of a stored document.
#[derive(Debug)]
pub struct DocId(pub String);

impl View for DocId {
    type V = Seq<char>;

    open spec fn view(&self) -> Seq<char> {
        self.0@
    }
}

impl Clone for DocId {
    fn clone(&self) -> (res: Self)
        ensures
            res == self,
    {
        DocId(self.0.clone())
    }
}

impl PartialEq for DocId {
    fn eq(&self, other: &Self) -> (r: bool) {
        self.0 == other.0
    }
}

impl Eq for DocId {

}

impl vstd::std_specs::cmp::PartialEqSpecImpl for DocId {
    open spec fn obeys_eq_spec() -> bool {
        true
    }

    open spec fn eq_spec(&self, other: &Self) -> bool {
        self@ == other@
    }
}

/// The mathematical value of a [`CratesIoCrateId`].
pub ghost struct CratesIoCrateIdV {
    pub crate_name: Seq<char>,
    pub version: SemVerV,
}

/// A registry-hosted crate: a case-preserved name and a parsed version.
#[derive(Debug)]
pub struct CratesIoCrateId {
    pub crate_name: String,
    pub version: SemVer,
}

impl View for CratesIoCrateId {
    type V = CratesIoCrateIdV;

    open spec fn view(&self) -> CratesIoCrateIdV {
        CratesIoCrateIdV { crate_name: self.crate_name@, version: self.version@ }
    }
}

impl Clone for CratesIoCrateId {
    fn clone(&self) -> (res: Self)
        ensures
            res == self,
    {
        CratesIoCrateId { crate_name: self.crate_name.clone(), version: self.version.clone() }
    }
}

impl PartialEq for CratesIoCrateId {
    fn eq(&self, other: &Self) -> (r: bool) {
        self.crate_name == other.crate_name && self.version == other.version
    }
}

impl Eq for CratesIoCrateId {

}

impl vstd::std_specs::cmp::PartialEqSpecImpl for CratesIoCrateId {
    open spec fn obeys_eq_spec() -> bool {
        true
    }

    open spec fn eq_spec(&self, other: &Self) -> bool {
        self@ == other@
    }
}

/// The mathematical value of a [`GithubCrateId`].
pub ghost struct GithubCrateIdV {
    pub owner: Seq<char>,
    pub repo: Seq<char>,
    pub commit_hash: Seq<char>,
    pub manifest_dir: Seq<char>,
}

/// A git-hosted crate pinned to one commit. `commit_hash` is a full hash,
/// never a branch name: a moving ref must be resolved before an identity is
/// formed. `manifest_dir` is the path of the manifest file inside the
/// repository, `Cargo.toml` at the root by default.
#[derive(Debug)]
pub struct GithubCrateId {
    pub owner: String,
    pub repo: String,
    pub commit_hash: String,
    pub manifest_dir: String,
}

impl View for GithubCrateId {
    type V = GithubCrateIdV;

    open spec fn view(&self) -> GithubCrateIdV {
        GithubCrateIdV {
            owner: self.owner@,
            repo: self.repo@,
            commit_hash: self.commit_hash@,
            manifest_dir: self.manifest_dir@,
        }
    }
}

impl Clone for GithubCrateId {
    fn clone(&self) -> (res: Self)
        ensures
            res == self,
    {
        GithubCrateId {
            owner: self.owner.clone(),
            repo: self.repo.clone(),
            commit_hash: self.commit_hash.clone(),
            manifest_dir: self.manifest_dir.clone(),
        }
    }
}

impl PartialEq for GithubCrateId {
    fn eq(&self, other: &Self) -> (r: bool) {
        self.owner == other.owner && self.repo == other.repo && self.commit_hash
            == other.commit_hash && self.manifest_dir == other.manifest_dir
    }
}

impl Eq for GithubCrateId {

}

impl vstd::std_specs::cmp::PartialEqSpecImpl for GithubCrateId {
    open spec fn obeys_eq_spec() -> bool {
        true
    }

    open spec fn eq_spec(&self, other: &Self) -> bool {
        self@ == other@
    }
}

/// The mathematical value of a [`CrateId`].
pub ghost enum CrateIdV {
    CratesIo(CratesIoCrateIdV),
    Github(GithubCrateIdV),
}

/// A unique identity of a specific immutable crate, over either origin.
/// Two identities are equal exactly when their origin and every field
/// agree.
#[derive(Debug)]
pub enum CrateId {
    CratesIo(CratesIoCrateId),
    Github(GithubCrateId),
}

impl View for CrateId {
    type V = CrateIdV;

    open spec fn view(&self) -> CrateIdV {
        match self {
            CrateId::CratesIo(id) => CrateIdV::CratesIo(id@),
            CrateId::Github(id) => CrateIdV::Github(id@),
        }
    }
}

impl Clone for CrateId {
    fn clone(&self) -> (res: Self)
        ensures
            res == self,
    {
        match self {
            CrateId::CratesIo(id) => CrateId::CratesIo(id.clone()),
            CrateId::Github(id) => CrateId::Github(id.clone()),
        }
    }
}

impl PartialEq for CrateId {
    fn eq(&self, other: &Self) -> (r: bool) {
        match (self, other) {
            (CrateId::CratesIo(a), CrateId::CratesIo(b)) => a == b,
            (CrateId::Github(a), CrateId::Github(b)) => a == b,
            _ => false,
        }
    }
}

impl Eq for CrateId {

}

impl vstd::std_specs::cmp::PartialEqSpecImpl for CrateId {
    open spec fn obeys_eq_spec() -> bool {
        true
    }

    open spec fn eq_spec(&self, other: &Self) -> bool {
        self@ == other@
    }
}

/// The path of a registry identity: `crates_io/<name>/<version>`.
pub open spec fn crates_io_path_chars(id: CratesIoCrateIdV) -> Seq<char> {
    "crates_io/"@ + id.crate_name + seq!['/'] + version_chars(id.version)
}

/// The path of a git identity:
/// `github/<owner>/<repo>/<commit>/<manifest_dir>`.
pub open spec fn github_path_chars(id: GithubCrateIdV) -> Seq<char> {
    "github/"@ + id.owner + seq!['/'] + id.repo + seq!['/'] + id.commit_hash + seq!['/']
        + id.manifest_dir
}

/// The path of a crate identity, origin tag first.
pub open spec fn crate_id_path_chars(id: CrateIdV) -> Seq<char> {
    match id {
        CrateIdV::CratesIo(c) => crates_io_path_chars(c),
        CrateIdV::Github(g) => github_path_chars(g),
    }
}

/// Paths never collide across origins: the origin tag leads the path, so
/// no registry identity and git identity share one.
pub proof fn lemma_path_never_collides_across_origins(c: CratesIoCrateIdV, g: GithubCrateIdV)
    ensures
        crates_io_path_chars(c) != github_path_chars(g),
{
    reveal_strlit("crates_io/");
    reveal_strlit("github/");
    assert(crates_io_path_chars(c)[0] == 'c');
    assert(github_path_chars(g)[0] == 'g');
}

impl CratesIoCrateId {
    pub fn new(crate_name: &str, version: SemVer) -> (r: Self)
        ensures
            r@.crate_name == crate_name@,
            r@.version == version@,
    {
        CratesIoCrateId { crate_name: crate_name.to_owned(), version }
    }

    /// The `<name>/<version>` form used inside storage paths.
    pub fn slash_formatted(&self) -> (r: String)
        ensures
            r@ == self@.crate_name + seq!['/'] + version_chars(self@.version),
    {
        let mut r = self.crate_name.clone();
        string_push(&mut r, '/');
        let v = self.version.to_display_string();
        r.append(v.as_str());
        r
    }

    /// The identity every example and test exercises.
    pub fn bevyhub_template() -> (r: Self) {
        let pre = "rc.1";
        CratesIoCrateId {
            crate_name: String::from_str("bevyhub_template"),
            version: SemVer {
                major: 0,
                minor: 0,
                patch: 1,
                pre: pre.to_owned(),
                build: String::new(),
            },
        }
    }

    /// The same name under a version nothing was published for.
    pub fn bevyhub_template_bad_version() -> (r: Self) {
        CratesIoCrateId {
            crate_name: String::from_str("bevyhub_template"),
            version: SemVer::new(0, 0, 0),
        }
    }
}

/// The web address of the repository a git identity points into.
pub open spec fn repo_url_chars(g: GithubCrateIdV) -> Seq<char> {
    "https://github.com/"@ + g.owner + seq!['/'] + g.repo
}

impl GithubCrateId {
    /// The web address of the repository that this identity points into.
    pub fn into_repo_url(&self) -> (r: String)
        ensures
            r@ == repo_url_chars(self@),
    {
        let mut r = String::from_str("https://github.com/");
        r.append(self.owner.as_str());
        string_push(&mut r, '/');
        r.append(self.repo.as_str());
        r
    }

    /// Resolves a file path relative to the directory holding the manifest:
    /// the last component of `manifest_dir` (the manifest file itself) is
    /// dropped, and `path` is appended to what remains; a root-level
    /// manifest leaves `path` unchanged.
    pub fn relative_to_manifest_dir(manifest_dir: &str, path: &str) -> (r: String)
        ensures
            r@ == relative_to_manifest_dir_chars(manifest_dir@, path@),
    {
        let mut parts = split_str(manifest_dir, '/');
        let ghost whole = parts.deep_view();
        proof {
            crate::strutil::lemma_split_on_len(manifest_dir@, '/');
        }
        let _last = parts.pop();
        proof {
            assert(parts.deep_view() =~= whole.drop_last());
        }
        if parts.len() == 0 {
            path.to_owned()
        } else {
            let mut r = join_str(&parts, '/');
            string_push(&mut r, '/');
            r.append(path);
            r
        }
    }
}

/// The effective location of `path` relative to the parent directory of
/// `manifest_dir`.
pub open spec fn relative_to_manifest_dir_chars(md: Seq<char>, path: Seq<char>) -> Seq<char> {
    let parts = split_on(md, '/').drop_last();
    if parts.len() == 0 {
        path
    } else {
        join_with(parts, '/') + seq!['/'] + path
    }
}

impl CrateId {
    pub fn new_crates_io(crate_name: &str, version: SemVer) -> (r: Self)
        ensures
            r@ == CrateIdV::CratesIo(
                CratesIoCrateIdV { crate_name: crate_name@, version: version@ },
            ),
    {
        CrateId::CratesIo(CratesIoCrateId::new(crate_name, version))
    }

    /// A git identity; the manifest path defaults to the root `Cargo.toml`.
    pub fn new_github(owner: &str, repo: &str, commit_hash: &str, manifest_dir: Option<&str>) -> (r:
        Self)
        ensures
            r@ matches CrateIdV::Github(g),
            r@ matches CrateIdV::Github(g) ==> g.owner == owner@ && g.repo == repo@
                && g.commit_hash == commit_hash@,
            manifest_dir matches Some(d) ==> (r@ matches CrateIdV::Github(g) && g.manifest_dir
                == d@),
            manifest_dir is None ==> (r@ matches CrateIdV::Github(g) && g.manifest_dir
                == "Cargo.toml"@),
    {
        let manifest_dir_str = match manifest_dir {
            Some(d) => d.to_owned(),
            None => String::from_str("Cargo.toml"),
        };
        CrateId::Github(
            GithubCrateId {
                owner: owner.to_owned(),
                repo: repo.to_owned(),
                commit_hash: commit_hash.to_owned(),
                manifest_dir: manifest_dir_str,
            },
        )
    }

    /// The identity of a named scene inside this crate.
    pub fn into_scene_id(&self, scene_name: &str) -> (r: SceneId)
        ensures
            r@.crate_id == self@,
            r@.scene_name == scene_name@,
    {
        SceneId::new(self.clone(), scene_name)
    }

    /// A human, filesystem and url friendly string unique to this crate.
    pub fn path(&self) -> (r: String)
        ensures
            r@ == crate_id_path_chars(self@),
    {
        match self {
            CrateId::CratesIo(id) => {
                let mut r = String::from_str("crates_io/");
                r.append(id.crate_name.as_str());
                string_push(&mut r, '/');
                let v = id.version.to_display_string();
                r.append(v.as_str());
                r
            },
            CrateId::Github(id) => {
                let mut r = String::from_str("github/");
                r.append(id.owner.as_str());
                string_push(&mut r, '/');
                r.append(id.repo.as_str());
                string_push(&mut r, '/');
                r.append(id.commit_hash.as_str());
                string_push(&mut r, '/');
                r.append(id.manifest_dir.as_str());
                r
            },
        }
    }

    /// The path doubles as the document-store primary key.
    pub fn into_doc_id(&self) -> (r: DocId)
        ensures
            r@ == crate_id_path_chars(self@),
    {
        DocId(self.path())
    }

    pub fn bevyhub_template() -> (r: Self) {
        CrateId::CratesIo(CratesIoCrateId::bevyhub_template())
    }

    pub fn bevyhub_template_bad_version() -> (r: Self) {
        CrateId::CratesIo(CratesIoCrateId::bevyhub_template_bad_version())
    }
}

/// The mathematical value of a [`SceneId`].
pub ghost struct SceneIdV {
    pub crate_id: CrateIdV,
    pub scene_name: Seq<char>,
}

/// A named scene of a specific immutable crate.
#[derive(Debug)]
pub struct SceneId {
    pub crate_id: CrateId,
    pub scene_name: String,
}

impl View for SceneId {
    type V = SceneIdV;

    open spec fn view(&self) -> SceneIdV {
        SceneIdV { crate_id: self.crate_id@, scene_name: self.scene_name@ }
    }
}

impl Clone for SceneId {
    fn clone(&self) -> (res: Self)
        ensures
            res == self,
    {
        SceneId { crate_id: self.crate_id.clone(), scene_name: self.scene_name.clone() }
    }
}

impl PartialEq for SceneId {
    fn eq(&self, other: &Self) -> (r: bool) {
        self.crate_id == other.crate_id && self.scene_name == other.scene_name
    }
}

impl Eq for SceneId {

}

impl vstd::std_specs::cmp::PartialEqSpecImpl for SceneId {
    open spec fn obeys_eq_spec() -> bool {
        true
    }

    open spec fn eq_spec(&self, other: &Self) -> bool {
        self@ == other@
    }
}

/// The path of a scene: its crate's path with the scene name appended.
pub open spec fn scene_id_path_chars(id: SceneIdV) -> Seq<char> {
    crate_id_path_chars(id.crate_id) + seq!['/'] + id.scene_name
}

impl SceneId {
    pub fn new(crate_id: CrateId, scene_name: &str) -> (r: Self)
        ensures
            r@.crate_id == crate_id@,
            r@.scene_name == scene_name@,
    {
        SceneId { crate_id, scene_name: scene_name.to_owned() }
    }

    pub fn new_crates_io(crate_name: &str, version: SemVer, scene_name: &str) -> (r: Self)
        ensures
            r@.crate_id == CrateIdV::CratesIo(
                CratesIoCrateIdV { crate_name: crate_name@, version: version@ },
            ),
            r@.scene_name == scene_name@,
    {
        SceneId::new(CrateId::new_crates_io(crate_name, version), scene_name)
    }

    /// Construct from `{crate_name}, {scene_name}, {version}`.
    pub fn from_parts(crate_name: String, scene_name: String, version: SemVer) -> (r: Self)
        ensures
            r@.crate_id == CrateIdV::CratesIo(
                CratesIoCrateIdV { crate_name: crate_name@, version: version@ },
            ),
            r@.scene_name == scene_name@,
    {
        SceneId::new(CrateId::new_crates_io(crate_name.as_str(), version), scene_name.as_str())
    }

    pub fn scene_name(&self) -> (r: &str)
        ensures
            r@ == self@.scene_name,
    {
        self.scene_name.as_str()
    }

    pub fn crate_id(&self) -> (r: &CrateId)
        ensures
            r@ == self@.crate_id,
    {
        &self.crate_id
    }

    pub fn path(&self) -> (r: String)
        ensures
            r@ == scene_id_path_chars(self@),
    {
        let mut r = self.crate_id.path();
        string_push(&mut r, '/');
        r.append(self.scene_name.as_str());
        r
    }

    pub fn into_doc_id(&self) -> (r: DocId)
        ensures
            r@ == scene_id_path_chars(self@),
    {
        DocId(self.path())
    }

    /// The scene identity every example and test exercises.
    pub fn my_beautiful_scene() -> (r: Self) {
        SceneId::new(CrateId::bevyhub_template(), "my-beautiful-scene")
    }
}

} // verus!
