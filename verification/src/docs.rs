//! The stored documents: a crate document derived once from a manifest and
//! immutable thereafter, the scene documents beside it whose only mutable
//! field is the latest flag, and the document store they live in.

use vstd::prelude::*;
use crate::errors::ApiError;
use crate::ids::{
    crate_id_path_chars, repo_url_chars, scene_id_path_chars, CrateId, CrateIdV, DocId, SceneId,
};
use crate::manifest::{PackageFields, PackageFieldsV, SceneEntry, SceneEntryV};
use crate::strutil::str_eq;
use crate::version::{semver_parse_of, SemVer, SemVerV};

verus! {

/// The version a manifest without a locally set version resolves to.
pub open spec fn default_version() -> SemVerV {
    SemVerV {
        major: 0,
        minor: 0,
        patch: 1,
        pre: Seq::<char>::empty(),
        build: Seq::<char>::empty(),
    }
}

/// Extracted package information of one crate identity: derived on first
/// ingestion and never updated, since the identity denotes immutable
/// content.
#[derive(Debug)]
pub struct CrateDoc {
    /// The primary key: the crate identity's path.
    pub id: DocId,
    pub crate_id: CrateId,
    pub name: String,
    pub version: SemVer,
    pub readme: String,
    /// Where the manifest names no repository and the origin is a git
    /// host, the origin's own repository address stands in.
    pub repository: Option<String>,
    pub description: Option<String>,
    pub keywords: Vec<String>,
    pub authors: Vec<String>,
}

impl Clone for CrateDoc {
    fn clone(&self) -> (res: Self)
        ensures
            res.id@ == self.id@,
            res.crate_id@ == self.crate_id@,
            res.name@ == self.name@,
            res.version@ == self.version@,
            res.readme@ == self.readme@,
            option_string_eq(&res.repository, &self.repository),
            option_string_eq(&res.description, &self.description),
            res.keywords.deep_view() == self.keywords.deep_view(),
            res.authors.deep_view() == self.authors.deep_view(),
    {
        let r = CrateDoc {
            id: self.id.clone(),
            crate_id: self.crate_id.clone(),
            name: self.name.clone(),
            version: self.version.clone(),
            readme: self.readme.clone(),
            repository: clone_option_string(&self.repository),
            description: clone_option_string(&self.description),
            keywords: clone_string_vec(&self.keywords),
            authors: clone_string_vec(&self.authors),
        };
        r
    }
}

/// View-level equality of two optional strings.
pub open spec fn option_string_eq(a: &Option<String>, b: &Option<String>) -> bool {
    match (a, b) {
        (Option::Some(x), Option::Some(y)) => x@ == y@,
        (Option::None, Option::None) => true,
        _ => false,
    }
}

fn clone_option_string(a: &Option<String>) -> (r: Option<String>)
    ensures
        r == *a,
        option_string_eq(&r, a),
{
    match a {
        Some(s) => {
            let c = s.clone();
            Some(c)
        },
        None => None,
    }
}

fn clone_string_vec(a: &Vec<String>) -> (r: Vec<String>)
    ensures
        r.deep_view() == a.deep_view(),
{
    let mut out: Vec<String> = Vec::new();
    let mut i: usize = 0;
    while i < a.len()
        invariant
            i <= a@.len(),
            out@.len() == i,
            forall|j: int| 0 <= j < i ==> out.deep_view()[j] == #[trigger] a.deep_view()[j],
        decreases a@.len() - i,
    {
        out.push(a[i].clone());
        i = i + 1;
    }
    proof {
        assert(out.deep_view() =~= a.deep_view());
    }
    out
}

/// The crate document that a manifest's fields build for an identity:
/// every field carried through, and every inheritance-capable field
/// resolved to its documented default where not locally present — version
/// to `0.0.1`, readme to `README.md`, description to nothing, collections
/// to empty, and the repository of a git-origin crate to its own host
/// address.
pub open spec fn crate_doc_matches_fields(d: &CrateDoc, cid: CrateIdV, f: PackageFieldsV) -> bool {
    &&& d.id@ == crate_id_path_chars(cid)
    &&& d.crate_id@ == cid
    &&& d.name@ == f.name
    &&& (match f.version {
        Option::Some(vs) => semver_parse_of(vs) == Some(d.version@),
        Option::None => d.version@ == default_version(),
    })
    &&& d.readme@ == (match f.readme {
        Option::Some(s) => s,
        Option::None => "README.md"@,
    })
    &&& d.description.deep_view() == f.description
    &&& (match f.repository {
        Option::Some(u) => d.repository.deep_view() == Some(u),
        Option::None => (match cid {
            CrateIdV::Github(g) => d.repository.deep_view() == Some(repo_url_chars(g)),
            CrateIdV::CratesIo(_) => d.repository is None,
        }),
    })
    &&& (match f.keywords {
        Option::Some(ks) => d.keywords.deep_view() == ks,
        Option::None => d.keywords@.len() == 0,
    })
    &&& (match f.authors {
        Option::Some(aus) => d.authors.deep_view() == aus,
        Option::None => d.authors@.len() == 0,
    })
}

impl CrateDoc {
    /// Builds the document of an identity from its manifest's package
    /// fields, as [`crate_doc_matches_fields`] states; a locally set
    /// version that is not a semantic version is malformed upstream data.
    pub fn from_package(crate_id: &CrateId, pkg: &PackageFields) -> (r: Result<CrateDoc, ApiError>)
        ensures
            r is Ok == (match pkg.version {
                Option::Some(vs) => semver_parse_of(vs@) is Some,
                Option::None => true,
            }),
            r matches Err(e) ==> e == ApiError::MalformedUpstreamData,
            r matches Ok(d) ==> crate_doc_matches_fields(&d, crate_id@, pkg@),
    {
        let version = match &pkg.version {
            Some(vs) => {
                match SemVer::parse(vs.as_str()) {
                    Some(v) => v,
                    None => {
                        return Err(ApiError::MalformedUpstreamData);
                    },
                }
            },
            None => SemVer::new(0, 0, 1),
        };
        proof {
            if pkg.version is None {
                assert(version@.pre =~= Seq::<char>::empty());
                assert(version@.build =~= Seq::<char>::empty());
            }
        }
        let readme = match &pkg.readme {
            Some(s) => s.clone(),
            None => String::from_str("README.md"),
        };
        let repository = match &pkg.repository {
            Some(u) => Some(u.clone()),
            None => match crate_id {
                CrateId::Github(g) => Some(g.into_repo_url()),
                CrateId::CratesIo(_) => None,
            },
        };
        let keywords = match &pkg.keywords {
            Some(ks) => clone_string_vec(ks),
            None => Vec::new(),
        };
        let authors = match &pkg.authors {
            Some(aus) => clone_string_vec(aus),
            None => Vec::new(),
        };
        Ok(
            CrateDoc {
                id: crate_id.into_doc_id(),
                crate_id: crate_id.clone(),
                name: pkg.name.clone(),
                version,
                readme,
                repository,
                description: clone_option_string(&pkg.description),
                keywords,
                authors,
            },
        )
    }

    pub fn doc_id(&self) -> (r: DocId)
        ensures
            r@ == self.id@,
    {
        self.id.clone()
    }

    pub fn crate_id(&self) -> (r: &CrateId)
        ensures
            r@ == self.crate_id@,
    {
        &self.crate_id
    }
}

/// A stored scene: created beside its crate document at ingestion, never
/// deleted; the latest flag is its one mutable field.
#[derive(Debug)]
pub struct SceneDoc {
    /// The primary key: the scene identity's path.
    pub id: DocId,
    pub scene_id: SceneId,
    /// The key of the crate document this scene belongs to.
    pub crate_doc_id: DocId,
    pub name: String,
    pub description: Option<String>,
    /// Whether this scene belongs to the newest known version or commit of
    /// its crate family.
    pub is_latest: bool,
}

/// Everything of a scene but its latest flag, unchanged between two
/// values.
pub open spec fn same_scene_fields(a: &SceneDoc, b: &SceneDoc) -> bool {
    &&& a.id@ == b.id@
    &&& a.scene_id@ == b.scene_id@
    &&& a.crate_doc_id@ == b.crate_doc_id@
    &&& a.name@ == b.name@
    &&& option_string_eq(&a.description, &b.description)
}

impl Clone for SceneDoc {
    fn clone(&self) -> (res: Self)
        ensures
            res == self,
            same_scene_fields(&res, self),
            res.is_latest == self.is_latest,
    {
        SceneDoc {
            id: self.id.clone(),
            scene_id: self.scene_id.clone(),
            crate_doc_id: self.crate_doc_id.clone(),
            name: self.name.clone(),
            description: clone_option_string(&self.description),
            is_latest: self.is_latest,
        }
    }
}

impl SceneDoc {
    /// The document of one declared scene, keyed by its scene identity and
    /// pointing back at its crate document; not yet flagged latest.
    pub fn from_entry(crate_doc: &CrateDoc, entry: &SceneEntry) -> (r: SceneDoc)
        ensures
            r.scene_id@.crate_id == crate_doc.crate_id@,
            r.scene_id@.scene_name == entry.name@,
            r.id@ == scene_id_path_chars(r.scene_id@),
            r.crate_doc_id@ == crate_doc.id@,
            r.name@ == entry.name@,
            r.description.deep_view() == entry@.description,
            !r.is_latest,
    {
        let scene_id = crate_doc.crate_id.into_scene_id(entry.name.as_str());
        let id = scene_id.into_doc_id();
        SceneDoc {
            id,
            scene_id,
            crate_doc_id: crate_doc.doc_id(),
            name: entry.name.clone(),
            description: clone_option_string(&entry.description),
            is_latest: false,
        }
    }

    pub fn doc_id(&self) -> (r: DocId)
        ensures
            r@ == self.id@,
    {
        self.id.clone()
    }
}

/// One scene document per declared scene, in declaration order: each
/// keyed by its scene identity under the crate, pointing back at the
/// crate document, carrying the entry's name and description, and not yet
/// flagged latest.
pub open spec fn scene_docs_match_entries(
    docs: Seq<SceneDoc>,
    d: &CrateDoc,
    entries: Seq<SceneEntryV>,
) -> bool {
    &&& docs.len() == entries.len()
    &&& forall|i: int| 0 <= i < entries.len() ==> {
        &&& (#[trigger] docs[i]).scene_id@.crate_id == d.crate_id@
        &&& docs[i].scene_id@.scene_name == entries[i].name
        &&& docs[i].id@ == scene_id_path_chars(docs[i].scene_id@)
        &&& docs[i].crate_doc_id@ == d.id@
        &&& docs[i].name@ == entries[i].name
        &&& docs[i].description.deep_view() == entries[i].description
        &&& !docs[i].is_latest
    }
}

/// One scene document per declared scene, in declaration order.
pub fn build_scene_docs(crate_doc: &CrateDoc, entries: &Vec<SceneEntry>) -> (r: Vec<SceneDoc>)
    ensures
        scene_docs_match_entries(r@, crate_doc, entries.deep_view()),
{
    let mut out: Vec<SceneDoc> = Vec::new();
    let mut i: usize = 0;
    while i < entries.len()
        invariant
            i <= entries@.len(),
            out@.len() == i,
            scene_docs_match_entries(out@, crate_doc, entries.deep_view().take(i as int)),
        decreases entries@.len() - i,
    {
        proof {
            assert(entries.deep_view()[i as int] == entries@[i as int]@);
        }
        out.push(SceneDoc::from_entry(crate_doc, &entries[i]));
        proof {
            assert(entries.deep_view().take(i + 1) =~= entries.deep_view().take(i as int).push(
                entries.deep_view()[i as int],
            ));
        }
        i = i + 1;
    }
    proof {
        assert(entries.deep_view().take(entries@.len() as int) =~= entries.deep_view());
    }
    out
}

/// The index of the first document with a key, or a negative number where
/// none matches.
pub open spec fn find_crate_by_id(s: Seq<CrateDoc>, id: Seq<char>) -> int
    decreases s.len(),
{
    if s.len() == 0 {
        -1
    } else if s[0].id@ == id {
        0
    } else {
        let rest = find_crate_by_id(s.drop_first(), id);
        if rest < 0 {
            -1
        } else {
            rest + 1
        }
    }
}

/// The index of the first scene document with a key, or a negative number
/// where none matches.
pub open spec fn find_scene_by_id(s: Seq<SceneDoc>, id: Seq<char>) -> int
    decreases s.len(),
{
    if s.len() == 0 {
        -1
    } else if s[0].id@ == id {
        0
    } else {
        let rest = find_scene_by_id(s.drop_first(), id);
        if rest < 0 {
            -1
        } else {
            rest + 1
        }
    }
}

/// The document store: one collection of crate documents and one of scene
/// documents, both keyed by their id.
pub struct DocumentDb {
    pub crates: Vec<CrateDoc>,
    pub scenes: Vec<SceneDoc>,
}

impl DocumentDb {
    pub fn new() -> (r: Self)
        ensures
            r.crates@.len() == 0,
            r.scenes@.len() == 0,
    {
        DocumentDb { crates: Vec::new(), scenes: Vec::new() }
    }

    /// Inserts a crate document once: a document under an identity already
    /// present is left exactly as it was, since a given identity denotes
    /// immutable content.
    pub fn insert_crate(&mut self, doc: CrateDoc)
        ensures
            final(self).scenes@ == old(self).scenes@,
            find_crate_by_id(old(self).crates@, doc.id@) >= 0 ==> final(self).crates@ == old(
                self,
            ).crates@,
            find_crate_by_id(old(self).crates@, doc.id@) < 0 ==> final(self).crates@ == old(
                self,
            ).crates@.push(doc),
    {
        let ghost cs = self.crates@;
        let mut i: usize = 0;
        proof {
            assert(cs.skip(0) =~= cs);
        }
        while i < self.crates.len()
            invariant
                cs == self.crates@,
                cs == old(self).crates@,
                self.scenes@ == old(self).scenes@,
                i <= cs.len(),
                find_crate_by_id(cs, doc.id@) == if find_crate_by_id(cs.skip(i as int), doc.id@)
                    < 0 {
                    -1 as int
                } else {
                    find_crate_by_id(cs.skip(i as int), doc.id@) + i
                },
            decreases cs.len() - i,
        {
            proof {
                assert(cs.skip(i as int)[0] == cs[i as int]);
                assert(cs.skip(i as int).drop_first() =~= cs.skip(i + 1));
            }
            if str_eq(self.crates[i].id.0.as_str(), doc.id.0.as_str()) {
                return ;
            }
            i = i + 1;
        }
        proof {
            assert(cs.skip(cs.len() as int) =~= Seq::<CrateDoc>::empty());
        }
        self.crates.push(doc);
    }

    /// Upserts one scene document by key: the first stored scene of the
    /// same key is replaced, or the document is appended where the key is
    /// new. The write is idempotent, so concurrent recomputations that
    /// agree on the value commute.
    pub fn upsert_scene(&mut self, doc: SceneDoc)
        ensures
            final(self).crates@ == old(self).crates@,
            find_scene_by_id(old(self).scenes@, doc.id@) < 0 ==> final(self).scenes@ == old(
                self,
            ).scenes@.push(doc),
            find_scene_by_id(old(self).scenes@, doc.id@) >= 0 ==> final(self).scenes@ == old(
                self,
            ).scenes@.update(find_scene_by_id(old(self).scenes@, doc.id@), doc),
    {
        let ghost ss = self.scenes@;
        let mut i: usize = 0;
        proof {
            assert(ss.skip(0) =~= ss);
        }
        while i < self.scenes.len()
            invariant
                ss == self.scenes@,
                ss == old(self).scenes@,
                self.crates@ == old(self).crates@,
                i <= ss.len(),
                forall|j: int| 0 <= j < i ==> (#[trigger] ss[j]).id@ != doc.id@,
                find_scene_by_id(ss, doc.id@) == if find_scene_by_id(ss.skip(i as int), doc.id@)
                    < 0 {
                    -1 as int
                } else {
                    find_scene_by_id(ss.skip(i as int), doc.id@) + i
                },
            decreases ss.len() - i,
        {
            proof {
                assert(ss.skip(i as int)[0] == ss[i as int]);
                assert(ss.skip(i as int).drop_first() =~= ss.skip(i + 1));
            }
            if str_eq(self.scenes[i].id.0.as_str(), doc.id.0.as_str()) {
                self.scenes[i] = doc;
                return ;
            }
            i = i + 1;
        }
        proof {
            assert(ss.skip(ss.len() as int) =~= Seq::<SceneDoc>::empty());
        }
        self.scenes.push(doc);
    }

    /// Upserts a batch of scene documents in order: afterwards every key
    /// of the batch is present in the store.
    pub fn upsert_scenes(&mut self, docs: Vec<SceneDoc>)
        ensures
            final(self).crates@ == old(self).crates@,
            forall|i: int|
                0 <= i < docs@.len() ==> find_scene_by_id(
                    final(self).scenes@,
                    (#[trigger] docs@[i]).id@,
                ) >= 0,
    {
        let ghost orig = docs@;
        let mut batch = docs;
        while batch.len() > 0
            invariant
                self.crates@ == old(self).crates@,
                batch@.len() <= orig.len(),
                batch@ == orig.skip(orig.len() - batch@.len()),
                forall|j: int|
                    0 <= j < orig.len() - batch@.len() ==> find_scene_by_id(
                        self.scenes@,
                        (#[trigger] orig[j]).id@,
                    ) >= 0,
            decreases batch@.len(),
        {
            let ghost pre = batch@;
            let ghost done = orig.len() - pre.len();
            let doc = batch.remove(0);
            proof {
                assert(doc == pre[0]);
                assert(doc == orig[done]);
                assert(batch@ =~= orig.skip(done + 1));
            }
            let ghost scenes_pre = self.scenes@;
            let ghost docid = doc.id@;
            self.upsert_scene(doc);
            proof {
                let fidx = find_scene_by_id(scenes_pre, docid);
                if fidx < 0 {
                    assert forall|j: int| 0 <= j <= done implies find_scene_by_id(
                        self.scenes@,
                        (#[trigger] orig[j]).id@,
                    ) >= 0 by {
                        lemma_find_scene_push(scenes_pre, orig[done], orig[j].id@);
                        if j < done {
                            assert(find_scene_by_id(scenes_pre, orig[j].id@) >= 0);
                        }
                    }
                } else {
                    lemma_find_scene_in_range(scenes_pre, docid);
                    assert forall|j: int| 0 <= j <= done implies find_scene_by_id(
                        self.scenes@,
                        (#[trigger] orig[j]).id@,
                    ) >= 0 by {
                        lemma_find_scene_at(scenes_pre, docid);
                        lemma_find_scene_update_same(scenes_pre, fidx, orig[done], orig[j].id@);
                        if j < done {
                            assert(find_scene_by_id(scenes_pre, orig[j].id@) >= 0);
                        }
                    }
                }
            }
        }
        proof {
            assert(orig.len() - 0 == orig.len());
        }
    }

    /// The stored crate document of an identity, where one was ingested.
    pub fn get_crate_doc(&self, crate_id: &CrateId) -> (r: Option<&CrateDoc>)
        ensures
            r matches Some(d) ==> d.crate_id@ == crate_id@ && (exists|i: int|
                0 <= i < self.crates@.len() && *d == #[trigger] self.crates@[i]),
            r is None ==> forall|i: int|
                0 <= i < self.crates@.len() ==> (#[trigger] self.crates@[i]).crate_id@
                    != crate_id@,
    {
        let mut i: usize = 0;
        while i < self.crates.len()
            invariant
                i <= self.crates@.len(),
                forall|j: int|
                    0 <= j < i ==> (#[trigger] self.crates@[j]).crate_id@ != crate_id@,
            decreases self.crates@.len() - i,
        {
            if self.crates[i].crate_id == *crate_id {
                return Some(&self.crates[i]);
            }
            i = i + 1;
        }
        None
    }

    /// The stored document of one scene identity.
    pub fn get_scene_doc(&self, scene_id: &SceneId) -> (r: Option<&SceneDoc>)
        ensures
            r matches Some(d) ==> d.scene_id@ == scene_id@ && (exists|i: int|
                0 <= i < self.scenes@.len() && *d == #[trigger] self.scenes@[i]),
            r is None ==> forall|i: int|
                0 <= i < self.scenes@.len() ==> (#[trigger] self.scenes@[i]).scene_id@
                    != scene_id@,
    {
        let mut i: usize = 0;
        while i < self.scenes.len()
            invariant
                i <= self.scenes@.len(),
                forall|j: int|
                    0 <= j < i ==> (#[trigger] self.scenes@[j]).scene_id@ != scene_id@,
            decreases self.scenes@.len() - i,
        {
            if self.scenes[i].scene_id == *scene_id {
                return Some(&self.scenes[i]);
            }
            i = i + 1;
        }
        None
    }

    /// Every stored scene of one crate identity, in storage order.
    pub fn all_scene_docs(&self, crate_id: &CrateId) -> (r: Vec<SceneDoc>)
        ensures
            r@ == self.scenes@.filter(|d: SceneDoc| d.scene_id@.crate_id == crate_id@),
    {
        let ghost pred = |d: SceneDoc| d.scene_id@.crate_id == crate_id@;
        let mut out: Vec<SceneDoc> = Vec::new();
        let mut i: usize = 0;
        proof {
            reveal(Seq::filter);
            assert(self.scenes@.take(0) =~= Seq::<SceneDoc>::empty());
            assert(out@ =~= self.scenes@.take(0).filter(pred));
        }
        while i < self.scenes.len()
            invariant
                i <= self.scenes@.len(),
                out@ == self.scenes@.take(i as int).filter(
                    |d: SceneDoc| d.scene_id@.crate_id == crate_id@,
                ),
            decreases self.scenes@.len() - i,
        {
            proof {
                reveal(Seq::filter);
                assert(self.scenes@.take(i + 1).drop_last() =~= self.scenes@.take(i as int));
                assert(self.scenes@.take(i + 1).last() == self.scenes@[i as int]);
            }
            let scene = &self.scenes[i];
            let matches_crate = match (&scene.scene_id.crate_id, crate_id) {
                (CrateId::CratesIo(a), CrateId::CratesIo(b)) => a == b,
                (CrateId::Github(a), CrateId::Github(b)) => a == b,
                _ => false,
            };
            if matches_crate {
                out.push(scene.clone());
            }
            i = i + 1;
        }
        proof {
            assert(self.scenes@.take(self.scenes@.len() as int) =~= self.scenes@);
        }
        out
    }

    /// Whether a scene key is stored.
    pub fn has_scene(&self, id: &DocId) -> (r: bool)
        ensures
            r == (find_scene_by_id(self.scenes@, id@) >= 0),
    {
        let ghost ss = self.scenes@;
        let mut i: usize = 0;
        proof {
            assert(ss.skip(0) =~= ss);
        }
        while i < self.scenes.len()
            invariant
                ss == self.scenes@,
                i <= ss.len(),
                find_scene_by_id(ss, id@) == if find_scene_by_id(ss.skip(i as int), id@) < 0 {
                    -1 as int
                } else {
                    find_scene_by_id(ss.skip(i as int), id@) + i
                },
            decreases ss.len() - i,
        {
            proof {
                assert(ss.skip(i as int)[0] == ss[i as int]);
                assert(ss.skip(i as int).drop_first() =~= ss.skip(i + 1));
            }
            if str_eq(self.scenes[i].id.0.as_str(), id.0.as_str()) {
                return true;
            }
            i = i + 1;
        }
        proof {
            assert(ss.skip(ss.len() as int) =~= Seq::<SceneDoc>::empty());
        }
        false
    }

    /// Empties both collections, for populate runs against disposable
    /// environments.
    pub fn clear(&mut self)
        ensures
            final(self).crates@.len() == 0,
            final(self).scenes@.len() == 0,
    {
        self.crates.clear();
        self.scenes.clear();
    }
}

/// A matching index is inside the sequence.
pub proof fn lemma_find_scene_in_range(s: Seq<SceneDoc>, id: Seq<char>)
    ensures
        find_scene_by_id(s, id) < s.len(),
    decreases s.len(),
{
    if s.len() > 0 && s[0].id@ != id {
        lemma_find_scene_in_range(s.drop_first(), id);
    }
}

/// The found index carries the key looked for.
pub proof fn lemma_find_scene_at(s: Seq<SceneDoc>, id: Seq<char>)
    requires
        find_scene_by_id(s, id) >= 0,
    ensures
        find_scene_by_id(s, id) < s.len(),
        s[find_scene_by_id(s, id)].id@ == id,
    decreases s.len(),
{
    if s.len() > 0 && s[0].id@ != id {
        lemma_find_scene_at(s.drop_first(), id);
    }
}

/// How appending one document moves the first match of a key.
pub proof fn lemma_find_scene_push(s: Seq<SceneDoc>, x: SceneDoc, id: Seq<char>)
    ensures
        find_scene_by_id(s, id) >= 0 ==> find_scene_by_id(s.push(x), id) == find_scene_by_id(
            s,
            id,
        ),
        find_scene_by_id(s, id) < 0 && x.id@ == id ==> find_scene_by_id(s.push(x), id)
            == s.len(),
        find_scene_by_id(s, id) < 0 && x.id@ != id ==> find_scene_by_id(s.push(x), id) < 0,
    decreases s.len(),
{
    if s.len() == 0 {
        assert(s.push(x)[0] == x);
        assert(s.push(x).drop_first() =~= Seq::<SceneDoc>::empty());
        assert(find_scene_by_id(Seq::<SceneDoc>::empty(), id) == -1);
    } else {
        assert(s.push(x)[0] == s[0]);
        assert(s.push(x).drop_first() =~= s.drop_first().push(x));
        lemma_find_scene_push(s.drop_first(), x, id);
    }
}

/// Replacing a document by one of the same key moves no first match.
pub proof fn lemma_find_scene_update_same(s: Seq<SceneDoc>, k: int, x: SceneDoc, id: Seq<char>)
    requires
        0 <= k < s.len(),
        x.id@ == s[k].id@,
    ensures
        find_scene_by_id(s.update(k, x), id) == find_scene_by_id(s, id),
    decreases s.len(),
{
    if k == 0 {
        assert(s.update(0, x)[0].id@ == s[0].id@);
        assert(s.update(0, x).drop_first() =~= s.drop_first());
    } else {
        assert(s.update(k, x)[0] == s[0]);
        assert(s.update(k, x).drop_first() =~= s.drop_first().update(k - 1, x));
        lemma_find_scene_update_same(s.drop_first(), k - 1, x, id);
    }
}

/// Two stores whose documents carry the same keys at every index find
/// every key at the same place.
pub proof fn lemma_find_scene_same_ids(a: Seq<SceneDoc>, b: Seq<SceneDoc>, id: Seq<char>)
    requires
        a.len() == b.len(),
        forall|i: int| 0 <= i < a.len() ==> (#[trigger] a[i]).id@ == b[i].id@,
    ensures
        find_scene_by_id(a, id) == find_scene_by_id(b, id),
    decreases a.len(),
{
    if a.len() > 0 {
        lemma_find_scene_same_ids(a.drop_first(), b.drop_first(), id);
    }
}

/// A store holding a document under a key finds that key.
pub proof fn lemma_find_crate_exists(s: Seq<CrateDoc>, id: Seq<char>)
    requires
        exists|i: int| 0 <= i < s.len() && (#[trigger] s[i]).id@ == id,
    ensures
        find_crate_by_id(s, id) >= 0,
    decreases s.len(),
{
    if s[0].id@ != id {
        let w = choose|i: int| 0 <= i < s.len() && (#[trigger] s[i]).id@ == id;
        assert(s.drop_first()[w - 1].id@ == id);
        lemma_find_crate_exists(s.drop_first(), id);
    }
}

/// Appending a crate document makes its key found.
pub proof fn lemma_find_crate_push(s: Seq<CrateDoc>, x: CrateDoc, id: Seq<char>)
    ensures
        find_crate_by_id(s, id) >= 0 ==> find_crate_by_id(s.push(x), id) == find_crate_by_id(
            s,
            id,
        ),
        find_crate_by_id(s, id) < 0 && x.id@ == id ==> find_crate_by_id(s.push(x), id)
            == s.len(),
        find_crate_by_id(s, id) < 0 && x.id@ != id ==> find_crate_by_id(s.push(x), id) < 0,
    decreases s.len(),
{
    if s.len() == 0 {
        assert(s.push(x)[0] == x);
        assert(s.push(x).drop_first() =~= Seq::<CrateDoc>::empty());
        assert(find_crate_by_id(Seq::<CrateDoc>::empty(), id) == -1);
    } else {
        assert(s.push(x)[0] == s[0]);
        assert(s.push(x).drop_first() =~= s.drop_first().push(x));
        lemma_find_crate_push(s.drop_first(), x, id);
    }
}

} // verus!
