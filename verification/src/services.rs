//! The service facade: the stores, the registry cache and the throttle
//! composed behind the operations the route layer consumes. The network
//! fetches themselves happen outside the library; each operation takes the
//! fetched upstream values it may need and decides everything else.

use vstd::prelude::*;
use crate::docs::{
    build_scene_docs, crate_doc_matches_fields, find_crate_by_id, find_scene_by_id,
    lemma_find_crate_exists, lemma_find_crate_push, lemma_find_scene_same_ids,
    scene_docs_match_entries, CrateDoc, DocumentDb, SceneDoc,
};
use crate::errors::ApiError;
use crate::ids::{crate_id_path_chars, CrateId, CrateIdV, SceneId};
use crate::latest::{
    crates_io_converged, github_converged, lemma_github_recompute_converges,
    lemma_recompute_converges, NewestUpstream, SetLatestScenesInDb,
};
use crate::manifest::{
    manifest_outcome_ties, manifest_read_of, read_package_fields, ManifestReadV, PackageFields,
};
use crate::registry::{LocalCacheRegistry, Throttle};
use crate::storage::{assoc, ByteStore};
use crate::unpack::{lock_key, manifest_key, must_read_of, CratesIoFiles, MustReadV};

verus! {

/// The deployment mode the service runs against; destructive operations
/// are gated on it.
#[derive(PartialEq, Eq, Structural, Clone, Copy, Debug)]
pub enum ApiEnvironment {
    Local,
    Staging,
    Prod,
}

impl Default for ApiEnvironment {
    fn default() -> (r: Self)
        ensures
            r == ApiEnvironment::Local,
    {
        ApiEnvironment::Local
    }
}

/// The upstream values an ingestion may consume, fetched by the caller
/// beforehand: the archive of a registry crate where the store does not
/// hold its files yet, the manifest and lock bytes of a git crate, and the
/// newest state of the crate's family for the latest-flag recomputation.
pub struct FetchedUpstream {
    pub tarball: Option<Vec<u8>>,
    pub manifest_bytes: Option<Vec<u8>>,
    pub lock_bytes: Option<Vec<u8>>,
    pub newest: NewestUpstream,
}

/// The composed service state.
pub struct Services {
    pub storage: ByteStore,
    pub registry: LocalCacheRegistry,
    pub db: DocumentDb,
    pub throttle: Throttle,
    pub env: ApiEnvironment,
}

impl Services {
    /// A fresh service over empty stores, in the default environment.
    pub fn init() -> (r: Self)
        ensures
            r.env == ApiEnvironment::Local,
            r.db.crates@.len() == 0,
            r.db.scenes@.len() == 0,
    {
        Self::init_with_env(ApiEnvironment::Local)
    }

    pub fn init_with_env(env: ApiEnvironment) -> (r: Self)
        ensures
            r.env == env,
            r.db.crates@.len() == 0,
            r.db.scenes@.len() == 0,
            r.storage.contents() == Seq::<(Seq<char>, Seq<u8>)>::empty(),
            r.throttle.last_fetch_millis is None,
    {
        Services {
            storage: ByteStore::new(),
            registry: LocalCacheRegistry::new(),
            db: DocumentDb::new(),
            throttle: Throttle::new(),
            env,
        }
    }

    pub fn storage(&self) -> (r: &ByteStore)
        ensures
            r == &self.storage,
    {
        &self.storage
    }

    pub fn registry(&self) -> (r: &LocalCacheRegistry)
        ensures
            r == &self.registry,
    {
        &self.registry
    }

    pub fn db(&self) -> (r: &DocumentDb)
        ensures
            r == &self.db,
    {
        &self.db
    }

    /// The package fields of a crate's manifest: a registry crate's out
    /// of its unpacked archive, a git crate's out of the fetched bytes;
    /// either way the result is exactly the manifest read of the bytes
    /// that were served.
    pub fn cargo_manifest(
        &mut self,
        crate_id: &CrateId,
        fetched: &FetchedUpstream,
    ) -> (r: Result<PackageFields, ApiError>)
        requires
            (old(self).manifest_available(crate_id, fetched)),
        ensures
            final(self).registry == old(self).registry,
            final(self).db == old(self).db,
            final(self).env == old(self).env,
            r matches Err(e) ==> (e == ApiError::MalformedUpstreamData || e
                == ApiError::UnsupportedManifestShape || e == ApiError::IntegrityViolation),
            exists|added: Seq<(Seq<char>, Seq<u8>)>|
                final(self).storage.contents() == #[trigger] (added
                    + old(self).storage.contents()),
            crate_id matches CrateId::Github(_) ==> ({
                &&& final(self).storage.contents() == old(self).storage.contents()
                &&& fetched.manifest_bytes matches Some(b) && manifest_outcome_ties(&r, b@)
            }),
            crate_id matches CrateId::CratesIo(id) ==> (match must_read_of(
                old(self).storage.contents(),
                id@,
                manifest_key(id@),
                fetched.tarball.deep_view(),
            ) {
                MustReadV::Bytes(mb) => manifest_outcome_ties(&r, mb),
                MustReadV::BadArchive => r matches Err(e) && e == ApiError::MalformedUpstreamData
                    && final(self).storage.contents() == old(self).storage.contents(),
                MustReadV::Integrity => r matches Err(e) && e == ApiError::IntegrityViolation,
            }),
    {
        proof {
            assert(self.storage.contents() =~= Seq::<(Seq<char>, Seq<u8>)>::empty()
                + self.storage.contents());
        }
        match crate_id {
            CrateId::CratesIo(id) => {
                let tarball = fetched.tarball.as_ref();
                proof {
                    assert(tarball.deep_view() =~~= fetched.tarball.deep_view());
                }
                CratesIoFiles::cargo_manifest(&mut self.storage, id, tarball)
            },
            CrateId::Github(_) => {
                match &fetched.manifest_bytes {
                    Some(b) => read_package_fields(b),
                    None => {
                        proof {
                            assert(false);
                        }
                        Err(ApiError::NotFound)
                    },
                }
            },
        }
    }

    /// Whether the store already holds a crate document of this identity,
    /// so that resolving it needs nothing fetched.
    pub open spec fn knows_crate(&self, cid: CrateIdV) -> bool {
        exists|i: int|
            0 <= i < self.db.crates@.len() && (#[trigger] self.db.crates@[i]).crate_id@ == cid
    }

    /// Whether the inputs at hand can produce the crate's manifest.
    pub open spec fn manifest_available(&self, crate_id: &CrateId, fetched: &FetchedUpstream) -> bool {
        match crate_id {
            CrateId::CratesIo(id) => assoc(self.storage.contents(), manifest_key(id@)) is Some
                || fetched.tarball is Some,
            CrateId::Github(_) => fetched.manifest_bytes is Some,
        }
    }

    /// Whether the inputs at hand can produce the crate's lock file.
    pub open spec fn lock_available(&self, crate_id: &CrateId, fetched: &FetchedUpstream) -> bool {
        match crate_id {
            CrateId::CratesIo(id) => assoc(self.storage.contents(), lock_key(id@)) is Some
                || fetched.tarball is Some,
            CrateId::Github(_) => fetched.lock_bytes is Some,
        }
    }

    /// The raw lock file of a crate. A registry crate's lives at the
    /// archive root, whatever sub-manifest the identity names; a git
    /// crate's was fetched from beside its manifest and is returned as it
    /// came.
    pub fn cargo_lock(
        &mut self,
        crate_id: &CrateId,
        fetched: &FetchedUpstream,
    ) -> (r: Result<Vec<u8>, ApiError>)
        requires
            (old(self).lock_available(crate_id, fetched)),
        ensures
            final(self).registry == old(self).registry,
            final(self).db == old(self).db,
            final(self).env == old(self).env,
            r matches Err(e) ==> (e == ApiError::MalformedUpstreamData || e
                == ApiError::IntegrityViolation),
            crate_id matches CrateId::Github(_) ==> ({
                &&& final(self).storage.contents() == old(self).storage.contents()
                &&& fetched.lock_bytes matches Some(b) && (r matches Ok(rb) && rb@ == b@)
            }),
            crate_id matches CrateId::CratesIo(id) ==> (match must_read_of(
                old(self).storage.contents(),
                id@,
                lock_key(id@),
                fetched.tarball.deep_view(),
            ) {
                MustReadV::Bytes(b) => r matches Ok(rb) && rb@ == b,
                MustReadV::BadArchive => r matches Err(e) && e == ApiError::MalformedUpstreamData
                    && final(self).storage.contents() == old(self).storage.contents(),
                MustReadV::Integrity => r matches Err(e) && e == ApiError::IntegrityViolation,
            }),
    {
        match crate_id {
            CrateId::CratesIo(id) => {
                let tarball = fetched.tarball.as_ref();
                proof {
                    assert(tarball.deep_view() =~~= fetched.tarball.deep_view());
                }
                CratesIoFiles::cargo_lock(&mut self.storage, id, tarball)
            },
            CrateId::Github(_) => {
                match &fetched.lock_bytes {
                    Some(b) => Ok(crate::storage::clone_bytes(b)),
                    None => {
                        proof {
                            assert(false);
                        }
                        Err(ApiError::NotFound)
                    },
                }
            },
        }
    }

    /// Ingests one crate: its manifest is fetched and read, the crate
    /// document built from its fields, one scene document constructed per
    /// declared scene, everything persisted, and the family's latest flags
    /// recomputed. Afterwards the crate document's key is stored, every
    /// returned scene document's key is stored, and the family's flags are
    /// converged on the newest upstream state; a failing ingestion leaves
    /// the document store exactly as it was — nothing partial is inserted.
    pub fn unpack_crate_to_db(
        &mut self,
        crate_id: &CrateId,
        fetched: &FetchedUpstream,
    ) -> (r: Result<(CrateDoc, Vec<SceneDoc>), ApiError>)
        requires
            old(self).manifest_available(crate_id, fetched),
            old(self).lock_available(crate_id, fetched),
            (crate_id matches CrateId::CratesIo(_)) == (fetched.newest
                matches NewestUpstream::RegistryVersion(_)),
        ensures
            final(self).env == old(self).env,
            final(self).registry == old(self).registry,
            r matches Err(e) ==> (final(self).db == old(self).db && (e
                == ApiError::MalformedUpstreamData || e == ApiError::UnsupportedManifestShape || e
                == ApiError::IntegrityViolation)),
            (match (crate_id, &fetched.manifest_bytes) {
                (CrateId::Github(_), Option::Some(b)) => manifest_read_of(b@)
                    is NoPackage,
                _ => false,
            }) ==> (r matches Err(e) && e == ApiError::UnsupportedManifestShape),
            (match crate_id {
                CrateId::CratesIo(id) => (match must_read_of(
                    old(self).storage.contents(),
                    id@,
                    manifest_key(id@),
                    fetched.tarball.deep_view(),
                ) {
                    MustReadV::Bytes(mb) => manifest_read_of(mb) is NoPackage,
                    _ => false,
                }),
                CrateId::Github(_) => false,
            }) ==> (r matches Err(e) && e == ApiError::UnsupportedManifestShape),
            r matches Ok(p) ==> (match crate_id {
                CrateId::Github(_) => fetched.manifest_bytes matches Some(b) && (manifest_read_of(
                    b@,
                ) matches ManifestReadV::Fields(f) && crate_doc_matches_fields(&p.0, crate_id@, f)
                    && scene_docs_match_entries(p.1@, &p.0, f.scenes)),
                CrateId::CratesIo(id) => (match must_read_of(
                    old(self).storage.contents(),
                    id@,
                    manifest_key(id@),
                    fetched.tarball.deep_view(),
                ) {
                    MustReadV::Bytes(mb) => manifest_read_of(mb) matches ManifestReadV::Fields(f)
                        && crate_doc_matches_fields(&p.0, crate_id@, f) && scene_docs_match_entries(
                        p.1@,
                        &p.0,
                        f.scenes,
                    ),
                    _ => false,
                }),
            }),
            r matches Ok(p) ==> ({
                &&& p.0.crate_id@ == crate_id@
                &&& p.0.id@ == crate_id_path_chars(crate_id@)
                &&& find_crate_by_id(final(self).db.crates@, p.0.id@) >= 0
                &&& forall|i: int|
                    0 <= i < p.1@.len() ==> ((#[trigger] p.1@[i]).scene_id@.crate_id == crate_id@
                        && p.1@[i].crate_doc_id@ == p.0.id@)
                &&& forall|i: int|
                    0 <= i < p.1@.len() ==> find_scene_by_id(
                        final(self).db.scenes@,
                        (#[trigger] p.1@[i]).id@,
                    ) >= 0
                &&& (match (crate_id, &fetched.newest) {
                    (CrateId::CratesIo(c), NewestUpstream::RegistryVersion(v)) => crates_io_converged(
                        final(self).db.scenes@,
                        c.crate_name@,
                        v@,
                    ),
                    (CrateId::Github(g), NewestUpstream::RepoHeadCommit(h)) => github_converged(
                        final(self).db.scenes@,
                        g.owner@,
                        g.repo@,
                        g.manifest_dir@,
                        h@,
                    ),
                    _ => false,
                })
            }),
    {
        let ghost storage_before = self.storage.contents();
        let pkg = match self.cargo_manifest(crate_id, fetched) {
            Ok(p) => p,
            Err(e) => {
                return Err(e);
            },
        };
        proof {
            if fetched.tarball is None {
                match crate_id {
                    CrateId::CratesIo(id) => {
                        let added = choose|added: Seq<(Seq<char>, Seq<u8>)>|
                            self.storage.contents() == #[trigger] (added + storage_before);
                        crate::storage::lemma_assoc_prepend(added, storage_before, lock_key(id@));
                    },
                    CrateId::Github(_) => {},
                }
            }
        }
        let crate_doc = match CrateDoc::from_package(crate_id, &pkg) {
            Ok(d) => d,
            Err(e) => {
                return Err(e);
            },
        };
        if pkg.has_metadata {
            match self.cargo_lock(crate_id, fetched) {
                Ok(_lock) => {},
                Err(e) => {
                    return Err(e);
                },
            }
        }
        let scene_docs = build_scene_docs(&crate_doc, &pkg.scenes);
        let doc_for_db = crate_doc.clone();
        let ghost dbdoc = doc_for_db;
        let ghost crates_before = self.db.crates@;
        self.db.insert_crate(doc_for_db);
        proof {
            lemma_find_crate_push(crates_before, dbdoc, crate_doc.id@);
        }
        let stored_docs = clone_scene_docs(&scene_docs);
        let ghost storedv = stored_docs@;
        self.db.upsert_scenes(stored_docs);
        let ghost scenes_mid = self.db.scenes@;
        SetLatestScenesInDb::set_latest_scenes_in_db(&mut self.db.scenes, crate_id, &fetched.newest);
        proof {
            assert forall|i: int| 0 <= i < scene_docs@.len() implies find_scene_by_id(
                self.db.scenes@,
                (#[trigger] scene_docs@[i]).id@,
            ) >= 0 by {
                assert(storedv[i].id@ == scene_docs@[i].id@);
                assert(find_scene_by_id(scenes_mid, storedv[i].id@) >= 0);
                lemma_find_scene_same_ids(scenes_mid, self.db.scenes@, scene_docs@[i].id@);
            }
            match (crate_id, &fetched.newest) {
                (CrateId::CratesIo(c), NewestUpstream::RegistryVersion(v)) => {
                    lemma_recompute_converges(
                        scenes_mid,
                        self.db.scenes@,
                        c.crate_name@,
                        v@,
                    );
                },
                (CrateId::Github(g), NewestUpstream::RepoHeadCommit(h)) => {
                    lemma_github_recompute_converges(
                        scenes_mid,
                        self.db.scenes@,
                        g.owner@,
                        g.repo@,
                        g.manifest_dir@,
                        h@,
                    );
                },
                _ => {},
            }
        }
        Ok((crate_doc, scene_docs))
    }

    /// The crate document of an identity: served from the store where the
    /// identity was ingested before — needing nothing fetched — and
    /// ingested first otherwise.
    pub fn crate_doc(&mut self, crate_id: &CrateId, fetched: &FetchedUpstream) -> (r: Result<
        CrateDoc,
        ApiError,
    >)
        requires
            old(self).knows_crate(crate_id@) || (old(self).manifest_available(crate_id, fetched)
                && old(self).lock_available(crate_id, fetched) && ((crate_id
                matches CrateId::CratesIo(_)) == (fetched.newest
                matches NewestUpstream::RegistryVersion(_)))),
        ensures
            final(self).env == old(self).env,
            final(self).registry == old(self).registry,
            old(self).knows_crate(crate_id@) ==> r is Ok,
            r matches Err(e) ==> (e == ApiError::MalformedUpstreamData || e
                == ApiError::UnsupportedManifestShape || e == ApiError::IntegrityViolation),
            r matches Ok(d) ==> (d.crate_id@ == crate_id@ && find_crate_by_id(
                final(self).db.crates@,
                d.id@,
            ) >= 0),
            r is Err ==> final(self).db == old(self).db,
    {
        let cached = match self.db.get_crate_doc(crate_id) {
            Some(d) => Some(d.clone()),
            None => None,
        };
        if let Some(d) = cached {
            proof {
                assert(exists|i: int|
                    0 <= i < self.db.crates@.len() && (#[trigger] self.db.crates@[i]).id@
                        == d.id@);
                lemma_find_crate_exists(self.db.crates@, d.id@);
            }
            return Ok(d);
        }
        match self.unpack_crate_to_db(crate_id, fetched) {
            Ok((d, _scenes)) => Ok(d),
            Err(e) => Err(e),
        }
    }

    /// Every stored scene of an identity, the identity ingested first
    /// where the store does not know it yet: exactly the stored scenes
    /// whose identity names this crate, in storage order.
    pub fn all_scene_docs(&mut self, crate_id: &CrateId, fetched: &FetchedUpstream) -> (r: Result<
        Vec<SceneDoc>,
        ApiError,
    >)
        requires
            old(self).knows_crate(crate_id@) || (old(self).manifest_available(crate_id, fetched)
                && old(self).lock_available(crate_id, fetched) && ((crate_id
                matches CrateId::CratesIo(_)) == (fetched.newest
                matches NewestUpstream::RegistryVersion(_)))),
        ensures
            final(self).env == old(self).env,
            final(self).registry == old(self).registry,
            old(self).knows_crate(crate_id@) ==> r is Ok,
            r matches Err(e) ==> (e == ApiError::MalformedUpstreamData || e
                == ApiError::UnsupportedManifestShape || e == ApiError::IntegrityViolation),
            r matches Ok(v) ==> v@ == final(self).db.scenes@.filter(
                |d: SceneDoc| d.scene_id@.crate_id == crate_id@,
            ),
            r matches Ok(v) ==> forall|i: int|
                0 <= i < v@.len() ==> (#[trigger] v@[i]).scene_id@.crate_id == crate_id@,
            r is Err ==> final(self).db == old(self).db,
    {
        let known = match self.db.get_crate_doc(crate_id) {
            Some(_) => true,
            None => false,
        };
        if !known {
            match self.unpack_crate_to_db(crate_id, fetched) {
                Ok(_) => {},
                Err(e) => {
                    return Err(e);
                },
            }
        }
        let scenes = self.db.all_scene_docs(crate_id);
        proof {
            let pred = |d: SceneDoc| d.scene_id@.crate_id == crate_id@;
            assert forall|i: int| 0 <= i < scenes@.len() implies (#[trigger] scenes@[i]).scene_id@.crate_id
                == crate_id@ by {
                self.db.scenes@.lemma_filter_pred(pred, i);
            }
        }
        Ok(scenes)
    }

    /// The document of one scene, its crate ingested first where the
    /// store does not know it yet; a scene the crate does not declare is
    /// not found, and then no stored scene carries its identity.
    pub fn scene_doc(&mut self, scene_id: &SceneId, fetched: &FetchedUpstream) -> (r: Result<
        SceneDoc,
        ApiError,
    >)
        requires
            old(self).knows_crate(scene_id.crate_id@) || (old(self).manifest_available(
                &scene_id.crate_id,
                fetched,
            ) && old(self).lock_available(&scene_id.crate_id, fetched) && ((scene_id.crate_id
                matches CrateId::CratesIo(_)) == (fetched.newest
                matches NewestUpstream::RegistryVersion(_)))),
        ensures
            final(self).env == old(self).env,
            final(self).registry == old(self).registry,
            old(self).knows_crate(scene_id.crate_id@) ==> (r is Ok || (match r {
                Result::Err(e) => e == ApiError::NotFound,
                Result::Ok(_) => false,
            })),
            r matches Err(e) ==> (e == ApiError::MalformedUpstreamData || e
                == ApiError::UnsupportedManifestShape || e == ApiError::IntegrityViolation || e
                == ApiError::NotFound),
            r matches Ok(d) ==> (d.scene_id@ == scene_id@ && (exists|i: int|
                0 <= i < final(self).db.scenes@.len() && (#[trigger] final(self).db.scenes@[i])
                    == d)),
            (match r {
                Result::Err(e) => e == ApiError::NotFound,
                Result::Ok(_) => false,
            }) ==> forall|i: int|
                0 <= i < final(self).db.scenes@.len() ==> (#[trigger] final(self).db.scenes@[i]).scene_id@
                    != scene_id@,
    {
        let known = match self.db.get_crate_doc(&scene_id.crate_id) {
            Some(_) => true,
            None => false,
        };
        if !known {
            match self.unpack_crate_to_db(&scene_id.crate_id, fetched) {
                Ok(_) => {},
                Err(e) => {
                    return Err(e);
                },
            }
        }
        match self.db.get_scene_doc(scene_id) {
            Some(d) => Ok(d.clone()),
            None => Err(ApiError::NotFound),
        }
    }

    /// Empties the document store for a populate run — refused outright
    /// against a production-tagged environment.
    pub fn clear_for_populate(&mut self) -> (r: Result<(), ApiError>)
        ensures
            old(self).env == ApiEnvironment::Prod ==> (r matches Err(e) && e
                == ApiError::PolicyRefusal && final(self).db == old(self).db),
            old(self).env != ApiEnvironment::Prod ==> (r is Ok && final(self).db.crates@.len() == 0
                && final(self).db.scenes@.len() == 0),
            final(self).env == old(self).env,
    {
        if matches!(self.env, ApiEnvironment::Prod) {
            return Err(ApiError::PolicyRefusal);
        }
        self.db.clear();
        Ok(())
    }
}

fn clone_scene_docs(docs: &Vec<SceneDoc>) -> (r: Vec<SceneDoc>)
    ensures
        r@.len() == docs@.len(),
        forall|i: int|
            0 <= i < docs@.len() ==> (crate::docs::same_scene_fields(
                &#[trigger] r@[i],
                &docs@[i],
            ) && r@[i].is_latest == docs@[i].is_latest),
{
    let mut out: Vec<SceneDoc> = Vec::new();
    let mut i: usize = 0;
    while i < docs.len()
        invariant
            i <= docs@.len(),
            out@.len() == i,
            forall|j: int|
                0 <= j < i ==> (crate::docs::same_scene_fields(&#[trigger] out@[j], &docs@[j])
                    && out@[j].is_latest == docs@[j].is_latest),
        decreases docs@.len() - i,
    {
        out.push(docs[i].clone());
        i = i + 1;
    }
    out
}

/// The populate request: local crate paths to package and ingest, and
/// whether tarballs are rebuilt even where cached.
pub struct PopulateCommand {
    pub paths: Vec<String>,
    pub force_tarball: bool,
}

} // verus!
