//! The archive unpack cache: a fetched registry tarball is decompressed
//! once, every file written under the crate's unpack prefix in one batch,
//! and later reads are served from the store. The presence of the manifest
//! file under the prefix is the witness that the unpack has happened.

use vstd::prelude::*;
use crate::errors::ApiError;
use crate::manifest::{manifest_outcome_ties, read_package_fields, PackageFields};
use crate::ids::{CratesIoCrateId, CratesIoCrateIdV};
use crate::storage::{assoc, clone_bytes, unpkg_path, unpkg_path_chars, ByteStore};
use crate::strutil::{join_with, split_on, split_str};

verus! {

/// The decoded entry list of a gzipped tar archive: each entry's path
/// beside its content, in archive order; nothing where the archive does
/// not decode.
pub uninterp spec fn untar_gz_of(bytes: Seq<u8>) -> Option<Seq<(Seq<char>, Seq<u8>)>>;

/// Relies on `flate2::read::GzDecoder` and `tar::Archive` (`entries`,
/// `Entry::path`, and the entry's `Read` implementation): decompresses and
/// walks a gzipped tar archive, collecting every entry. A failure on any
/// single entry fails the whole read, an entry path that is not UTF-8
/// among the failures — so the result does not depend on how the platform
/// would render such a path.
#[verifier::external_body]
fn read_archive_entries(bytes: &Vec<u8>) -> (r: Option<Vec<(String, Vec<u8>)>>)
    ensures
        r matches Some(es) ==> untar_gz_of(bytes@) == Some(es.deep_view()),
        r is None ==> untar_gz_of(bytes@) is None,
{
    let gz = flate2::read::GzDecoder::new(std::io::Cursor::new(bytes.as_slice()));
    let mut archive = tar::Archive::new(gz);
    let mut out = Vec::new();
    for entry in archive.entries().ok()? {
        let mut entry = entry.ok()?;
        let path = entry.path().ok()?.to_str()?.to_owned();
        let mut content = Vec::new();
        std::io::Read::read_to_end(&mut entry, &mut content).ok()?;
        out.push((path, content));
    }
    Some(out)
}

/// An archive entry's path without its first component: archives are
/// conventionally rooted in a single directory named after the package,
/// which the unpack strips.
pub open spec fn strip_first_component(p: Seq<char>) -> Seq<char> {
    let parts = split_on(p, '/');
    if parts.len() <= 1 {
        Seq::<char>::empty()
    } else {
        join_with(parts.drop_first(), '/')
    }
}

fn strip_first_component_exec(p: &str) -> (r: String)
    ensures
        r@ == strip_first_component(p@),
{
    let mut parts = split_str(p, '/');
    if parts.len() <= 1 {
        String::new()
    } else {
        let ghost whole = parts.deep_view();
        let _first = parts.remove(0);
        proof {
            assert(parts.deep_view() =~= whole.drop_first());
        }
        crate::strutil::join_str(&parts, '/')
    }
}

/// The store entries an archive unpacks to: each entry under the crate's
/// unpack prefix at its stripped path, contents unchanged.
pub open spec fn store_entries_of(id: CratesIoCrateIdV, es: Seq<(Seq<char>, Seq<u8>)>) -> Seq<
    (Seq<char>, Seq<u8>),
> {
    es.map_values(|e: (Seq<char>, Seq<u8>)| (unpkg_path_chars(id, strip_first_component(e.0)), e.1))
}

/// The store key under which a crate's manifest file lives; its presence
/// is the witness that the crate has been unpacked.
pub open spec fn manifest_key(id: CratesIoCrateIdV) -> Seq<char> {
    unpkg_path_chars(id, "Cargo.toml"@)
}

/// The store key under which a crate's lock file lives.
pub open spec fn lock_key(id: CratesIoCrateIdV) -> Seq<char> {
    unpkg_path_chars(id, "Cargo.lock"@)
}

/// What a must-exist read of a key yields on this store state and these
/// archive bytes.
pub ghost enum MustReadV {
    /// The bytes served: the stored entry, or the entry the unpack that a
    /// miss triggers writes.
    Bytes(Seq<u8>),
    /// The miss's unpack fails because the archive does not decode.
    BadArchive,
    /// The key is still absent after the unpack: the package is malformed.
    Integrity,
}

/// The outcome of a must-exist read of `key`, given the store's contents
/// and the archive bytes at hand for a miss.
pub open spec fn must_read_of(
    contents: Seq<(Seq<char>, Seq<u8>)>,
    id: CratesIoCrateIdV,
    key: Seq<char>,
    tarball: Option<Seq<u8>>,
) -> MustReadV {
    match assoc(contents, key) {
        Option::Some(b) => MustReadV::Bytes(b),
        Option::None => match tarball {
            Option::None => MustReadV::Integrity,
            Option::Some(t) => match untar_gz_of(t) {
                Option::None => MustReadV::BadArchive,
                Option::Some(es) => match assoc(store_entries_of(id, es) + contents, key) {
                    Option::Some(b) => MustReadV::Bytes(b),
                    Option::None => MustReadV::Integrity,
                },
            },
        },
    }
}

/// Where a store is either unchanged or was written in front of, the new
/// contents are some entries before the old ones.
proof fn lemma_grew_or_unchanged(
    now: Seq<(Seq<char>, Seq<u8>)>,
    before: Seq<(Seq<char>, Seq<u8>)>,
)
    ensures
        now == before ==> now == Seq::<(Seq<char>, Seq<u8>)>::empty() + before,
{
    if now == before {
        assert(now =~= Seq::<(Seq<char>, Seq<u8>)>::empty() + before);
    }
}

/// Files of registry crates, read out of unpacked tarballs.
pub struct CratesIoFiles;

impl CratesIoFiles {
    /// Whether a must-exist read of this store path would need the archive
    /// fetched first.
    pub fn tarball_needed(storage: &ByteStore, path: &str) -> (r: bool)
        ensures
            r == (assoc(storage.contents(), path@) is None),
    {
        match storage.get(path) {
            Some(_) => false,
            None => true,
        }
    }

    /// Whether an arbitrary-file read would need the archive fetched
    /// first: only when the file itself misses and the crate has not been
    /// unpacked yet.
    pub fn tarball_needed_for_file(
        storage: &ByteStore,
        crate_id: &CratesIoCrateId,
        file: &str,
    ) -> (r: bool)
        ensures
            r == (assoc(storage.contents(), unpkg_path_chars(crate_id@, file@)) is None && assoc(
                storage.contents(),
                manifest_key(crate_id@),
            ) is None),
    {
        let path = unpkg_path(crate_id, file);
        match storage.get(path.as_str()) {
            Some(_) => false,
            None => {
                let manifest_path = unpkg_path(crate_id, "Cargo.toml");
                match storage.get(manifest_path.as_str()) {
                    Some(_) => false,
                    None => true,
                }
            },
        }
    }

    /// Unpacks an archive's files into the store in one batch write. A
    /// malformed archive writes nothing.
    pub fn unpack_tarball(
        storage: &mut ByteStore,
        crate_id: &CratesIoCrateId,
        tarball: &Vec<u8>,
    ) -> (r: Result<(), ApiError>)
        ensures
            r is Ok ==> (untar_gz_of(tarball@) matches Some(es) && final(storage).contents()
                == store_entries_of(crate_id@, es) + old(storage).contents()),
            r matches Err(e) ==> (e == ApiError::MalformedUpstreamData && untar_gz_of(tarball@)
                is None && final(storage).contents() == old(storage).contents()),
    {
        let entries = match read_archive_entries(tarball) {
            Some(es) => es,
            None => {
                return Err(ApiError::MalformedUpstreamData);
            },
        };
        let ghost esv = entries.deep_view();
        let mut to_store: Vec<(String, Vec<u8>)> = Vec::new();
        let mut i: usize = 0;
        proof {
            assert(to_store.deep_view() =~= store_entries_of(crate_id@, esv.take(0)));
        }
        while i < entries.len()
            invariant
                esv == entries.deep_view(),
                esv.len() == entries@.len(),
                i <= esv.len(),
                to_store.deep_view() == store_entries_of(crate_id@, esv.take(i as int)),
            decreases esv.len() - i,
        {
            let entry = &entries[i];
            proof {
                assert(entry.deep_view() == esv[i as int]);
            }
            let stripped = strip_first_component_exec(entry.0.as_str());
            let path = unpkg_path(crate_id, stripped.as_str());
            let content = clone_bytes(&entry.1);
            let ghost prev = to_store.deep_view();
            to_store.push((path, content));
            proof {
                let pushed = to_store@[to_store@.len() - 1];
                assert(pushed.deep_view().1 =~= esv[i as int].1);
                assert(to_store.deep_view() =~= prev + seq![pushed.deep_view()]);
                assert(store_entries_of(crate_id@, esv.take(i + 1)) =~= store_entries_of(
                    crate_id@,
                    esv.take(i as int),
                ) + seq![
                    (
                        unpkg_path_chars(crate_id@, strip_first_component(esv[i as int].0)),
                        esv[i as int].1,
                    ),
                ]);
            }
            i = i + 1;
        }
        proof {
            assert(esv.take(esv.len() as int) =~= esv);
        }
        storage.put_many(to_store);
        Ok(())
    }

    /// A must-exist read: the cached copy where the store holds one; else
    /// the archive — which the caller must then have fetched — is unpacked
    /// and the read retried. A file still absent after its own unpack is an
    /// integrity violation of the upstream package, not a cache miss.
    pub fn get_or_unpack_tarball(
        storage: &mut ByteStore,
        crate_id: &CratesIoCrateId,
        path: &str,
        tarball: Option<&Vec<u8>>,
    ) -> (r: Result<Vec<u8>, ApiError>)
        requires
            assoc(old(storage).contents(), path@) is Some || tarball is Some,
        ensures
            assoc(old(storage).contents(), path@) matches Some(b) ==> (r matches Ok(rb) && rb@ == b
                && final(storage).contents() == old(storage).contents()),
            assoc(old(storage).contents(), path@) is None ==> (tarball matches Some(t) && (match
                untar_gz_of(t@) {
                Option::None => ({
                    &&& r matches Err(e) && e == ApiError::MalformedUpstreamData
                    &&& final(storage).contents() == old(storage).contents()
                }),
                Option::Some(es) => ({
                    &&& final(storage).contents() == store_entries_of(crate_id@, es) + old(
                        storage,
                    ).contents()
                    &&& (match assoc(final(storage).contents(), path@) {
                        Option::Some(b) => r matches Ok(rb) && rb@ == b,
                        Option::None => r matches Err(e) && e == ApiError::IntegrityViolation,
                    })
                }),
            })),
    {
        let cached = match storage.get(path) {
            Some(b) => Some(clone_bytes(b)),
            None => None,
        };
        if let Some(b) = cached {
            return Ok(b);
        }
        let archive = match tarball {
            Some(t) => t,
            None => {
                proof {
                    assert(false);
                }
                return Err(ApiError::NotFound);
            },
        };
        match Self::unpack_tarball(storage, crate_id, archive) {
            Ok(()) => {},
            Err(e) => {
                return Err(e);
            },
        }
        match storage.get(path) {
            Some(b) => Ok(clone_bytes(b)),
            None => Err(ApiError::IntegrityViolation),
        }
    }

    /// Unpacks the crate unless its manifest already sits in the store:
    /// every well-formed crate has a manifest, so its presence is the
    /// one-time-unpack guard.
    pub fn unpack_cargo_if_needed(
        storage: &mut ByteStore,
        crate_id: &CratesIoCrateId,
        tarball: Option<&Vec<u8>>,
    ) -> (r: Result<(), ApiError>)
        requires
            assoc(old(storage).contents(), manifest_key(crate_id@)) is Some || tarball is Some,
        ensures
            assoc(old(storage).contents(), manifest_key(crate_id@)) is Some ==> (final(storage).contents()
                == old(storage).contents() && r is Ok),
            (match must_read_of(
                old(storage).contents(),
                crate_id@,
                manifest_key(crate_id@),
                tarball.deep_view(),
            ) {
                MustReadV::Bytes(_) => r is Ok && assoc(
                    final(storage).contents(),
                    manifest_key(crate_id@),
                ) is Some,
                MustReadV::BadArchive => r matches Err(e) && e == ApiError::MalformedUpstreamData
                    && final(storage).contents() == old(storage).contents(),
                MustReadV::Integrity => r matches Err(e) && e == ApiError::IntegrityViolation,
            }),
    {
        proof {
            match tarball {
                Option::Some(t) => {
                    assert(t.deep_view() =~= t@);
                },
                Option::None => {},
            }
        }
        let path = unpkg_path(crate_id, "Cargo.toml");
        match Self::get_or_unpack_tarball(storage, crate_id, path.as_str(), tarball) {
            Ok(_) => Ok(()),
            Err(e) => Err(e),
        }
    }

    /// Fetch and cache the manifest's package fields. If the store does
    /// not hold the manifest file yet, the archive — which the caller must
    /// then have fetched — is unpacked first; the returned fields are
    /// exactly the manifest read of the bytes that read served.
    pub fn cargo_manifest(
        storage: &mut ByteStore,
        crate_id: &CratesIoCrateId,
        tarball: Option<&Vec<u8>>,
    ) -> (r: Result<PackageFields, ApiError>)
        requires
            assoc(old(storage).contents(), manifest_key(crate_id@)) is Some || tarball is Some,
        ensures
            r matches Err(e) ==> (e == ApiError::MalformedUpstreamData || e
                == ApiError::UnsupportedManifestShape || e == ApiError::IntegrityViolation),
            exists|added: Seq<(Seq<char>, Seq<u8>)>|
                final(storage).contents() == #[trigger] (added + old(storage).contents()),
            assoc(old(storage).contents(), manifest_key(crate_id@)) is Some ==> (final(storage).contents()
                == old(storage).contents()),
            (match must_read_of(
                old(storage).contents(),
                crate_id@,
                manifest_key(crate_id@),
                tarball.deep_view(),
            ) {
                MustReadV::Bytes(mb) => manifest_outcome_ties(&r, mb),
                MustReadV::BadArchive => r matches Err(e) && e == ApiError::MalformedUpstreamData
                    && final(storage).contents() == old(storage).contents(),
                MustReadV::Integrity => r matches Err(e) && e == ApiError::IntegrityViolation,
            }),
    {
        proof {
            match tarball {
                Option::Some(t) => {
                    assert(t.deep_view() =~= t@);
                },
                Option::None => {},
            }
        }
        let path = unpkg_path(crate_id, "Cargo.toml");
        let bytes = match Self::get_or_unpack_tarball(storage, crate_id, path.as_str(), tarball) {
            Ok(b) => b,
            Err(e) => {
                proof {
                    lemma_grew_or_unchanged(storage.contents(), old(storage).contents());
                }
                return Err(e);
            },
        };
        proof {
            lemma_grew_or_unchanged(storage.contents(), old(storage).contents());
        }
        read_package_fields(&bytes)
    }

    /// Fetch and cache the lock file, which sits at the archive root. If
    /// the store does not hold it yet, the archive is unpacked first; a
    /// crate whose archive carries no lock file is malformed upstream.
    pub fn cargo_lock(
        storage: &mut ByteStore,
        crate_id: &CratesIoCrateId,
        tarball: Option<&Vec<u8>>,
    ) -> (r: Result<Vec<u8>, ApiError>)
        requires
            assoc(old(storage).contents(), lock_key(crate_id@)) is Some || tarball is Some,
        ensures
            assoc(old(storage).contents(), lock_key(crate_id@)) matches Some(b) ==> (r matches Ok(
                rb,
            ) && rb@ == b && final(storage).contents() == old(storage).contents()),
            exists|added: Seq<(Seq<char>, Seq<u8>)>|
                final(storage).contents() == #[trigger] (added + old(storage).contents()),
            (match must_read_of(
                old(storage).contents(),
                crate_id@,
                lock_key(crate_id@),
                tarball.deep_view(),
            ) {
                MustReadV::Bytes(b) => r matches Ok(rb) && rb@ == b,
                MustReadV::BadArchive => r matches Err(e) && e == ApiError::MalformedUpstreamData
                    && final(storage).contents() == old(storage).contents(),
                MustReadV::Integrity => r matches Err(e) && e == ApiError::IntegrityViolation,
            }),
    {
        proof {
            match tarball {
                Option::Some(t) => {
                    assert(t.deep_view() =~= t@);
                },
                Option::None => {},
            }
        }
        let path = unpkg_path(crate_id, "Cargo.lock");
        let r = Self::get_or_unpack_tarball(storage, crate_id, path.as_str(), tarball);
        proof {
            lemma_grew_or_unchanged(storage.contents(), old(storage).contents());
        }
        r
    }

    /// An arbitrary-file read. The file is served from the store; where it
    /// misses and the crate was never unpacked, one unpack runs and the
    /// read is retried. Where the crate is already unpacked, a miss is a
    /// true not-found: no second unpack is triggered and the store is left
    /// as it was.
    pub fn get_crate_file(
        storage: &mut ByteStore,
        crate_id: &CratesIoCrateId,
        file: &str,
        tarball: Option<&Vec<u8>>,
    ) -> (r: Result<Vec<u8>, ApiError>)
        requires
            assoc(old(storage).contents(), unpkg_path_chars(crate_id@, file@)) is Some || assoc(
                old(storage).contents(),
                manifest_key(crate_id@),
            ) is Some || tarball is Some,
        ensures
            assoc(old(storage).contents(), unpkg_path_chars(crate_id@, file@)) matches Some(b) ==> (
            r matches Ok(rb) && rb@ == b && final(storage).contents() == old(storage).contents()),
            (assoc(old(storage).contents(), unpkg_path_chars(crate_id@, file@)) is None && assoc(
                old(storage).contents(),
                manifest_key(crate_id@),
            ) is Some) ==> (r matches Err(e) && e == ApiError::NotFound && final(storage).contents()
                == old(storage).contents()),
            (assoc(old(storage).contents(), unpkg_path_chars(crate_id@, file@)) is None && assoc(
                old(storage).contents(),
                manifest_key(crate_id@),
            ) is None) ==> (tarball matches Some(t) && (match untar_gz_of(t@) {
                Option::None => ({
                    &&& r matches Err(e) && e == ApiError::MalformedUpstreamData
                    &&& final(storage).contents() == old(storage).contents()
                }),
                Option::Some(es) => ({
                    &&& final(storage).contents() == store_entries_of(crate_id@, es) + old(
                        storage,
                    ).contents()
                    &&& (match assoc(
                        final(storage).contents(),
                        unpkg_path_chars(crate_id@, file@),
                    ) {
                        Option::Some(b) => r matches Ok(rb) && rb@ == b,
                        Option::None => r matches Err(e) && e == ApiError::NotFound,
                    })
                }),
            })),
    {
        let path = unpkg_path(crate_id, file);
        let cached = match storage.get(path.as_str()) {
            Some(b) => Some(clone_bytes(b)),
            None => None,
        };
        if let Some(b) = cached {
            return Ok(b);
        }
        let manifest_path = unpkg_path(crate_id, "Cargo.toml");
        let unpacked_already = match storage.get(manifest_path.as_str()) {
            Some(_) => true,
            None => false,
        };
        if unpacked_already {
            return Err(ApiError::NotFound);
        }
        let archive = match tarball {
            Some(t) => t,
            None => {
                proof {
                    assert(false);
                }
                return Err(ApiError::NotFound);
            },
        };
        match Self::unpack_tarball(storage, crate_id, archive) {
            Ok(()) => {},
            Err(e) => {
                return Err(e);
            },
        }
        match storage.get(path.as_str()) {
            Some(b) => Ok(clone_bytes(b)),
            None => Err(ApiError::NotFound),
        }
    }
}

} // verus!
