//! An object store modelled as an association list of path/bytes entries,
//! newest entry first, and the deterministic paths under which unpacked
//! archive files are stored.
//!
//! The store is the library's model of the narrow capability interface the
//! pipeline consumes: `get` and `put_many`. An entry's presence under a
//! crate's unpack prefix is the witness that the crate has been unpacked.

use vstd::prelude::*;
use crate::strutil::{string_push, str_eq};
use crate::ids::{CratesIoCrateId, CratesIoCrateIdV};
use crate::version::version_chars;

verus! {

/// First-match lookup in a sequence of path/bytes entries.
pub open spec fn assoc(s: Seq<(Seq<char>, Seq<u8>)>, k: Seq<char>) -> Option<Seq<u8>>
    decreases s.len(),
{
    if s.len() == 0 {
        None
    } else if s[0].0 == k {
        Some(s[0].1)
    } else {
        assoc(s.drop_first(), k)
    }
}

proof fn lemma_assoc_skip(s: Seq<(Seq<char>, Seq<u8>)>, k: Seq<char>, i: int)
    requires
        0 <= i < s.len(),
        s[i].0 != k,
    ensures
        assoc(s.skip(i), k) == assoc(s.skip(i + 1), k),
{
    assert(s.skip(i).drop_first() =~= s.skip(i + 1));
}

/// An owned copy of a byte buffer, byte for byte.
pub fn clone_bytes(b: &Vec<u8>) -> (r: Vec<u8>)
    ensures
        r@ == b@,
{
    let r = b.clone();
    proof {
        assert(r@ =~= b@);
    }
    r
}

/// A write-once-by-convention object store: entries keyed by path, a new
/// write shadowing any earlier entry of the same path.
pub struct ByteStore {
    pub entries: Vec<(String, Vec<u8>)>,
}

impl ByteStore {
    /// The stored entries, newest first.
    pub open spec fn contents(&self) -> Seq<(Seq<char>, Seq<u8>)> {
        self.entries.deep_view()
    }

    pub fn new() -> (r: Self)
        ensures
            r.contents() == Seq::<(Seq<char>, Seq<u8>)>::empty(),
    {
        let r = ByteStore { entries: Vec::new() };
        proof {
            assert(r.contents() =~= Seq::<(Seq<char>, Seq<u8>)>::empty());
        }
        r
    }

    /// Reads the bytes stored under a path, if any.
    pub fn get(&self, path: &str) -> (r: Option<&Vec<u8>>)
        ensures
            r matches Some(b) ==> assoc(self.contents(), path@) == Some(b@),
            r is None ==> assoc(self.contents(), path@) is None,
    {
        let mut i: usize = 0;
        proof {
            assert(self.contents().skip(0) =~= self.contents());
        }
        while i < self.entries.len()
            invariant
                i <= self.entries@.len(),
                self.contents().len() == self.entries@.len(),
                assoc(self.contents(), path@) == assoc(self.contents().skip(i as int), path@),
            decreases self.entries@.len() - i,
        {
            let entry = &self.entries[i];
            proof {
                assert(self.contents()[i as int] == self.entries@[i as int].deep_view());
                assert(self.contents().skip(i as int)[0] == self.contents()[i as int]);
            }
            if str_eq(entry.0.as_str(), path) {
                return Some(&entry.1);
            }
            proof {
                lemma_assoc_skip(self.contents(), path@, i as int);
            }
            i = i + 1;
        }
        proof {
            assert(self.contents().skip(self.entries@.len() as int) =~= Seq::<(
                Seq<char>,
                Seq<u8>,
            )>::empty());
        }
        None
    }

    /// Stores bytes under a path, shadowing any earlier entry.
    pub fn put(&mut self, path: String, bytes: Vec<u8>)
        ensures
            final(self).contents() == seq![(path@, bytes@)] + old(self).contents(),
    {
        let ghost before = self.contents();
        let ghost pv = path@;
        let ghost bv = bytes@;
        self.entries.insert(0, (path, bytes));
        proof {
            assert(self.entries@[0].deep_view().0 == pv);
            assert(self.entries@[0].deep_view().1 =~= bv);
            assert(self.contents() =~= seq![(pv, bv)] + before);
        }
    }

    /// Stores a batch of entries in one step, the batch's own order kept.
    pub fn put_many(&mut self, entries: Vec<(String, Vec<u8>)>)
        ensures
            final(self).contents() == entries.deep_view() + old(self).contents(),
    {
        let ghost orig = entries.deep_view();
        let ghost base = self.contents();
        let mut batch = entries;
        proof {
            assert(orig.take(orig.len() as int) =~= orig);
            assert(orig.skip(orig.len() as int) + base =~= base);
        }
        while batch.len() > 0
            invariant
                batch.deep_view() == orig.take(batch@.len() as int),
                batch@.len() <= orig.len(),
                self.contents() == orig.skip(batch@.len() as int) + base,
            decreases batch@.len(),
        {
            let ghost j = batch@.len() as int;
            let ghost bpre = batch@;
            let popped = batch.pop();
            let item = match popped {
                Some(item) => item,
                None => {
                    proof {
                        assert(false);
                    }
                    return ;
                },
            };
            proof {
                assert(item == bpre[j - 1]);
                assert(bpre[j - 1].deep_view() == orig.take(j)[j - 1]);
                assert(batch@ =~= bpre.take(j - 1));
                assert(batch.deep_view() =~= orig.take(j - 1));
            }
            let ghost pv = item.0@;
            let ghost bv = item.1@;
            proof {
                assert(item.deep_view().0 == pv);
                assert(item.deep_view().1 =~= bv);
                assert((pv, bv) == orig[j - 1]);
            }
            self.put(item.0, item.1);
            proof {
                assert(seq![orig[j - 1]] + (orig.skip(j) + base) =~= orig.skip(j - 1) + base);
            }
        }
        proof {
            assert(orig.skip(0) =~= orig);
        }
    }
}

/// A key that a store holds stays held when entries are written in front
/// of it (its value may be shadowed, its presence cannot be lost).
pub proof fn lemma_assoc_prepend(
    added: Seq<(Seq<char>, Seq<u8>)>,
    s: Seq<(Seq<char>, Seq<u8>)>,
    k: Seq<char>,
)
    ensures
        assoc(s, k) is Some ==> assoc(added + s, k) is Some,
    decreases added.len(),
{
    if added.len() == 0 {
        assert(added + s =~= s);
    } else {
        assert((added + s)[0] == added[0]);
        assert((added + s).drop_first() =~= added.drop_first() + s);
        lemma_assoc_prepend(added.drop_first(), s, k);
    }
}

/// The storage path of one file of an unpacked crate:
/// `unpkg/<name>/<version>/<relative path>`.
pub open spec fn unpkg_path_chars(id: CratesIoCrateIdV, path: Seq<char>) -> Seq<char> {
    "unpkg/"@ + id.crate_name + seq!['/'] + version_chars(id.version) + seq!['/'] + path
}

/// Create a path to a file of an unpackaged tarball.
pub fn unpkg_path(crate_id: &CratesIoCrateId, path: &str) -> (r: String)
    ensures
        r@ == unpkg_path_chars(crate_id@, path@),
{
    let mut r = String::from_str("unpkg/");
    let slash = crate_id.slash_formatted();
    r.append(slash.as_str());
    string_push(&mut r, '/');
    r.append(path);
    r
}

} // verus!
