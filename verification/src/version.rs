//! Semantic versions as plain values: parsing through the `semver` crate,
//! verified rendering, and a verified precedence order used to pick the
//! newest of a list of versions.

use vstd::prelude::*;
use crate::strutil::{dec_str, split_on, string_push, str_eq, u64_to_string, split_str};

verus! {

/// The mathematical value of a [`SemVer`].
pub ghost struct SemVerV {
    pub major: int,
    pub minor: int,
    pub patch: int,
    pub pre: Seq<char>,
    pub build: Seq<char>,
}

/// A parsed semantic version. `pre` and `build` hold the pre-release and
/// build-metadata suffixes without their leading `-` / `+`, empty when
/// absent.
#[derive(Debug)]
pub struct SemVer {
    pub major: u64,
    pub minor: u64,
    pub patch: u64,
    pub pre: String,
    pub build: String,
}

impl View for SemVer {
    type V = SemVerV;

    open spec fn view(&self) -> SemVerV {
        SemVerV {
            major: self.major as int,
            minor: self.minor as int,
            patch: self.patch as int,
            pre: self.pre@,
            build: self.build@,
        }
    }
}

impl Clone for SemVer {
    fn clone(&self) -> (res: Self)
        ensures
            res == self,
    {
        SemVer {
            major: self.major,
            minor: self.minor,
            patch: self.patch,
            pre: self.pre.clone(),
            build: self.build.clone(),
        }
    }
}

impl PartialEq for SemVer {
    fn eq(&self, other: &Self) -> (r: bool) {
        self.major == other.major && self.minor == other.minor && self.patch == other.patch
            && self.pre == other.pre && self.build == other.build
    }
}

impl Eq for SemVer {

}

impl vstd::std_specs::cmp::PartialEqSpecImpl for SemVer {
    open spec fn obeys_eq_spec() -> bool {
        true
    }

    open spec fn eq_spec(&self, other: &Self) -> bool {
        self@ == other@
    }
}

/// What `semver::Version::parse` yields on a given string: the version's
/// numeric triple and its raw pre-release and build suffixes, or nothing
/// where the string is not a valid semantic version.
pub uninterp spec fn semver_parse_of(s: Seq<char>) -> Option<SemVerV>;

/// The canonical rendering `major.minor.patch[-pre][+build]`.
pub open spec fn version_chars(v: SemVerV) -> Seq<char> {
    dec_str(v.major as nat) + seq!['.'] + dec_str(v.minor as nat) + seq!['.'] + dec_str(
        v.patch as nat,
    ) + (if v.pre.len() > 0 {
        seq!['-'] + v.pre
    } else {
        Seq::<char>::empty()
    }) + (if v.build.len() > 0 {
        seq!['+'] + v.build
    } else {
        Seq::<char>::empty()
    })
}

impl SemVer {
    /// A version with empty pre-release and build metadata.
    pub fn new(major: u64, minor: u64, patch: u64) -> (r: Self)
        ensures
            r@.major == major as int,
            r@.minor == minor as int,
            r@.patch == patch as int,
            r@.pre.len() == 0,
            r@.build.len() == 0,
    {
        SemVer { major, minor, patch, pre: String::new(), build: String::new() }
    }

    /// Relies on `semver::Version::parse`: accepts exactly the strings of
    /// the semantic-versioning grammar and splits one into its numeric
    /// triple, pre-release and build metadata.
    #[verifier::external_body]
    pub fn parse(s: &str) -> (r: Option<SemVer>)
        ensures
            r matches Some(v) ==> semver_parse_of(s@) == Some(v@),
            r is None ==> semver_parse_of(s@) is None,
    {
        match semver::Version::parse(s) {
            Ok(v) => Some(
                SemVer {
                    major: v.major,
                    minor: v.minor,
                    patch: v.patch,
                    pre: v.pre.as_str().to_string(),
                    build: v.build.as_str().to_string(),
                },
            ),
            Err(_) => None,
        }
    }

    /// Renders the version canonically, as its display form.
    pub fn to_display_string(&self) -> (r: String)
        ensures
            r@ == version_chars(self@),
    {
        let mut r = u64_to_string(self.major);
        string_push(&mut r, '.');
        let minor_s = u64_to_string(self.minor);
        r.append(minor_s.as_str());
        string_push(&mut r, '.');
        let patch_s = u64_to_string(self.patch);
        r.append(patch_s.as_str());
        if !self.pre.as_str().is_empty() {
            string_push(&mut r, '-');
            r.append(self.pre.as_str());
        } else {
            proof {
                assert(self.pre@.len() == 0 ==> r@ + self.pre@ =~= r@);
            }
        }
        if !self.build.as_str().is_empty() {
            string_push(&mut r, '+');
            r.append(self.build.as_str());
        }
        proof {
            assert(r@ =~= version_chars(self@));
        }
        r
    }
}

/// A pre-release identifier made only of digits, compared numerically.
pub open spec fn is_digit(c: char) -> bool {
    48 <= c as int && c as int <= 57
}

pub open spec fn is_num_ident(s: Seq<char>) -> bool {
    s.len() > 0 && forall|i: int| 0 <= i < s.len() ==> is_digit(s[i])
}

/// Plain lexicographic order on character sequences, by code point, a
/// proper prefix ranking below its extensions.
pub open spec fn lex_lt(a: Seq<char>, b: Seq<char>) -> bool
    decreases a.len(),
{
    if b.len() == 0 {
        false
    } else if a.len() == 0 {
        true
    } else if a[0] != b[0] {
        (a[0] as int) < (b[0] as int)
    } else {
        lex_lt(a.drop_first(), b.drop_first())
    }
}

/// Order of two pre-release identifiers: numeric ones compare numerically
/// (for digit strings without leading zeroes: first by length, then
/// lexically) and rank below alphanumeric ones; alphanumeric ones compare
/// lexically.
pub open spec fn ident_lt(a: Seq<char>, b: Seq<char>) -> bool {
    if is_num_ident(a) && is_num_ident(b) {
        a.len() < b.len() || (a.len() == b.len() && lex_lt(a, b))
    } else if is_num_ident(a) {
        true
    } else if is_num_ident(b) {
        false
    } else {
        lex_lt(a, b)
    }
}

/// Lexicographic order over identifier lists; a shorter list of equal
/// leading identifiers ranks below the longer one.
pub open spec fn idents_lt(a: Seq<Seq<char>>, b: Seq<Seq<char>>) -> bool
    decreases a.len(),
{
    if a.len() == 0 {
        b.len() > 0
    } else if b.len() == 0 {
        false
    } else if a[0] != b[0] {
        ident_lt(a[0], b[0])
    } else {
        idents_lt(a.drop_first(), b.drop_first())
    }
}

/// Pre-release precedence: a version without a pre-release ranks above any
/// version that has one; two pre-releases compare identifier by identifier.
pub open spec fn pre_lt(a: Seq<char>, b: Seq<char>) -> bool {
    if a.len() == 0 {
        false
    } else if b.len() == 0 {
        true
    } else {
        idents_lt(split_on(a, '.'), split_on(b, '.'))
    }
}

/// Semantic-version precedence; build metadata does not participate.
pub open spec fn ver_lt(a: SemVerV, b: SemVerV) -> bool {
    if a.major != b.major {
        a.major < b.major
    } else if a.minor != b.minor {
        a.minor < b.minor
    } else if a.patch != b.patch {
        a.patch < b.patch
    } else {
        pre_lt(a.pre, b.pre)
    }
}

proof fn lemma_lex_lt_irrefl(a: Seq<char>)
    ensures
        !lex_lt(a, a),
    decreases a.len(),
{
    if a.len() > 0 {
        lemma_lex_lt_irrefl(a.drop_first());
    }
}

proof fn lemma_lex_lt_trans(a: Seq<char>, b: Seq<char>, c: Seq<char>)
    requires
        lex_lt(a, b),
        lex_lt(b, c),
    ensures
        lex_lt(a, c),
    decreases a.len() + b.len() + c.len(),
{
    if a.len() > 0 && b.len() > 0 && c.len() > 0 && a[0] == b[0] && b[0] == c[0] {
        lemma_lex_lt_trans(a.drop_first(), b.drop_first(), c.drop_first());
    }
}

proof fn lemma_lex_lt_total(a: Seq<char>, b: Seq<char>)
    requires
        !lex_lt(a, b),
        !lex_lt(b, a),
    ensures
        a == b,
    decreases a.len(),
{
    if a.len() == 0 && b.len() == 0 {
        assert(a =~= b);
    } else {
        assert(a.len() > 0 && b.len() > 0);
        assert(a[0] == b[0]);
        lemma_lex_lt_total(a.drop_first(), b.drop_first());
        assert(a =~= seq![a[0]] + a.drop_first());
        assert(b =~= seq![b[0]] + b.drop_first());
    }
}

proof fn lemma_ident_lt_irrefl(a: Seq<char>)
    ensures
        !ident_lt(a, a),
{
    lemma_lex_lt_irrefl(a);
}

proof fn lemma_ident_lt_trans(a: Seq<char>, b: Seq<char>, c: Seq<char>)
    requires
        ident_lt(a, b),
        ident_lt(b, c),
    ensures
        ident_lt(a, c),
{
    if is_num_ident(a) && is_num_ident(b) && is_num_ident(c) {
        if a.len() == b.len() && b.len() == c.len() {
            lemma_lex_lt_trans(a, b, c);
        }
    } else if !is_num_ident(a) && !is_num_ident(b) && !is_num_ident(c) {
        lemma_lex_lt_trans(a, b, c);
    }
}

proof fn lemma_ident_lt_total(a: Seq<char>, b: Seq<char>)
    requires
        !ident_lt(a, b),
        !ident_lt(b, a),
    ensures
        a == b,
{
    if is_num_ident(a) && is_num_ident(b) {
        lemma_lex_lt_total(a, b);
    } else if !is_num_ident(a) && !is_num_ident(b) {
        lemma_lex_lt_total(a, b);
    }
}

proof fn lemma_idents_lt_trans(a: Seq<Seq<char>>, b: Seq<Seq<char>>, c: Seq<Seq<char>>)
    requires
        idents_lt(a, b),
        idents_lt(b, c),
    ensures
        idents_lt(a, c),
    decreases a.len() + b.len() + c.len(),
{
    if a.len() == 0 {
    } else {
        assert(b.len() > 0);
        assert(c.len() > 0);
        if a[0] == b[0] && b[0] == c[0] {
            lemma_idents_lt_trans(a.drop_first(), b.drop_first(), c.drop_first());
        } else if a[0] != b[0] && b[0] != c[0] {
            lemma_ident_lt_trans(a[0], b[0], c[0]);
            if a[0] == c[0] {
                lemma_ident_lt_irrefl(a[0]);
            }
        }
    }
}

proof fn lemma_idents_lt_irrefl(a: Seq<Seq<char>>)
    ensures
        !idents_lt(a, a),
    decreases a.len(),
{
    if a.len() > 0 {
        lemma_idents_lt_irrefl(a.drop_first());
    }
}

/// No version precedes itself.
pub proof fn lemma_ver_lt_irrefl(a: SemVerV)
    ensures
        !ver_lt(a, a),
{
    if a.pre.len() > 0 {
        lemma_idents_lt_irrefl(split_on(a.pre, '.'));
    }
}

/// Precedence is transitive, which is what lets one element of a version
/// list stand as "the newest".
pub proof fn lemma_ver_lt_trans(a: SemVerV, b: SemVerV, c: SemVerV)
    requires
        ver_lt(a, b),
        ver_lt(b, c),
    ensures
        ver_lt(a, c),
{
    if a.major == b.major && b.major == c.major && a.minor == b.minor && b.minor == c.minor
        && a.patch == b.patch && b.patch == c.patch {
        if a.pre.len() > 0 && b.pre.len() > 0 && c.pre.len() > 0 {
            lemma_idents_lt_trans(
                split_on(a.pre, '.'),
                split_on(b.pre, '.'),
                split_on(c.pre, '.'),
            );
        }
    }
}

fn is_num_ident_exec(s: &str) -> (r: bool)
    ensures
        r == is_num_ident(s@),
{
    let len = s.unicode_len();
    if len == 0 {
        return false;
    }
    let mut i: usize = 0;
    while i < len
        invariant
            len == s@.len(),
            i <= len,
            forall|j: int| 0 <= j < i ==> is_digit(s@[j]),
        decreases len - i,
    {
        let c = s.get_char(i) as u32;
        if !(48 <= c && c <= 57) {
            return false;
        }
        i = i + 1;
    }
    true
}

proof fn lemma_lex_lt_skip(a: Seq<char>, b: Seq<char>, i: int)
    requires
        0 <= i < a.len(),
        0 <= i < b.len(),
        a[i] == b[i],
    ensures
        lex_lt(a.skip(i), b.skip(i)) == lex_lt(a.skip(i + 1), b.skip(i + 1)),
{
    assert(a.skip(i).drop_first() =~= a.skip(i + 1));
    assert(b.skip(i).drop_first() =~= b.skip(i + 1));
}

fn lex_lt_exec(a: &str, b: &str) -> (r: bool)
    ensures
        r == lex_lt(a@, b@),
{
    let alen = a.unicode_len();
    let blen = b.unicode_len();
    let mut i: usize = 0;
    proof {
        assert(a@.skip(0) =~= a@);
        assert(b@.skip(0) =~= b@);
    }
    while i < alen && i < blen
        invariant
            alen == a@.len(),
            blen == b@.len(),
            i <= alen,
            i <= blen,
            lex_lt(a@, b@) == lex_lt(a@.skip(i as int), b@.skip(i as int)),
        decreases alen - i,
    {
        let ca = a.get_char(i);
        let cb = b.get_char(i);
        if ca != cb {
            proof {
                assert(a@.skip(i as int)[0] == a@[i as int]);
                assert(b@.skip(i as int)[0] == b@[i as int]);
            }
            return (ca as u32) < (cb as u32);
        }
        proof {
            lemma_lex_lt_skip(a@, b@, i as int);
        }
        i = i + 1;
    }
    proof {
        if i == alen {
            assert(a@.skip(i as int) =~= Seq::<char>::empty());
        } else {
            assert(b@.skip(i as int) =~= Seq::<char>::empty());
        }
    }
    alen < blen
}

fn ident_lt_exec(a: &str, b: &str) -> (r: bool)
    ensures
        r == ident_lt(a@, b@),
{
    let a_num = is_num_ident_exec(a);
    let b_num = is_num_ident_exec(b);
    if a_num && b_num {
        let alen = a.unicode_len();
        let blen = b.unicode_len();
        if alen < blen {
            true
        } else if alen == blen {
            lex_lt_exec(a, b)
        } else {
            false
        }
    } else if a_num {
        true
    } else if b_num {
        false
    } else {
        lex_lt_exec(a, b)
    }
}

proof fn lemma_idents_lt_skip(a: Seq<Seq<char>>, b: Seq<Seq<char>>, i: int)
    requires
        0 <= i < a.len(),
        0 <= i < b.len(),
        a[i] == b[i],
    ensures
        idents_lt(a.skip(i), b.skip(i)) == idents_lt(a.skip(i + 1), b.skip(i + 1)),
{
    assert(a.skip(i).drop_first() =~= a.skip(i + 1));
    assert(b.skip(i).drop_first() =~= b.skip(i + 1));
}

fn idents_lt_exec(a: &Vec<String>, b: &Vec<String>) -> (r: bool)
    ensures
        r == idents_lt(a.deep_view(), b.deep_view()),
{
    let mut i: usize = 0;
    proof {
        assert(a.deep_view().skip(0) =~= a.deep_view());
        assert(b.deep_view().skip(0) =~= b.deep_view());
    }
    while i < a.len() && i < b.len()
        invariant
            i <= a@.len(),
            i <= b@.len(),
            a.deep_view().len() == a@.len(),
            b.deep_view().len() == b@.len(),
            idents_lt(a.deep_view(), b.deep_view()) == idents_lt(
                a.deep_view().skip(i as int),
                b.deep_view().skip(i as int),
            ),
        decreases a@.len() - i,
    {
        let ia = &a[i];
        let ib = &b[i];
        if !str_eq(ia.as_str(), ib.as_str()) {
            proof {
                assert(a.deep_view().skip(i as int)[0] == a.deep_view()[i as int]);
                assert(b.deep_view().skip(i as int)[0] == b.deep_view()[i as int]);
            }
            return ident_lt_exec(ia.as_str(), ib.as_str());
        }
        proof {
            assert(a.deep_view()[i as int] == ia@);
            assert(b.deep_view()[i as int] == ib@);
            lemma_idents_lt_skip(a.deep_view(), b.deep_view(), i as int);
        }
        i = i + 1;
    }
    proof {
        if i == a.len() {
            assert(a.deep_view().skip(i as int) =~= Seq::<Seq<char>>::empty());
        } else {
            assert(b.deep_view().skip(i as int) =~= Seq::<Seq<char>>::empty());
        }
    }
    a.len() < b.len()
}

impl SemVer {
    /// Whether `self` strictly precedes `other` in semantic-version
    /// precedence.
    pub fn precedes(&self, other: &SemVer) -> (r: bool)
        ensures
            r == ver_lt(self@, other@),
    {
        if self.major != other.major {
            self.major < other.major
        } else if self.minor != other.minor {
            self.minor < other.minor
        } else if self.patch != other.patch {
            self.patch < other.patch
        } else if self.pre.as_str().is_empty() {
            false
        } else if other.pre.as_str().is_empty() {
            true
        } else {
            let a_ids = split_str(self.pre.as_str(), '.');
            let b_ids = split_str(other.pre.as_str(), '.');
            idents_lt_exec(&a_ids, &b_ids)
        }
    }

    /// The highest version of a list: an element that no listed version
    /// strictly exceeds. Of several copies of the highest version the first
    /// is returned.
    pub fn latest_of(list: &Vec<SemVer>) -> (r: Option<SemVer>)
        ensures
            (r is None) == (list@.len() == 0),
            r matches Some(v) ==> exists|i: int| 0 <= i < list@.len() && v@ == list@[i]@,
            r matches Some(v) ==> forall|i: int|
                0 <= i < list@.len() ==> !ver_lt(v@, #[trigger] list@[i]@),
    {
        if list.len() == 0 {
            return None;
        }
        let mut best: &SemVer = &list[0];
        let mut i: usize = 1;
        proof {
            lemma_ver_lt_irrefl(best@);
        }
        while i < list.len()
            invariant
                1 <= i <= list@.len(),
                exists|k: int| 0 <= k < i && best@ == list@[k]@,
                forall|j: int| 0 <= j < i ==> !ver_lt(best@, #[trigger] list@[j]@),
            decreases list@.len() - i,
        {
            let cand = &list[i];
            if best.precedes(cand) {
                proof {
                    lemma_ver_lt_irrefl(cand@);
                    assert forall|j: int| 0 <= j < i implies !ver_lt(cand@, #[trigger] list@[j]@) by {
                        if ver_lt(cand@, list@[j]@) {
                            lemma_ver_lt_trans(best@, cand@, list@[j]@);
                        }
                    }
                }
                best = cand;
            }
            i = i + 1;
        }
        Some(best.clone())
    }
}

} // verus!
