//! Verified building blocks for the path and version strings the library
//! produces: decimal rendering, splitting and joining on a separator
//! character, and character-exact string equality.

use vstd::prelude::*;

verus! {

/// Relies on `String::push`: appends exactly one character.
#[verifier::external_body]
pub fn string_push(s: &mut String, c: char)
    ensures
        final(s)@ == old(s)@ + seq![c],
{
    s.push(c);
}

/// The decimal digit character for a value below ten.
pub open spec fn digit_char(n: int) -> char {
    if n == 0 { '0' }
    else if n == 1 { '1' }
    else if n == 2 { '2' }
    else if n == 3 { '3' }
    else if n == 4 { '4' }
    else if n == 5 { '5' }
    else if n == 6 { '6' }
    else if n == 7 { '7' }
    else if n == 8 { '8' }
    else { '9' }
}

/// The usual decimal rendering of a natural number, most significant digit
/// first and without leading zeroes.
pub open spec fn dec_str(n: nat) -> Seq<char>
    decreases n,
{
    if n < 10 {
        seq![digit_char(n as int)]
    } else {
        dec_str(n / 10) + seq![digit_char((n % 10) as int)]
    }
}

fn digit_of(n: u64) -> (c: char)
    requires
        n < 10,
    ensures
        c == digit_char(n as int),
{
    if n == 0 { '0' }
    else if n == 1 { '1' }
    else if n == 2 { '2' }
    else if n == 3 { '3' }
    else if n == 4 { '4' }
    else if n == 5 { '5' }
    else if n == 6 { '6' }
    else if n == 7 { '7' }
    else if n == 8 { '8' }
    else { '9' }
}

/// Renders a number in decimal.
pub fn u64_to_string(n: u64) -> (r: String)
    ensures
        r@ == dec_str(n as nat),
{
    let mut rev: Vec<char> = Vec::new();
    let mut cur: u64 = n;
    while cur >= 10
        invariant
            dec_str(n as nat) == dec_str(cur as nat) + rev@.reverse(),
        decreases cur,
    {
        let d = digit_of(cur % 10);
        proof {
            assert(rev@.push(d).reverse() =~= seq![d] + rev@.reverse());
            assert(dec_str(cur as nat) == dec_str((cur as nat) / 10) + seq![d]);
            assert(dec_str((cur as nat) / 10) + (seq![d] + rev@.reverse())
                =~= (dec_str((cur as nat) / 10) + seq![d]) + rev@.reverse());
        }
        rev.push(d);
        cur = cur / 10;
    }
    let d = digit_of(cur);
    proof {
        assert(rev@.push(d).reverse() =~= seq![d] + rev@.reverse());
        assert(dec_str(cur as nat) == seq![d]);
    }
    rev.push(d);
    let ghost full = rev@.reverse();
    let mut r = String::new();
    let mut i: usize = rev.len();
    proof {
        assert(dec_str(n as nat) == full);
        assert(r@ =~= full.take(0));
    }
    while i > 0
        invariant
            i <= rev@.len(),
            full == rev@.reverse(),
            r@ == full.take(rev@.len() - i),
        decreases i,
    {
        i = i - 1;
        let c = rev[i];
        string_push(&mut r, c);
        proof {
            assert(full[rev@.len() - i - 1] == rev@[i as int]);
            assert(r@ =~= full.take(rev@.len() - i));
        }
    }
    proof {
        assert(full.take(rev@.len() as int) =~= full);
    }
    r
}

/// Character-exact equality of two string slices.
pub fn str_eq(a: &str, b: &str) -> (r: bool)
    ensures
        r == (a@ == b@),
{
    let alen = a.unicode_len();
    let blen = b.unicode_len();
    if alen != blen {
        proof {
            assert(a@ != b@);
        }
        return false;
    }
    let mut i: usize = 0;
    while i < alen
        invariant
            alen == a@.len(),
            blen == b@.len(),
            alen == blen,
            i <= alen,
            forall|j: int| 0 <= j < i ==> a@[j] == b@[j],
        decreases alen - i,
    {
        if a.get_char(i) != b.get_char(i) {
            proof {
                assert(a@[i as int] != b@[i as int]);
            }
            return false;
        }
        i = i + 1;
    }
    proof {
        assert(a@ =~= b@);
    }
    true
}

/// Splitting a character sequence on a separator, as `str::split` does:
/// the separators themselves disappear, an empty input gives one empty
/// part, and adjacent separators give empty parts.
pub open spec fn split_on(s: Seq<char>, sep: char) -> Seq<Seq<char>>
    decreases s.len(),
{
    if s.len() == 0 {
        seq![Seq::<char>::empty()]
    } else if s[0] == sep {
        seq![Seq::<char>::empty()] + split_on(s.drop_first(), sep)
    } else {
        let rest = split_on(s.drop_first(), sep);
        seq![seq![s[0]] + rest[0]] + rest.drop_first()
    }
}

pub proof fn lemma_split_on_len(s: Seq<char>, sep: char)
    ensures
        split_on(s, sep).len() >= 1,
    decreases s.len(),
{
    if s.len() != 0 {
        lemma_split_on_len(s.drop_first(), sep);
    }
}

/// Joining parts with a separator, the inverse shape of `split_on`.
pub open spec fn join_with(parts: Seq<Seq<char>>, sep: char) -> Seq<char>
    decreases parts.len(),
{
    if parts.len() == 0 {
        Seq::<char>::empty()
    } else if parts.len() == 1 {
        parts[0]
    } else {
        parts[0] + seq![sep] + join_with(parts.drop_first(), sep)
    }
}

/// Splits a string on a separator character.
pub fn split_str(s: &str, sep: char) -> (r: Vec<String>)
    ensures
        r.deep_view() == split_on(s@, sep),
{
    let len = s.unicode_len();
    let mut done: Vec<String> = Vec::new();
    let mut cur = String::new();
    let mut i: usize = 0;
    proof {
        lemma_split_on_len(s@, sep);
        assert(s@.skip(0) =~= s@);
        assert(done.deep_view() + shift_first(split_on(s@, sep), cur@) =~~= split_on(s@, sep));
    }
    while i < len
        invariant
            len == s@.len(),
            i <= len,
            split_on(s@, sep) == done.deep_view() + shift_first(split_on(s@.skip(i as int), sep), cur@),
        decreases len - i,
    {
        let c = s.get_char(i);
        proof {
            lemma_split_on_step(s@, sep, i as int);
            lemma_split_on_len(s@.skip(i as int + 1), sep);
        }
        let ghost old_done = done.deep_view();
        let ghost old_cur = cur@;
        let ghost rest = split_on(s@.skip(i as int + 1), sep);
        if c == sep {
            done.push(cur);
            cur = String::new();
            proof {
                assert(shift_first(seq![Seq::<char>::empty()] + rest, old_cur)
                    =~~= seq![old_cur] + rest);
                assert(done.deep_view() =~~= old_done + seq![old_cur]);
                assert(done.deep_view() + shift_first(rest, cur@) =~~= old_done + (seq![old_cur] + rest));
            }
        } else {
            string_push(&mut cur, c);
            proof {
                assert(shift_first(seq![seq![c] + rest[0]] + rest.drop_first(), old_cur)
                    =~~= shift_first(rest, cur@));
            }
        }
        i = i + 1;
    }
    proof {
        assert(s@.skip(len as int) =~= Seq::<char>::empty());
        assert(shift_first(split_on(s@.skip(len as int), sep), cur@) =~~= seq![cur@]);
    }
    let ghost old_done = done.deep_view();
    let ghost old_cur = cur@;
    done.push(cur);
    proof {
        assert(done.deep_view() =~~= old_done + seq![old_cur]);
    }
    done
}

/// The parts of a split with the pending prefix glued onto the first part.
spec fn shift_first(parts: Seq<Seq<char>>, prefix: Seq<char>) -> Seq<Seq<char>> {
    seq![prefix + parts[0]] + parts.drop_first()
}

proof fn lemma_split_on_step(s: Seq<char>, sep: char, i: int)
    requires
        0 <= i < s.len(),
    ensures
        s[i] == sep ==> split_on(s.skip(i), sep) == seq![Seq::<char>::empty()] + split_on(
            s.skip(i + 1),
            sep,
        ),
        s[i] != sep ==> split_on(s.skip(i), sep) == seq![seq![s[i]] + split_on(s.skip(i + 1), sep)[0]]
            + split_on(s.skip(i + 1), sep).drop_first(),
{
    assert(s.skip(i).len() > 0);
    assert(s.skip(i)[0] == s[i]);
    assert(s.skip(i).drop_first() =~= s.skip(i + 1));
}

/// Joins parts with a separator character.
pub fn join_str(parts: &Vec<String>, sep: char) -> (r: String)
    requires
        parts@.len() >= 1,
    ensures
        r@ == join_with(parts.deep_view(), sep),
{
    let mut r = String::new();
    let mut i: usize = 0;
    while i < parts.len()
        invariant
            1 <= parts@.len(),
            i <= parts@.len(),
            r@ == join_prefix(parts.deep_view(), sep, i as int),
        decreases parts@.len() - i,
    {
        if i > 0 {
            string_push(&mut r, sep);
        }
        let part = &parts[i];
        r.append(part.as_str());
        proof {
            lemma_join_prefix_step(parts.deep_view(), sep, i as int);
        }
        i = i + 1;
    }
    proof {
        lemma_join_prefix_full(parts.deep_view(), sep);
    }
    r
}

/// The join of the first `i` parts.
pub open spec fn join_prefix(parts: Seq<Seq<char>>, sep: char, i: int) -> Seq<char>
    decreases i,
{
    if i <= 0 {
        Seq::<char>::empty()
    } else if i == 1 {
        parts[0]
    } else {
        join_prefix(parts, sep, i - 1) + seq![sep] + parts[i - 1]
    }
}

proof fn lemma_join_prefix_step(parts: Seq<Seq<char>>, sep: char, i: int)
    requires
        0 <= i < parts.len(),
    ensures
        i == 0 ==> join_prefix(parts, sep, i + 1) == parts[0],
        i > 0 ==> join_prefix(parts, sep, i + 1) == join_prefix(parts, sep, i) + seq![sep]
            + parts[i],
{
}

proof fn lemma_join_prefix_full(parts: Seq<Seq<char>>, sep: char)
    requires
        parts.len() >= 1,
    ensures
        join_prefix(parts, sep, parts.len() as int) == join_with(parts, sep),
    decreases parts.len(),
{
    if parts.len() == 1 {
    } else {
        lemma_join_prefix_full(parts.drop_first(), sep);
        lemma_join_prefix_shift(parts, sep, parts.len() as int);
    }
}

proof fn lemma_join_prefix_shift(parts: Seq<Seq<char>>, sep: char, i: int)
    requires
        parts.len() >= 2,
        2 <= i <= parts.len(),
    ensures
        join_prefix(parts, sep, i) == parts[0] + seq![sep] + join_prefix(
            parts.drop_first(),
            sep,
            i - 1,
        ),
    decreases i,
{
    if i == 2 {
        assert(join_prefix(parts, sep, 1) == parts[0]);
        assert(join_prefix(parts, sep, 2) == join_prefix(parts, sep, 1) + seq![sep] + parts[1]);
        assert(join_prefix(parts.drop_first(), sep, 1) == parts.drop_first()[0]);
        assert(parts.drop_first()[0] == parts[1]);
    } else {
        lemma_join_prefix_shift(parts, sep, i - 1);
        assert(parts.drop_first()[i - 2] == parts[i - 1]);
        assert((parts[0] + seq![sep] + join_prefix(parts.drop_first(), sep, i - 2)) + seq![sep]
            + parts[i - 1] =~= parts[0] + seq![sep] + (join_prefix(parts.drop_first(), sep, i - 2)
            + seq![sep] + parts.drop_first()[i - 2]));
    }
}

} // verus!
