//! The registry side of the pipeline: the sharded index path of a crate
//! name, the parsing of a newline-delimited index response, the resolution
//! of a version parameter, the request throttle, and the local read-through
//! tarball cache.

use vstd::prelude::*;
use crate::errors::ApiError;
use crate::ids::{CratesIoCrateId, CratesIoCrateIdV};
use crate::storage::{assoc, ByteStore};
use crate::strutil::{split_on, split_str, string_push, str_eq};
use crate::version::{semver_parse_of, ver_lt, version_chars, SemVer, SemVerV};

verus! {

/// ASCII lowercase of one character; other characters pass unchanged.
pub open spec fn lower_char(c: char) -> char {
    if 65 <= c as int && c as int <= 90 {
        ((c as int + 32) as u8) as char
    } else {
        c
    }
}

/// ASCII lowercase of a character sequence.
pub open spec fn lower_chars(s: Seq<char>) -> Seq<char> {
    s.map_values(|c: char| lower_char(c))
}

fn ascii_lowercase(s: &str) -> (r: String)
    ensures
        r@ == lower_chars(s@),
{
    let len = s.unicode_len();
    let mut r = String::new();
    let mut i: usize = 0;
    proof {
        assert(r@ =~= lower_chars(s@.take(0)));
    }
    while i < len
        invariant
            len == s@.len(),
            i <= len,
            r@ == lower_chars(s@.take(i as int)),
        decreases len - i,
    {
        let c = s.get_char(i);
        let cu = c as u32;
        if 65 <= cu && cu <= 90 {
            let lowered = (cu + 32) as u8;
            string_push(&mut r, lowered as char);
        } else {
            string_push(&mut r, c);
        }
        proof {
            assert(lower_chars(s@.take(i + 1)) =~= lower_chars(s@.take(i as int)) + seq![
                lower_char(s@[i as int]),
            ]);
        }
        i = i + 1;
    }
    proof {
        assert(s@.take(len as int) =~= s@);
    }
    r
}

/// The sharded index file path of a lowercased crate name: length one and
/// two map to `1/<name>` and `2/<name>`, length three to
/// `3/<first char>/<name>`, and longer names to
/// `<chars 0-1>/<chars 2-3>/<name>`.
pub open spec fn index_shard_chars(lower: Seq<char>) -> Seq<char> {
    if lower.len() == 1 {
        "1/"@ + lower
    } else if lower.len() == 2 {
        "2/"@ + lower
    } else if lower.len() == 3 {
        "3/"@ + lower.take(1) + seq!['/'] + lower
    } else {
        lower.take(2) + seq!['/'] + lower.subrange(2, 4) + seq!['/'] + lower
    }
}

/// The versioned per-crate index endpoint on the registry's index host.
pub open spec fn crate_index_url_chars(name: Seq<char>) -> Seq<char> {
    "https://index.crates.io/"@ + index_shard_chars(lower_chars(name))
}

/// The index endpoint listing the published versions of a crate name. The
/// name is lowercased before bucketing. A fetch of this endpoint counts
/// against the same process-wide throttle as every other registry
/// request: the caller puts it through [`Throttle::throttle`] first.
pub fn crate_index_url(crate_name: &str) -> (r: String)
    requires
        crate_name@.len() > 0,
    ensures
        r@ == crate_index_url_chars(crate_name@),
{
    let lower = ascii_lowercase(crate_name);
    let len = lower.as_str().unicode_len();
    let mut r = String::from_str("https://index.crates.io/");
    if len == 1 {
        r.append("1/");
        r.append(lower.as_str());
    } else if len == 2 {
        r.append("2/");
        r.append(lower.as_str());
    } else if len == 3 {
        r.append("3/");
        let head = lower.as_str().substring_char(0, 1);
        r.append(head);
        string_push(&mut r, '/');
        r.append(lower.as_str());
    } else {
        let first = lower.as_str().substring_char(0, 2);
        let second = lower.as_str().substring_char(2, 4);
        r.append(first);
        string_push(&mut r, '/');
        r.append(second);
        string_push(&mut r, '/');
        r.append(lower.as_str());
    }
    proof {
        assert(lower@.take(1) =~= lower@.subrange(0, 1));
        assert(lower@.take(2) =~= lower@.subrange(0, 2));
        assert(r@ =~= crate_index_url_chars(crate_name@));
    }
    r
}

/// The registry's archive download endpoint for one identity:
/// `https://crates.io/api/v1/crates/<name>/<version>/download`.
pub open spec fn tarball_url_chars(id: CratesIoCrateIdV) -> Seq<char> {
    "https://crates.io/api/v1/crates/"@ + id.crate_name + seq!['/'] + version_chars(id.version)
        + "/download"@
}

/// The address a crate's archive is downloaded from.
pub fn tarball_url(crate_id: &CratesIoCrateId) -> (r: String)
    ensures
        r@ == tarball_url_chars(crate_id@),
{
    let mut r = String::from_str("https://crates.io/api/v1/crates/");
    r.append(crate_id.crate_name.as_str());
    string_push(&mut r, '/');
    let v = crate_id.version.to_display_string();
    r.append(v.as_str());
    r.append("/download");
    proof {
        assert(r@ =~= tarball_url_chars(crate_id@));
    }
    r
}

/// Addition clamped to the largest machine time value.
pub open spec fn sat_add(a: int, b: int) -> int {
    if a + b > u64::MAX {
        u64::MAX as int
    } else {
        a + b
    }
}

/// The earliest instant at which the next request may proceed.
pub open spec fn throttle_deadline(last: Option<u64>, interval: int) -> int {
    match last {
        Option::None => 0,
        Option::Some(l) => sat_add(l as int, interval),
    }
}

/// The registry allows no more than one request per second, from this
/// process as a whole: a single shared throttle spaces every outbound
/// request, whoever the caller is.
pub struct Throttle {
    /// The instant, in milliseconds, at which the previous request
    /// proceeded; nothing has been fetched yet when absent.
    pub last_fetch_millis: Option<u64>,
    /// The minimum spacing between requests, in milliseconds.
    pub min_interval_millis: u64,
}

impl Default for Throttle {
    fn default() -> (r: Self)
        ensures
            r.last_fetch_millis is None,
            r.min_interval_millis == 1000,
    {
        Throttle { last_fetch_millis: None, min_interval_millis: 1000 }
    }
}

impl Throttle {
    /// A throttle whose first request proceeds immediately, spacing
    /// requests one second apart thereafter.
    pub fn new() -> (r: Self)
        ensures
            r.last_fetch_millis is None,
            r.min_interval_millis == 1000,
    {
        Throttle::default()
    }

    /// Decides how long a request arriving now must wait, and records the
    /// instant at which it will proceed. The caller performs the actual
    /// wait of `wait` milliseconds before sending.
    pub fn throttle(&mut self, now_millis: u64) -> (wait: u64)
        ensures
            ({
                let deadline = throttle_deadline(
                    old(self).last_fetch_millis,
                    old(self).min_interval_millis as int,
                );
                &&& wait == if now_millis < deadline {
                    deadline - now_millis
                } else {
                    0
                }
                &&& final(self).last_fetch_millis == Some((now_millis + wait) as u64)
                &&& final(self).min_interval_millis == old(self).min_interval_millis
            }),
    {
        let wait: u64 = match self.last_fetch_millis {
            None => 0,
            Some(l) => {
                let deadline = if l > u64::MAX - self.min_interval_millis {
                    u64::MAX
                } else {
                    l + self.min_interval_millis
                };
                if now_millis < deadline {
                    deadline - now_millis
                } else {
                    0
                }
            },
        };
        self.last_fetch_millis = Some(now_millis + wait);
        wait
    }
}

/// Two requests put through the throttle in turn proceed at least the
/// configured interval apart, however soon the second one arrives.
pub proof fn lemma_throttle_spacing(
    interval: int,
    proceed1: int,
    now2: int,
    wait2: int,
)
    requires
        0 <= proceed1,
        0 <= interval,
        proceed1 + interval <= u64::MAX,
        wait2 == if now2 < throttle_deadline(Some(proceed1 as u64), interval) {
            throttle_deadline(Some(proceed1 as u64), interval) - now2
        } else {
            0
        },
        0 <= now2,
    ensures
        now2 + wait2 >= proceed1 + interval,
{
}

/// A request that arrives after the interval has already passed waits
/// nothing.
pub proof fn lemma_throttle_no_extra_delay(
    interval: int,
    proceed1: int,
    now2: int,
    wait2: int,
)
    requires
        0 <= proceed1,
        0 <= interval,
        proceed1 + interval <= u64::MAX,
        now2 >= proceed1 + interval,
        wait2 == if now2 < throttle_deadline(Some(proceed1 as u64), interval) {
            throttle_deadline(Some(proceed1 as u64), interval) - now2
        } else {
            0
        },
    ensures
        wait2 == 0,
{
}

/// The mathematical value of a [`RawIndexEntry`].
pub ghost struct RawIndexEntryV {
    pub name: Seq<char>,
    pub vers: Seq<char>,
    pub yanked: bool,
}

/// One line of an index response, before version parsing.
#[derive(Debug)]
pub struct RawIndexEntry {
    pub name: String,
    pub vers: String,
    pub yanked: bool,
}

impl View for RawIndexEntry {
    type V = RawIndexEntryV;

    open spec fn view(&self) -> RawIndexEntryV {
        RawIndexEntryV { name: self.name@, vers: self.vers@, yanked: self.yanked }
    }
}

/// What one index line holds: the record's crate name, version string and
/// yanked flag where the line is a JSON object shaped as an index record,
/// nothing otherwise.
pub uninterp spec fn index_line_of(line: Seq<char>) -> Option<RawIndexEntryV>;

/// Relies on `serde_json::from_str` and `serde_json::Value::{get, as_str,
/// as_bool}`: a line yields a record exactly when it is a JSON object with
/// string members `name` and `vers`; a missing or non-boolean `yanked`
/// member reads as false.
#[verifier::external_body]
fn parse_index_line(line: &str) -> (r: Option<RawIndexEntry>)
    ensures
        r matches Some(e) ==> index_line_of(line@) == Some(e@),
        r is None ==> index_line_of(line@) is None,
{
    let v: serde_json::Value = match serde_json::from_str(line) {
        Ok(v) => v,
        Err(_) => return None,
    };
    let name = v.get("name")?.as_str()?.to_owned();
    let vers = v.get("vers")?.as_str()?.to_owned();
    let yanked = v.get("yanked").and_then(|y| y.as_bool()).unwrap_or(false);
    Some(RawIndexEntry { name, vers, yanked })
}

/// The mathematical value of an [`IndexEntry`].
pub ghost struct IndexEntryV {
    pub name: Seq<char>,
    pub vers: SemVerV,
    pub yanked: bool,
}

/// One published version of a crate, as the index records it.
#[derive(Debug)]
pub struct IndexEntry {
    pub name: String,
    pub vers: SemVer,
    pub yanked: bool,
}

impl View for IndexEntry {
    type V = IndexEntryV;

    open spec fn view(&self) -> IndexEntryV {
        IndexEntryV { name: self.name@, vers: self.vers@, yanked: self.yanked }
    }
}

impl DeepView for IndexEntry {
    type V = IndexEntryV;

    open spec fn deep_view(&self) -> IndexEntryV {
        self@
    }
}

/// The parse of a whole index response, line by line: empty lines are
/// skipped, every other line must be an index record carrying a valid
/// semantic version, and one bad line fails the whole response.
pub open spec fn parse_index_chars(lines: Seq<Seq<char>>) -> Option<Seq<IndexEntryV>>
    decreases lines.len(),
{
    if lines.len() == 0 {
        Some(Seq::<IndexEntryV>::empty())
    } else if lines[0].len() == 0 {
        parse_index_chars(lines.drop_first())
    } else {
        match index_line_of(lines[0]) {
            Option::None => None,
            Option::Some(e) => match semver_parse_of(e.vers) {
                Option::None => None,
                Option::Some(v) => match parse_index_chars(lines.drop_first()) {
                    Option::None => None,
                    Option::Some(tail) => Some(
                        seq![IndexEntryV { name: e.name, vers: v, yanked: e.yanked }] + tail,
                    ),
                },
            },
        }
    }
}

proof fn lemma_parse_index_skip(lines: Seq<Seq<char>>, i: int)
    requires
        0 <= i < lines.len(),
    ensures
        lines[i].len() == 0 ==> parse_index_chars(lines.skip(i)) == parse_index_chars(
            lines.skip(i + 1),
        ),
        lines[i].len() != 0 ==> parse_index_chars(lines.skip(i)) == (match index_line_of(
            lines[i],
        ) {
            Option::None => None,
            Option::Some(e) => match semver_parse_of(e.vers) {
                Option::None => None,
                Option::Some(v) => match parse_index_chars(lines.skip(i + 1)) {
                    Option::None => None,
                    Option::Some(tail) => Some(
                        seq![IndexEntryV { name: e.name, vers: v, yanked: e.yanked }] + tail,
                    ),
                },
            },
        }),
{
    assert(lines.skip(i).drop_first() =~= lines.skip(i + 1));
    assert(lines.skip(i)[0] == lines[i]);
}

/// Parses a newline-delimited index response. Each non-empty line is
/// parsed independently; a failure on any line fails the whole call with
/// nothing partial returned.
pub fn parse_crate_index(body: &str) -> (r: Result<Vec<IndexEntry>, ApiError>)
    ensures
        r matches Ok(es) ==> parse_index_chars(split_on(body@, '\n')) == Some(es.deep_view()),
        r matches Err(e) ==> parse_index_chars(split_on(body@, '\n')) is None && e
            == ApiError::MalformedUpstreamData,
{
    let lines = split_str(body, '\n');
    let ghost linesv = lines.deep_view();
    let mut out: Vec<IndexEntry> = Vec::new();
    let mut i: usize = 0;
    proof {
        assert(linesv.skip(0) =~= linesv);
        assert(out.deep_view() =~= Seq::<IndexEntryV>::empty());
    }
    while i < lines.len()
        invariant
            linesv == lines.deep_view(),
            linesv == split_on(body@, '\n'),
            i <= linesv.len(),
            linesv.len() == lines@.len(),
            match parse_index_chars(linesv.skip(i as int)) {
                Option::Some(tail) => parse_index_chars(linesv) == Some(out.deep_view() + tail),
                Option::None => parse_index_chars(linesv) is None,
            },
        decreases linesv.len() - i,
    {
        let line = &lines[i];
        proof {
            assert(line@ == linesv[i as int]);
            lemma_parse_index_skip(linesv, i as int);
        }
        if !line.as_str().is_empty() {
            let parsed = parse_index_line(line.as_str());
            match parsed {
                None => {
                    proof {
                        assert(parse_index_chars(linesv.skip(i as int)) is None);
                    }
                    return Err(ApiError::MalformedUpstreamData);
                },
                Some(raw) => {
                    let vers = SemVer::parse(raw.vers.as_str());
                    match vers {
                        None => {
                            proof {
                                assert(parse_index_chars(linesv.skip(i as int)) is None);
                            }
                            return Err(ApiError::MalformedUpstreamData);
                        },
                        Some(v) => {
                            let ghost prev = out.deep_view();
                            out.push(IndexEntry { name: raw.name, vers: v, yanked: raw.yanked });
                            proof {
                                let entryv = out@[out@.len() - 1].deep_view();
                                assert(out.deep_view() =~= prev + seq![entryv]);
                                match parse_index_chars(linesv.skip(i + 1)) {
                                    Option::Some(tail) => {
                                        assert(prev + (seq![entryv] + tail) =~= (prev + seq![
                                            entryv,
                                        ]) + tail);
                                    },
                                    Option::None => {},
                                }
                            }
                        },
                    }
                },
            }
        }
        i = i + 1;
    }
    proof {
        assert(linesv.skip(linesv.len() as int) =~= Seq::<Seq<char>>::empty());
        assert(out.deep_view() + Seq::<IndexEntryV>::empty() =~= out.deep_view());
    }
    Ok(out)
}

/// The versions a parsed index lists, in index order.
pub fn versions_of_index(entries: &Vec<IndexEntry>) -> (r: Vec<SemVer>)
    ensures
        r@.len() == entries@.len(),
        forall|i: int| 0 <= i < entries@.len() ==> r@[i]@ == #[trigger] entries@[i]@.vers,
{
    let mut out: Vec<SemVer> = Vec::new();
    let mut i: usize = 0;
    while i < entries.len()
        invariant
            i <= entries@.len(),
            out@.len() == i,
            forall|j: int| 0 <= j < i ==> out@[j]@ == #[trigger] entries@[j]@.vers,
        decreases entries@.len() - i,
    {
        out.push(entries[i].vers.clone());
        i = i + 1;
    }
    out
}

/// The published versions named by a whole index response, in index
/// order: the `listVersions` answer of the registry, computed from the
/// fetched body.
pub fn versions_from_index_body(body: &str) -> (r: Result<Vec<SemVer>, ApiError>)
    ensures
        r matches Ok(vs) ==> (parse_index_chars(split_on(body@, '\n')) matches Some(es)
            && vs@.len() == es.len() && (forall|i: int|
            0 <= i < es.len() ==> vs@[i]@ == #[trigger] es[i].vers)),
        r matches Err(e) ==> parse_index_chars(split_on(body@, '\n')) is None && e
            == ApiError::MalformedUpstreamData,
{
    let entries = match parse_crate_index(body) {
        Ok(es) => es,
        Err(e) => {
            return Err(e);
        },
    };
    let versions = versions_of_index(&entries);
    proof {
        assert forall|i: int| 0 <= i < entries@.len() implies versions@[i]@ == #[trigger] entries.deep_view()[i].vers by {
            assert(entries.deep_view()[i] == entries@[i]@);
        }
    }
    Ok(versions)
}

/// Resolves a version parameter against the known version list: the token
/// `latest` picks the highest listed version and is owed success whenever
/// the list is non-empty; any other token must itself be a valid version.
pub fn resolve_version_param(versions: &Vec<SemVer>, version_param: &str) -> (r: Result<
    SemVer,
    ApiError,
>)
    ensures
        version_param@ == "latest"@ ==> match r {
            Result::Ok(v) => versions@.len() > 0 && (exists|i: int|
                0 <= i < versions@.len() && v@ == versions@[i]@) && (forall|i: int|
                0 <= i < versions@.len() ==> !ver_lt(v@, #[trigger] versions@[i]@)),
            Result::Err(e) => versions@.len() == 0 && e == ApiError::NotFoundUpstream,
        },
        version_param@ != "latest"@ ==> match r {
            Result::Ok(v) => semver_parse_of(version_param@) == Some(v@),
            Result::Err(e) => semver_parse_of(version_param@) is None && e
                == ApiError::MalformedUpstreamData,
        },
{
    if str_eq(version_param, "latest") {
        match SemVer::latest_of(versions) {
            Some(v) => Ok(v),
            None => Err(ApiError::NotFoundUpstream),
        }
    } else {
        match SemVer::parse(version_param) {
            Some(v) => Ok(v),
            None => Err(ApiError::MalformedUpstreamData),
        }
    }
}

/// The filesystem path a cached tarball lives at:
/// `<prefix>/<name>-<version>.crate`.
pub open spec fn tarball_path_chars(prefix: Seq<char>, name: Seq<char>, version: Seq<char>) -> Seq<
    char,
> {
    prefix + seq!['/'] + name + seq!['-'] + version + ".crate"@
}

/// The key the local cache stores a crate's tarball under.
pub open spec fn tarball_key(id: CratesIoCrateIdV) -> Seq<char> {
    tarball_path_chars("target/tarball-cache"@, id.crate_name, version_chars(id.version))
}

/// A read-through cache in front of the registry, backed by local disk:
/// a hit avoids the network and the throttle entirely.
pub struct LocalCacheRegistry {
    /// The model of the local tarball directory.
    pub cache: ByteStore,
    /// Only read from local, but dont write, useful for staging.
    pub read_only: bool,
}

impl LocalCacheRegistry {
    pub fn new() -> (r: Self)
        ensures
            r.cache.contents() == Seq::<(Seq<char>, Seq<u8>)>::empty(),
            !r.read_only,
    {
        LocalCacheRegistry { cache: ByteStore::new(), read_only: false }
    }

    /// A cache that serves hits but never writes, for environments sharing
    /// a read-only snapshot.
    pub fn read_only() -> (r: Self)
        ensures
            r.cache.contents() == Seq::<(Seq<char>, Seq<u8>)>::empty(),
            r.read_only,
    {
        LocalCacheRegistry { cache: ByteStore::new(), read_only: true }
    }

    /// The cache path of one crate's tarball.
    pub fn tarball_path(prefix: &str, crate_name: &str, version: &str) -> (r: String)
        ensures
            r@ == tarball_path_chars(prefix@, crate_name@, version@),
    {
        let mut r = prefix.to_owned();
        string_push(&mut r, '/');
        r.append(crate_name);
        string_push(&mut r, '-');
        r.append(version);
        r.append(".crate");
        proof {
            assert(r@ =~= tarball_path_chars(prefix@, crate_name@, version@));
        }
        r
    }

    /// The locally cached tarball of an identity, if one is on disk.
    pub fn cached_tarball(&self, crate_id: &CratesIoCrateId) -> (r: Option<&Vec<u8>>)
        ensures
            r matches Some(b) ==> assoc(self.cache.contents(), tarball_key(crate_id@)) == Some(b@),
            r is None ==> assoc(self.cache.contents(), tarball_key(crate_id@)) is None,
    {
        let version = crate_id.version.to_display_string();
        let path = Self::tarball_path(
            "target/tarball-cache",
            crate_id.crate_name.as_str(),
            version.as_str(),
        );
        self.cache.get(path.as_str())
    }

    /// The archive of a registry identity, read through the cache: a hit
    /// is served from disk with no upstream access; on a miss the upstream
    /// bytes — which the caller must then have fetched, throttled — are
    /// returned and remembered for the next call, unless the cache is
    /// read-only.
    pub fn tarball(&mut self, crate_id: &CratesIoCrateId, upstream: Option<&Vec<u8>>) -> (r:
        Result<Vec<u8>, ApiError>)
        requires
            assoc(old(self).cache.contents(), tarball_key(crate_id@)) is Some || upstream is Some,
        ensures
            final(self).read_only == old(self).read_only,
            assoc(old(self).cache.contents(), tarball_key(crate_id@)) matches Some(b) ==> (r
                matches Ok(rb) && rb@ == b && final(self).cache.contents() == old(
                self,
            ).cache.contents()),
            (assoc(old(self).cache.contents(), tarball_key(crate_id@)) is None) ==> (upstream
                matches Some(u) && r matches Ok(rb) && rb@ == u@ && (if old(self).read_only {
                final(self).cache.contents() == old(self).cache.contents()
            } else {
                final(self).cache.contents() == seq![(tarball_key(crate_id@), u@)] + old(
                    self,
                ).cache.contents()
            })),
    {
        let hit = match self.cached_tarball(crate_id) {
            Some(b) => Some(crate::storage::clone_bytes(b)),
            None => None,
        };
        if let Some(b) = hit {
            return Ok(b);
        }
        let fetched = match upstream {
            Some(u) => u,
            None => {
                proof {
                    assert(false);
                }
                return Err(ApiError::NotFound);
            },
        };
        self.store_fetched_tarball(crate_id, fetched);
        Ok(crate::storage::clone_bytes(fetched))
    }

    /// Persists bytes fetched from the registry for later hits — unless the
    /// cache is read-only, which must never write.
    pub fn store_fetched_tarball(&mut self, crate_id: &CratesIoCrateId, bytes: &Vec<u8>)
        ensures
            final(self).read_only == old(self).read_only,
            old(self).read_only ==> final(self).cache.contents() == old(self).cache.contents(),
            !old(self).read_only ==> final(self).cache.contents() == seq![
                (tarball_key(crate_id@), bytes@),
            ] + old(self).cache.contents(),
    {
        if self.read_only {
            return ;
        }
        let version = crate_id.version.to_display_string();
        let path = Self::tarball_path(
            "target/tarball-cache",
            crate_id.crate_name.as_str(),
            version.as_str(),
        );
        self.cache.put(path, bytes.clone());
    }
}

/// Filling a miss makes the next fetch of the same identity a hit that
/// returns exactly the bytes the first fetch produced: the second fetch
/// needs no upstream call.
pub proof fn lemma_cache_idempotent(
    pre: LocalCacheRegistry,
    post: LocalCacheRegistry,
    id: CratesIoCrateIdV,
    bytes: Seq<u8>,
)
    requires
        !pre.read_only,
        post.cache.contents() == seq![(tarball_key(id), bytes)] + pre.cache.contents(),
    ensures
        assoc(post.cache.contents(), tarball_key(id)) == Some(bytes),
{
    assert(post.cache.contents()[0] == (tarball_key(id), bytes));
}

} // verus!
