use bevyhub_api::errors::ApiError;
use bevyhub_api::ids::CratesIoCrateId;
use bevyhub_api::registry::{
    crate_index_url, parse_crate_index, resolve_version_param, versions_of_index,
    LocalCacheRegistry, Throttle,
};
use bevyhub_api::version::SemVer;

#[test]
fn crates_io_api_works() {
    assert_eq!(
        crate_index_url("bevyhub_api").as_str(),
        "https://index.crates.io/be/vy/bevyhub_api"
    );
}

#[test]
fn crate_index_url_buckets_by_length() {
    assert_eq!(crate_index_url("a"), "https://index.crates.io/1/a");
    assert_eq!(crate_index_url("ab"), "https://index.crates.io/2/ab");
    assert_eq!(crate_index_url("abc"), "https://index.crates.io/3/a/abc");
    assert_eq!(crate_index_url("abcd"), "https://index.crates.io/ab/cd/abcd");
}

#[test]
fn crate_index_url_lowercases_first() {
    assert_eq!(crate_index_url("Serde"), "https://index.crates.io/se/rd/serde");
    assert_eq!(crate_index_url("ABC"), "https://index.crates.io/3/a/abc");
}

#[test]
fn throttle_spaces_requests_one_interval_apart() {
    let mut throttle = Throttle::new();
    // the first request proceeds immediately
    assert_eq!(throttle.throttle(5000), 0);
    // a request arriving 200 ms later waits out the rest of the second
    assert_eq!(throttle.throttle(5200), 800);
    // that request proceeded at 6000; back-to-back spacing held
    assert_eq!(throttle.throttle(6000), 1000);
}

#[test]
fn throttle_adds_nothing_after_the_interval_passed() {
    let mut throttle = Throttle::new();
    assert_eq!(throttle.throttle(1000), 0);
    // more than one second later: no extra delay
    assert_eq!(throttle.throttle(2500), 0);
    assert_eq!(throttle.throttle(3500), 0);
}

#[test]
fn parse_crate_index_reads_every_nonempty_line() {
    let body = "{\"name\":\"bevyhub_template\",\"vers\":\"0.0.1-rc.1\",\"yanked\":false}\n\n{\"name\":\"bevyhub_template\",\"vers\":\"0.1.0\",\"yanked\":true}\n";
    let entries = parse_crate_index(body).unwrap();
    assert_eq!(entries.len(), 2);
    assert_eq!(entries[0].name, "bevyhub_template");
    assert_eq!(entries[0].vers, SemVer::parse("0.0.1-rc.1").unwrap());
    assert!(!entries[0].yanked);
    assert!(entries[1].yanked);
}

#[test]
fn parse_crate_index_fails_fast_on_one_bad_line() {
    let body = "{\"name\":\"a\",\"vers\":\"1.0.0\"}\nnot json at all\n";
    assert_eq!(
        parse_crate_index(body).unwrap_err(),
        ApiError::MalformedUpstreamData
    );
    let bad_version = "{\"name\":\"a\",\"vers\":\"not-a-version\"}\n";
    assert_eq!(
        parse_crate_index(bad_version).unwrap_err(),
        ApiError::MalformedUpstreamData
    );
}

#[test]
fn versions_come_straight_from_the_index_body() {
    let body = "{\"name\":\"a\",\"vers\":\"1.0.0\"}\n{\"name\":\"a\",\"vers\":\"2.0.0\"}\n";
    let versions = bevyhub_api::registry::versions_from_index_body(body).unwrap();
    assert_eq!(versions, vec![SemVer::new(1, 0, 0), SemVer::new(2, 0, 0)]);
}

#[test]
fn resolve_version_param_latest_picks_the_highest() {
    let body = "{\"name\":\"a\",\"vers\":\"1.0.0\"}\n{\"name\":\"a\",\"vers\":\"1.1.0\"}\n{\"name\":\"a\",\"vers\":\"1.0.5\"}\n";
    let versions = versions_of_index(&parse_crate_index(body).unwrap());
    let latest = resolve_version_param(&versions, "latest").unwrap();
    assert_eq!(latest, SemVer::new(1, 1, 0));
    let exact = resolve_version_param(&versions, "1.0.5").unwrap();
    assert_eq!(exact, SemVer::new(1, 0, 5));
    assert_eq!(
        resolve_version_param(&versions, "nonsense").unwrap_err(),
        ApiError::MalformedUpstreamData
    );
    let empty: Vec<SemVer> = Vec::new();
    assert_eq!(
        resolve_version_param(&empty, "latest").unwrap_err(),
        ApiError::NotFoundUpstream
    );
}

#[test]
fn version_precedence_follows_the_semantic_rules() {
    let release = SemVer::new(1, 0, 0);
    let alpha = SemVer::parse("1.0.0-alpha").unwrap();
    let rc9 = SemVer::parse("1.0.0-rc.9").unwrap();
    let rc10 = SemVer::parse("1.0.0-rc.10").unwrap();
    // a pre-release precedes its release
    assert!(alpha.precedes(&release));
    assert!(!release.precedes(&alpha));
    // numeric identifiers compare numerically, not lexically
    assert!(rc9.precedes(&rc10));
    assert!(!rc10.precedes(&rc9));
    // numeric identifiers rank below alphanumeric ones
    let num = SemVer::parse("1.0.0-1").unwrap();
    assert!(num.precedes(&alpha));
    let list = vec![release.clone(), alpha.clone(), rc10.clone()];
    assert_eq!(SemVer::latest_of(&list).unwrap(), release);
    let none: Vec<SemVer> = Vec::new();
    assert!(SemVer::latest_of(&none).is_none());
}

#[test]
fn version_renders_canonically() {
    assert_eq!(SemVer::new(1, 20, 3).to_display_string(), "1.20.3");
    assert_eq!(
        SemVer::parse("0.0.1-rc.1").unwrap().to_display_string(),
        "0.0.1-rc.1"
    );
    assert_eq!(
        SemVer::parse("1.2.3-rc.1+build.7").unwrap().to_display_string(),
        "1.2.3-rc.1+build.7"
    );
}

#[test]
fn local_cache_registry_tarball_round_trip() {
    let id = CratesIoCrateId::bevyhub_template();
    let mut cache = LocalCacheRegistry::new();
    assert!(cache.cached_tarball(&id).is_none());
    let bytes = vec![1u8, 2, 3, 4];
    cache.store_fetched_tarball(&id, &bytes);
    // the second fetch hits locally and returns the same bytes
    assert_eq!(cache.cached_tarball(&id).unwrap(), &bytes);
}

#[test]
fn tarball_is_fetched_upstream_at_most_once() {
    let id = CratesIoCrateId::bevyhub_template();
    let mut cache = LocalCacheRegistry::new();
    let upstream = vec![9u8, 8, 7];
    // the first fetch misses and consumes the upstream bytes
    let first = cache.tarball(&id, Some(&upstream)).unwrap();
    // the second fetch brings nothing from upstream and still answers,
    // with the same bytes
    let second = cache.tarball(&id, None).unwrap();
    assert_eq!(first, upstream);
    assert_eq!(second, first);
}

#[test]
fn read_only_cache_never_writes() {
    let id = CratesIoCrateId::bevyhub_template();
    let mut cache = LocalCacheRegistry::read_only();
    cache.store_fetched_tarball(&id, &vec![1u8, 2, 3]);
    assert!(cache.cached_tarball(&id).is_none());
}

#[test]
fn tarball_url_names_the_download_endpoint() {
    let id = CratesIoCrateId::bevyhub_template();
    assert_eq!(
        bevyhub_api::registry::tarball_url(&id),
        "https://crates.io/api/v1/crates/bevyhub_template/0.0.1-rc.1/download"
    );
}

#[test]
fn tarball_path_names_crate_and_version() {
    let path = LocalCacheRegistry::tarball_path("target/tarball-cache", "bevyhub_template", "0.0.1-rc.1");
    assert_eq!(path, "target/tarball-cache/bevyhub_template-0.0.1-rc.1.crate");
}
