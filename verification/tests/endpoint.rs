use lm_studio::endpoint::{models_url, LISTING_TIMEOUT_SECS, PROBE_TIMEOUT_SECS};
use lm_studio::listing;
use lm_studio::probe;

#[test]
fn base_url_without_slash_gets_the_path() {
    assert_eq!(models_url("http://x"), "http://x/v1/models");
}

#[test]
fn base_url_with_slash_gets_the_same_address() {
    assert_eq!(models_url("http://x/"), "http://x/v1/models");
    assert_eq!(models_url("http://x/"), models_url("http://x"));
}

#[test]
fn every_trailing_slash_is_dropped() {
    assert_eq!(models_url("http://localhost:1234///"), "http://localhost:1234/v1/models");
}

#[test]
fn slashes_inside_the_base_url_stay() {
    assert_eq!(models_url("http://host/a//b/"), "http://host/a//b/v1/models");
}

#[test]
fn empty_base_url_gives_the_bare_path() {
    assert_eq!(models_url(""), "/v1/models");
}

#[test]
fn base_url_of_slashes_only_gives_the_bare_path() {
    assert_eq!(models_url("/"), "/v1/models");
    assert_eq!(models_url("////"), "/v1/models");
}

#[test]
fn base_url_beyond_ascii_is_cut_at_characters() {
    assert_eq!(models_url("http://münchen.example/é//"), "http://münchen.example/é/v1/models");
}

#[test]
fn models_url_agrees_with_trim_end_matches() {
    let bases = ["http://127.0.0.1:1234", "http://127.0.0.1:1234/", "a/b/c//", "/x", "x/ ", ""];
    for base in bases {
        assert_eq!(models_url(base), format!("{}/v1/models", base.trim_end_matches('/')));
    }
}

#[test]
fn listing_request_allows_ten_seconds() {
    let request = listing::request("http://localhost:1234/");
    assert_eq!(request.url, "http://localhost:1234/v1/models");
    assert_eq!(request.timeout_secs, 10);
    assert_eq!(LISTING_TIMEOUT_SECS, 10);
}

#[test]
fn probe_request_allows_five_seconds() {
    let request = probe::request("http://localhost:1234/");
    assert_eq!(request.url, "http://localhost:1234/v1/models");
    assert_eq!(request.timeout_secs, 5);
    assert_eq!(PROBE_TIMEOUT_SECS, 5);
}
