use hnw::api::{
    analytics_path, drive_files_path, duplicate_path, endpoint, failure_text, is_success,
    metadata_path, normalize_credentials, response_error_message, search_path, search_path_for,
    site_path, key_source, CredentialError, KeySource,
};
use hnw::messages::join_all;
use hnw::model::{metadata_patch, site_from_hit, sites_from_hits, SearchResult};
use hnw::text::{decimal_string, first_chars, trimmed, without_trailing};
use hnw::time::{describe_elapsed, relative_time, relative_time_at};

#[test]
fn credentials_are_trimmed() {
    let credentials = normalize_credentials("hnk_example\n", "https://here.now/").unwrap();
    assert_eq!(credentials.api_key, "hnk_example");
    assert_eq!(credentials.base_url, "https://here.now");
}

#[test]
fn empty_key_is_refused() {
    let err = normalize_credentials(" \t\u{3000}\n", "https://here.now").unwrap_err();
    assert_eq!(err, CredentialError::EmptyKey);
    assert_eq!(err.message(), "here.now API key is empty");
}

#[test]
fn trailing_slashes_go_and_inner_ones_stay() {
    assert_eq!(without_trailing("https://a/b///", '/'), "https://a/b");
    assert_eq!(without_trailing("///", '/'), "");
    assert_eq!(trimmed("\u{a0} x y \u{2003}"), "x y");
    assert_eq!(first_chars("abc", 10), "abc");
    assert_eq!(first_chars("2024-01-02T03", 10), "2024-01-02");
}

#[test]
fn decimals_have_no_leading_zeros() {
    assert_eq!(decimal_string(0), "0");
    assert_eq!(decimal_string(1500), "1500");
    assert_eq!(decimal_string(u64::MAX), "18446744073709551615");
}

#[test]
fn paths_follow_the_api() {
    let credentials = normalize_credentials("k", "https://here.now/").unwrap();
    assert_eq!(endpoint(&credentials, &site_path("blog")), "https://here.now/api/v1/publish/blog");
    assert_eq!(metadata_path("blog"), "/api/v1/publish/blog/metadata");
    assert_eq!(duplicate_path("blog"), "/api/v1/publish/blog/duplicate");
    assert_eq!(analytics_path("blog", "30d"), "/api/v1/publishes/blog/analytics?range=30d");
    assert_eq!(drive_files_path("d1"), "/api/v1/drives/d1/files?prefix=");
    assert_eq!(search_path_for("x"), "/api/v1/publishes/search?q=x&limit=100");
}

#[test]
fn search_queries_are_percent_encoded() {
    assert_eq!(search_path("a b&c"), "/api/v1/publishes/search?q=a%20b%26c&limit=100");
}

#[test]
fn failure_messages() {
    assert!(is_success(204));
    assert!(!is_success(301));
    assert_eq!(failure_text(401, Some("Unauthorized"), Some("bad key")), "authentication failed; check ~/.herenow/credentials");
    assert_eq!(failure_text(404, Some("Not Found"), Some("no such site")), "here.now returned 404 Not Found: no such site");
    assert_eq!(failure_text(404, Some("Not Found"), None), "here.now returned 404 Not Found: Not Found");
    assert_eq!(failure_text(599, None, None), "here.now returned 599 <unknown status code>: request failed");
}

#[test]
fn error_bodies_are_read_for_a_message() {
    assert_eq!(response_error_message(404, r#"{"message":"no such site"}"#), "here.now returned 404 Not Found: no such site");
    assert_eq!(response_error_message(500, r#"{"error":"boom"}"#), "here.now returned 500 Internal Server Error: boom");
    assert_eq!(response_error_message(500, r#"{"message":null,"error":"boom"}"#), "here.now returned 500 Internal Server Error: Internal Server Error");
    assert_eq!(response_error_message(502, "<html>"), "here.now returned 502 Bad Gateway: Bad Gateway");
    assert_eq!(response_error_message(401, "{}"), "authentication failed; check ~/.herenow/credentials");
}

#[test]
fn search_hits_become_sites() {
    let hit = SearchResult {
        slug: "s".into(),
        site_url: "https://s.here.now".into(),
        primary_url: Some("https://example.com".into()),
        display_name: Some("S".into()),
        updated_at: None,
        matched_paths: vec!["index.html".into(), "a.css".into()],
        snippet: Some("hello".into()),
    };
    let site = site_from_hit(&hit);
    assert_eq!(site.site_url, "https://example.com");
    assert_eq!(site.display_description.as_deref(), Some("hello"));
    assert_eq!(site.manifest.len(), 2);
    assert_eq!(site.manifest[1].path, "a.css");
    assert_eq!(site.manifest[1].size, 0);
    assert_eq!(site.label(), "S");
    let plain = SearchResult { primary_url: None, display_name: None, ..hit };
    let sites = sites_from_hits(&vec![plain]);
    assert_eq!(sites[0].site_url, "https://s.here.now");
    assert_eq!(sites[0].label(), "s");
}

#[test]
fn metadata_patch_leaves_out_what_is_not_given() {
    let patch = metadata_patch("New", None);
    assert_eq!(patch.display_name, Some("New"));
    assert_eq!(patch.display_description, None);
}

#[test]
fn malformed_timestamp_is_safe() {
    assert_eq!(relative_time(Some("not-a-date")), "not-a-date");
}

#[test]
fn relative_times() {
    assert_eq!(relative_time(None), "—");
    assert_eq!(relative_time(Some("a very long text")), "a very lon");
    assert_eq!(relative_time(Some("2001-02-03T04:05:06Z")), "2001-02-03");
    assert_eq!(relative_time(Some("0099-12-31T23:59:60+05:30")), "0099-12-31");
    assert_eq!(relative_time(Some("2999-01-01T00:00:00Z")), "now");
    assert_eq!(describe_elapsed(59, 2024, 1, 2), "now");
    assert_eq!(describe_elapsed(-5000, 2024, 1, 2), "now");
    assert_eq!(describe_elapsed(60, 2024, 1, 2), "1m ago");
    assert_eq!(describe_elapsed(7199, 2024, 1, 2), "1h ago");
    assert_eq!(describe_elapsed(86400 * 29 + 5, 2024, 1, 2), "29d ago");
    assert_eq!(describe_elapsed(86400 * 30, 7, 3, 9), "0007-03-09");
}

#[test]
fn joins_put_the_separator_between() {
    assert_eq!(join_all(&vec![], ", "), "");
    assert_eq!(join_all(&vec!["a".into()], ", "), "a");
    assert_eq!(join_all(&vec!["a".into(), "b".into(), "c".into()], " · "), "a · b · c");
}

#[test]
fn relative_time_counts_from_the_given_clock() {
    let new_year = 1_704_067_200;
    assert_eq!(relative_time_at(Some("2024-01-01T00:00:00.5Z"), new_year + 60, 0), "now");
    assert_eq!(relative_time_at(Some("2024-01-01T00:00:00.5Z"), new_year + 61, 0), "1m ago");
    assert_eq!(relative_time_at(Some("2024-01-01T00:00:00Z"), new_year + 7200, 0), "2h ago");
    assert_eq!(relative_time_at(Some("2024-01-01T02:00:00+02:00"), new_year + 3600, 0), "1h ago");
    assert_eq!(relative_time_at(Some("2024-01-01T00:00:00Z"), new_year + 3 * 86400, 0), "3d ago");
    assert_eq!(relative_time_at(Some("2024-01-01T00:00:00Z"), new_year + 30 * 86400, 0), "2024-01-01");
    assert_eq!(relative_time_at(Some("2024-01-01T00:00:00Z"), new_year - 100, 0), "now");
    assert_eq!(relative_time_at(Some("2016-12-31T23:59:60Z"), 1_483_228_861, 0), "1m ago");
    assert_eq!(relative_time_at(None, new_year, 0), "—");
    assert_eq!(relative_time_at(Some("not-a-date"), new_year, 0), "not-a-date");
}

#[test]
fn search_queries_are_percent_encoded_by_byte() {
    assert_eq!(search_path("A-z_0.9~"), "/api/v1/publishes/search?q=A-z_0.9~&limit=100");
    assert_eq!(search_path("é/ü"), "/api/v1/publishes/search?q=%C3%A9%2F%C3%BC&limit=100");
}

#[test]
fn the_key_comes_from_the_variable_then_the_given_file_then_home() {
    assert_eq!(key_source(true, true, true), KeySource::Environment);
    assert_eq!(key_source(false, true, true), KeySource::GivenFile);
    assert_eq!(key_source(false, false, true), KeySource::HomeFile);
    assert_eq!(key_source(false, false, false), KeySource::Missing);
}
