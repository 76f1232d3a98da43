use sratim::movie::Movie;
use sratim::quality::download_url;
use sratim::session::{select_cookie, watch_url};
use sratim::text::{lower, str_contains_ci};

#[test]
fn lower_folds_ascii_only() {
    assert_eq!(lower('A'), 'a');
    assert_eq!(lower('Z'), 'z');
    assert_eq!(lower('a'), 'a');
    assert_eq!(lower('0'), '0');
    assert_eq!(lower('-'), '-');
}

#[test]
fn contains_ci_finds_substring_in_any_case() {
    assert!(str_contains_ci("Movie A Director's Cut", "movie a"));
    assert!(str_contains_ci("MOVIE A", "Movie A"));
    assert!(str_contains_ci("the movie a", "MOVIE A"));
    assert!(str_contains_ci("abc", "b"));
}

#[test]
fn contains_ci_empty_needle_always_matches() {
    assert!(str_contains_ci("anything", ""));
    assert!(str_contains_ci("", ""));
}

#[test]
fn contains_ci_rejects_absent_needle() {
    assert!(!str_contains_ci("Movie A", "Movie B"));
    assert!(!str_contains_ci("short", "much longer needle"));
    assert!(!str_contains_ci("", "x"));
}

#[test]
fn get_image_derives_thumbnail_url() {
    let m = Movie { name: String::from("Movie A"), id: String::from("123") };
    assert_eq!(m.get_image(), "https://static.sratim.tv/movies/123.jpg");
}

#[test]
fn file_name_appends_extension() {
    let m = Movie { name: String::from("Movie A"), id: String::from("123") };
    assert_eq!(m.file_name(), "Movie A.mp4");
}

#[test]
fn watch_url_holds_id_and_token() {
    assert_eq!(
        watch_url("123", "T1"),
        "https://api.sratim.tv/movie/watch/id/123/token/T1"
    );
}

#[test]
fn download_url_completes_scheme_relative_url() {
    assert_eq!(download_url("//cdn/x.mp4"), "https://cdn/x.mp4");
}

#[test]
fn select_cookie_prefers_provider_header() {
    assert_eq!(
        select_cookie(Some(String::from("generic")), Some(String::from("provider"))),
        Some(String::from("provider"))
    );
    assert_eq!(
        select_cookie(Some(String::from("generic")), None),
        Some(String::from("generic"))
    );
    assert_eq!(select_cookie(None, None), None);
}
