use sratim::movie::Movie;
use sratim::store::Store;

fn movie(name: &str, id: &str) -> Movie {
    Movie { name: String::from(name), id: String::from(id) }
}

#[test]
fn commit_creates_one_record_and_clears_the_queue_entry() {
    let mut s = Store::new();
    s.enqueue(movie("Movie A", "123"));
    s.commit(&movie("Movie A", "123"));
    assert_eq!(s.downloaded.len(), 1);
    assert_eq!(s.downloaded[0].name, "Movie A");
    assert_eq!(s.downloaded[0].id, "123");
    assert_eq!(s.downloaded[0].img, "https://static.sratim.tv/movies/123.jpg");
    assert!(s.list_queue().is_empty());
}

#[test]
fn commit_is_idempotent_per_id() {
    let mut s = Store::new();
    s.enqueue(movie("Movie A", "123"));
    s.commit(&movie("Movie A", "123"));
    // Re-processing after a partial commit: the record is already there.
    s.commit(&movie("Movie A", "123"));
    assert_eq!(s.downloaded.len(), 1);
    assert_eq!(s.downloaded[0].id, "123");
}

#[test]
fn commit_removes_only_the_first_matching_queue_entry() {
    let mut s = Store::new();
    s.enqueue(movie("Movie A", "123"));
    s.enqueue(movie("Movie A", "123"));
    s.enqueue(movie("Movie B", "456"));
    s.commit(&movie("Movie A", "123"));
    assert_eq!(s.list_queue().len(), 2);
    assert_eq!(s.list_queue()[0].name, "Movie A");
    assert_eq!(s.list_queue()[1].name, "Movie B");
}

#[test]
fn commit_leaves_queue_alone_when_no_entry_matches() {
    let mut s = Store::new();
    s.enqueue(movie("Movie B", "456"));
    s.commit(&movie("Movie A", "123"));
    assert_eq!(s.list_queue().len(), 1);
    assert_eq!(s.downloaded.len(), 1);
}

#[test]
fn duplicate_guard_matches_case_insensitive_substrings() {
    let mut s = Store::new();
    s.commit(&movie("movie a FULL HD", "999"));
    assert!(s.exists_downloaded("Movie A"));
    assert!(s.exists_downloaded("MOVIE A FULL hd"));
    assert!(!s.exists_downloaded("Movie B"));
}

#[test]
fn empty_store_has_no_duplicates() {
    let s = Store::new();
    assert!(!s.exists_downloaded("Movie A"));
}

#[test]
fn enqueue_and_empty_queue() {
    let mut s = Store::new();
    s.enqueue(movie("Movie A", "123"));
    s.enqueue(movie("Movie B", "456"));
    assert_eq!(s.list_queue().len(), 2);
    s.empty_queue();
    assert!(s.list_queue().is_empty());
}

#[test]
fn search_queue_returns_matching_indices_in_order() {
    let mut s = Store::new();
    s.enqueue(movie("Movie A", "1"));
    s.enqueue(movie("Other", "2"));
    s.enqueue(movie("the MOVIE a sequel", "3"));
    let hits = s.search_queue("movie a");
    assert_eq!(hits, vec![0, 2]);
    let none = s.search_queue("zzz");
    assert!(none.is_empty());
}
