use sratim::movie::Movie;
use sratim::pipeline::{AcqError, Action, Event, Pipeline, Stage};
use sratim::quality::{WatchPayload, WatchResponse};
use sratim::session::Session;
use sratim::store::Store;

fn movie(name: &str, id: &str) -> Movie {
    Movie { name: String::from(name), id: String::from(id) }
}

fn session(token: &str) -> Session {
    Session { cookie: None, token: String::from(token) }
}

fn ok_response(entries: &[(&str, &str)]) -> WatchResponse {
    WatchResponse {
        success: true,
        payload: WatchPayload::Labeled(
            entries.iter().map(|(l, u)| (String::from(*l), String::from(*u))).collect(),
        ),
        errors: Vec::new(),
    }
}

#[test]
fn successful_acquisition_end_to_end() {
    let mut store = Store::new();
    store.enqueue(movie("Movie A", "123"));

    let mut p = Pipeline::new_default(movie("Movie A", "123"));

    assert_eq!(p.step(Event::Begin), Action::ProbeDuplicates(String::from("Movie A")));
    let found = store.exists_downloaded("Movie A");
    assert!(!found);
    assert_eq!(p.step(Event::DuplicateChecked(found)), Action::Negotiate);
    assert_eq!(p.step(Event::Negotiated(session("T1"), 100)), Action::Wait(30));
    assert_eq!(
        p.step(Event::CooldownOver(130)),
        Action::RequestWatch(String::from("https://api.sratim.tv/movie/watch/id/123/token/T1"))
    );
    assert_eq!(
        p.step(Event::WatchReceived(ok_response(&[("480", "//cdn/x.mp4")]))),
        Action::FetchFile(String::from("https://cdn/x.mp4"), String::from("Movie A.mp4"))
    );
    assert_eq!(p.step(Event::DownloadFinished(true)), Action::ApplyCommit);
    store.commit(&movie("Movie A", "123"));
    assert_eq!(p.step(Event::CommitApplied), Action::Halt);
    assert_eq!(p.stage, Stage::Done);

    assert!(store.list_queue().is_empty());
    assert_eq!(store.downloaded.len(), 1);
    assert_eq!(store.downloaded[0].name, "Movie A");
    assert_eq!(store.downloaded[0].id, "123");
    assert_eq!(store.downloaded[0].img, "https://static.sratim.tv/movies/123.jpg");
}

#[test]
fn cooldown_is_enforced_before_the_watch_request() {
    let mut p = Pipeline::new_default(movie("Movie A", "123"));
    p.step(Event::Begin);
    p.step(Event::DuplicateChecked(false));
    assert_eq!(p.step(Event::Negotiated(session("T1"), 100)), Action::Wait(30));
    // Waking too early does not release the watch request: the machine
    // asks for the remaining wait instead.
    assert_eq!(p.step(Event::CooldownOver(110)), Action::Wait(20));
    assert_eq!(p.stage, Stage::Cooling);
    // Only a full cooldown later is the request released.
    match p.step(Event::CooldownOver(130)) {
        Action::RequestWatch(_) => {}
        other => panic!("expected a watch request, got {:?}", other),
    }
    assert_eq!(p.resolved_at, Some(130));
    assert_eq!(p.negotiated_at, Some(100));
    assert!(p.resolved_at.unwrap() >= p.negotiated_at.unwrap() + p.cooldown);
}

#[test]
fn upstream_rejection_fails_and_leaves_the_queue_untouched() {
    let mut store = Store::new();
    store.enqueue(movie("Movie A", "123"));

    let mut p = Pipeline::new_default(movie("Movie A", "123"));
    p.step(Event::Begin);
    p.step(Event::DuplicateChecked(false));
    p.step(Event::Negotiated(session("T1"), 100));
    p.step(Event::CooldownOver(130));
    let rejected = WatchResponse {
        success: false,
        payload: WatchPayload::Unknown,
        errors: vec![String::from("token expired")],
    };
    assert_eq!(p.step(Event::WatchReceived(rejected)), Action::Halt);
    assert_eq!(
        p.stage,
        Stage::Failed(AcqError::UpstreamRejected(String::from("token expired")))
    );

    assert_eq!(store.list_queue().len(), 1);
    assert_eq!(store.list_queue()[0].name, "Movie A");
    assert!(store.downloaded.is_empty());
}

#[test]
fn missing_preferred_quality_fails_without_a_fetch() {
    let mut p = Pipeline::new_default(movie("Movie A", "123"));
    p.step(Event::Begin);
    p.step(Event::DuplicateChecked(false));
    p.step(Event::Negotiated(session("T1"), 100));
    p.step(Event::CooldownOver(130));
    // Only other qualities are on offer: never substitute one.
    assert_eq!(
        p.step(Event::WatchReceived(ok_response(&[("720", "//cdn/hi.mp4")]))),
        Action::Halt
    );
    assert_eq!(p.stage, Stage::Failed(AcqError::QualityUnavailable));
}

#[test]
fn duplicate_aborts_before_any_network_action() {
    let mut store = Store::new();
    store.enqueue(movie("Movie A", "123"));
    store.commit(&movie("movie a FULL HD", "999"));

    let mut p = Pipeline::new_default(movie("Movie A", "123"));
    assert_eq!(p.step(Event::Begin), Action::ProbeDuplicates(String::from("Movie A")));
    let found = store.exists_downloaded("Movie A");
    assert!(found);
    assert_eq!(p.step(Event::DuplicateChecked(found)), Action::Halt);
    assert_eq!(p.stage, Stage::Failed(AcqError::DuplicateError));
    assert!(p.is_terminal());

    // The failed state is absorbing: no later event draws out a network
    // request or a commit.
    assert_eq!(p.step(Event::Begin), Action::Halt);
    assert_eq!(p.step(Event::Negotiated(session("T1"), 100)), Action::Halt);
    assert_eq!(p.step(Event::CommitApplied), Action::Halt);
    assert_eq!(p.stage, Stage::Failed(AcqError::DuplicateError));

    // The queue entry still stands for a later attempt.
    assert_eq!(store.list_queue().len(), 1);
}

#[test]
fn transport_failures_are_transient() {
    let mut p = Pipeline::new_default(movie("Movie A", "123"));
    p.step(Event::Begin);
    p.step(Event::DuplicateChecked(false));
    assert_eq!(p.step(Event::NegotiationFailed), Action::Halt);
    assert_eq!(p.stage, Stage::Failed(AcqError::TransientNetworkError));

    let mut q = Pipeline::new_default(movie("Movie B", "456"));
    q.step(Event::Begin);
    q.step(Event::DuplicateChecked(false));
    q.step(Event::Negotiated(session("T2"), 0));
    q.step(Event::CooldownOver(30));
    assert_eq!(q.step(Event::WatchFailed), Action::Halt);
    assert_eq!(q.stage, Stage::Failed(AcqError::TransientNetworkError));
}

#[test]
fn failed_download_ends_with_io_error() {
    let mut p = Pipeline::new_default(movie("Movie A", "123"));
    p.step(Event::Begin);
    p.step(Event::DuplicateChecked(false));
    p.step(Event::Negotiated(session("T1"), 100));
    p.step(Event::CooldownOver(130));
    p.step(Event::WatchReceived(ok_response(&[("480", "//cdn/x.mp4")])));
    assert_eq!(p.step(Event::DownloadFinished(false)), Action::Halt);
    assert_eq!(p.stage, Stage::Failed(AcqError::DownloadIOError));
}

#[test]
fn single_url_shape_still_resolves() {
    let mut p = Pipeline::new_default(movie("Movie A", "123"));
    p.step(Event::Begin);
    p.step(Event::DuplicateChecked(false));
    p.step(Event::Negotiated(session("T1"), 100));
    p.step(Event::CooldownOver(130));
    let single = WatchResponse {
        success: true,
        payload: WatchPayload::Single(String::from("//cdn/only.mp4")),
        errors: Vec::new(),
    };
    assert_eq!(
        p.step(Event::WatchReceived(single)),
        Action::FetchFile(String::from("https://cdn/only.mp4"), String::from("Movie A.mp4"))
    );
}

#[test]
fn ready_time_saturates_at_the_top_of_the_clock() {
    let mut p = Pipeline::new_default(movie("Movie A", "123"));
    p.step(Event::Begin);
    p.step(Event::DuplicateChecked(false));
    assert_eq!(p.step(Event::Negotiated(session("T1"), u64::MAX - 10)), Action::Wait(30));
    assert_eq!(p.ready_at, u64::MAX);
    assert_eq!(p.step(Event::CooldownOver(u64::MAX - 1)), Action::Wait(1));
    match p.step(Event::CooldownOver(u64::MAX)) {
        Action::RequestWatch(_) => {}
        other => panic!("expected a watch request, got {:?}", other),
    }
}

#[test]
fn events_out_of_turn_are_ignored() {
    let mut p = Pipeline::new_default(movie("Movie A", "123"));
    // Still queued: watch and download reports do not belong here.
    assert_eq!(p.step(Event::CooldownOver(0)), Action::Halt);
    assert_eq!(p.step(Event::DownloadFinished(true)), Action::Halt);
    assert_eq!(p.stage, Stage::Queued);
}
