use ghcr_cleaner::fetch::Enumeration;
use ghcr_cleaner::request::RequestError;
use ghcr_cleaner::version::Version;

fn version(id: i32) -> Version {
    Version::new(id, format!("sha256:{}", id), format!("https://example.test/{}", id), Vec::new())
}

/// A page of `size` versions whose identifiers start at `first`.
fn page(first: i32, size: i32) -> Vec<Version> {
    (first..first + size).map(version).collect()
}

/// Drives a listing against a server that answers with `replies`, in order.
/// Returns the state it was left in and the pages that were asked for.
fn run(replies: Vec<Result<Vec<Version>, RequestError>>) -> (Enumeration, Vec<i32>) {
    let mut state = Enumeration::new();
    let mut asked = Vec::new();
    let mut replies = replies.into_iter();
    loop {
        let page = match &state {
            Enumeration::Requesting { page, .. } => *page,
            _ => break,
        };
        let reply = match replies.next() {
            Some(reply) => reply,
            None => break,
        };
        asked.push(page);
        state = state.step(reply);
    }
    (state, asked)
}

#[test]
fn new_listing_asks_for_page_one() {
    match Enumeration::new() {
        Enumeration::Requesting { page, versions } => {
            assert_eq!(page, 1);
            assert!(versions.is_empty());
        }
        _ => panic!("a new listing must ask for a page"),
    }
}

#[test]
fn pages_of_75_75_10_0_give_160_versions_in_4_requests() {
    let replies = vec![Ok(page(0, 75)), Ok(page(75, 75)), Ok(page(150, 10)), Ok(Vec::new())];
    let (state, asked) = run(replies);
    assert_eq!(asked, vec![1, 2, 3, 4]);
    match state {
        Enumeration::Complete(versions) => {
            assert_eq!(versions.len(), 160);
            let ids: Vec<i32> = versions.iter().map(|v| v.id).collect();
            assert_eq!(ids, (0..160).collect::<Vec<i32>>());
        }
        _ => panic!("the listing must be complete"),
    }
}

#[test]
fn empty_first_page_gives_nothing_in_1_request() {
    let (state, asked) = run(vec![Ok(Vec::new()), Ok(page(0, 75))]);
    assert_eq!(asked, vec![1]);
    match state {
        Enumeration::Complete(versions) => assert!(versions.is_empty()),
        _ => panic!("the listing must be complete"),
    }
}

#[test]
fn short_page_is_not_the_last_page() {
    let (state, asked) = run(vec![Ok(page(0, 3))]);
    assert_eq!(asked, vec![1]);
    match state {
        Enumeration::Requesting { page, versions } => {
            assert_eq!(page, 2);
            assert_eq!(versions.len(), 3);
        }
        _ => panic!("a page with versions must be followed by another request"),
    }
}

#[test]
fn nothing_is_asked_for_after_the_empty_page() {
    let replies = vec![Ok(page(0, 2)), Ok(Vec::new()), Ok(page(2, 2)), Ok(Vec::new())];
    let (state, asked) = run(replies);
    assert_eq!(asked, vec![1, 2]);
    match state {
        Enumeration::Complete(versions) => assert_eq!(versions.len(), 2),
        _ => panic!("the listing must be complete"),
    }
}

#[test]
fn error_status_fails_the_listing() {
    let replies = vec![Ok(page(0, 75)), Err(RequestError::Status(500)), Ok(Vec::new())];
    let (state, asked) = run(replies);
    assert_eq!(asked, vec![1, 2]);
    assert!(matches!(state, Enumeration::Failed(RequestError::Status(500))));
}

#[test]
fn failed_transport_fails_the_listing() {
    let (state, asked) = run(vec![Err(RequestError::Transport)]);
    assert_eq!(asked, vec![1]);
    assert!(matches!(state, Enumeration::Failed(RequestError::Transport)));
}

#[test]
fn malformed_page_fails_the_listing() {
    let replies = vec![Ok(page(0, 1)), Ok(page(1, 1)), Err(RequestError::Deserialization)];
    let (state, asked) = run(replies);
    assert_eq!(asked, vec![1, 2, 3]);
    assert!(matches!(state, Enumeration::Failed(RequestError::Deserialization)));
}

#[test]
fn pages_are_gathered_in_order() {
    let first = vec![version(30), version(10)];
    let second = vec![version(20)];
    let (state, _) = run(vec![Ok(first), Ok(second), Ok(Vec::new())]);
    match state {
        Enumeration::Complete(versions) => {
            let ids: Vec<i32> = versions.iter().map(|v| v.id).collect();
            assert_eq!(ids, vec![30, 10, 20]);
            assert_eq!(versions[0].name, "sha256:30");
            assert_eq!(versions[2].html_url, "https://example.test/20");
        }
        _ => panic!("the listing must be complete"),
    }
}

#[test]
fn ended_listing_stays_as_it_is() {
    let complete = Enumeration::Complete(page(0, 2));
    match complete.step(Ok(page(2, 2))) {
        Enumeration::Complete(versions) => assert_eq!(versions.len(), 2),
        _ => panic!("a complete listing must stay complete"),
    }
    let failed = Enumeration::Failed(RequestError::Status(404));
    assert!(matches!(
        failed.step(Ok(Vec::new())),
        Enumeration::Failed(RequestError::Status(404))
    ));
}

#[test]
fn page_counter_goes_up_to_its_limit() {
    let state = Enumeration::Requesting { page: i32::MAX - 1, versions: Vec::new() };
    match state.step(Ok(page(0, 1))) {
        Enumeration::Requesting { page, versions } => {
            assert_eq!(page, i32::MAX);
            assert_eq!(versions.len(), 1);
        }
        _ => panic!("a page with versions must be followed by another request"),
    }
}
