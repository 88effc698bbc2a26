use modrinth::pagination::{PollResult, SearchResultsPaginator};
use modrinth::params::ProjectSearchParams;
use modrinth::response::{Error, PaginatedResponse};

fn page(hits: Vec<u64>, offset: usize, limit: usize, total: usize) -> PaginatedResponse<u64> {
    PaginatedResponse { hits, offset, limit, total_hits: total }
}

/// Drives the paginator against a scripted backend; returns the items
/// yielded, the errors yielded, and the query string of every request made.
fn drive(
    mut paginator: SearchResultsPaginator<u64>,
    mut backend: Vec<Result<PaginatedResponse<u64>, Error>>,
) -> (Vec<u64>, Vec<Error>, Vec<String>) {
    let mut items = Vec::new();
    let mut errors = Vec::new();
    let mut requests = Vec::new();
    loop {
        match paginator.poll_next() {
            PollResult::Item(it) => items.push(it),
            PollResult::Failed(e) => errors.push(e),
            PollResult::Fetch(query) => {
                requests.push(query);
                match backend.remove(0) {
                    Ok(p) => paginator.feed_page(p),
                    Err(e) => paginator.feed_error(e),
                }
            }
            PollResult::Finished => return (items, errors, requests),
        }
    }
}

#[test]
fn zero_total_yields_nothing_after_one_probe() {
    let paginator = SearchResultsPaginator::new(ProjectSearchParams::new());
    let (items, errors, requests) = drive(paginator, vec![Ok(page(vec![], 0, 1, 0))]);
    assert_eq!(items, Vec::<u64>::new());
    assert!(errors.is_empty());
    // Exactly one request was issued: the probe, with its limit forced to 1.
    assert_eq!(requests, vec!["offset=0&limit=1".to_owned()]);
}

#[test]
fn seven_items_with_limit_three_arrive_in_order() {
    let mut params = ProjectSearchParams::new();
    params.limit = Some(3);
    let paginator = SearchResultsPaginator::new(params);
    let backend = vec![
        // The probe sees the first item and the authoritative total.
        Ok(page(vec![0], 0, 1, 7)),
        Ok(page(vec![1, 2, 3], 1, 3, 7)),
        Ok(page(vec![4, 5, 6], 4, 3, 7)),
    ];
    let (items, errors, requests) = drive(paginator, backend);
    assert_eq!(items, vec![0, 1, 2, 3, 4, 5, 6]);
    assert!(errors.is_empty());
    // The probe runs at offset 0 with limit 1; the pages run at the
    // advanced offsets with the configured limit; once the offset reaches
    // the total, no further request is issued.
    assert_eq!(
        requests,
        vec![
            "offset=0&limit=1".to_owned(),
            "offset=1&limit=3".to_owned(),
            "offset=4&limit=3".to_owned(),
        ]
    );
}

#[test]
fn short_final_page_still_terminates() {
    let mut params = ProjectSearchParams::new();
    params.limit = Some(4);
    let paginator = SearchResultsPaginator::new(params);
    let backend = vec![
        Ok(page(vec![0], 0, 1, 6)),
        Ok(page(vec![1, 2, 3, 4], 1, 4, 6)),
        // The server truncates the final page to one item.
        Ok(page(vec![5], 5, 4, 6)),
    ];
    let (items, errors, requests) = drive(paginator, backend);
    assert_eq!(items, vec![0, 1, 2, 3, 4, 5]);
    assert!(errors.is_empty());
    assert_eq!(requests.len(), 3);
}

#[test]
fn caller_limit_one_still_probes_once() {
    let mut params = ProjectSearchParams::new();
    params.limit = Some(1);
    let paginator = SearchResultsPaginator::new(params);
    let backend = vec![Ok(page(vec![0], 0, 1, 2)), Ok(page(vec![1], 1, 1, 2))];
    let (items, _, requests) = drive(paginator, backend);
    assert_eq!(items, vec![0, 1]);
    // Both requests carry limit 1, but only two requests happen in all:
    // the probe is not doubled.
    assert_eq!(
        requests,
        vec!["offset=0&limit=1".to_owned(), "offset=1&limit=1".to_owned()]
    );
}

#[test]
fn failed_request_yields_one_error_then_nothing() {
    let paginator = SearchResultsPaginator::new(ProjectSearchParams::new());
    let failure = Error::StatusNotOk {
        status: 500,
        url: "https://api.example.test/v2/search".to_owned(),
        bytes: b"busy".to_vec(),
    };
    let (items, errors, requests) = drive(paginator, vec![Err(failure.clone())]);
    assert!(items.is_empty());
    assert_eq!(errors, vec![failure]);
    assert_eq!(requests.len(), 1);
}

#[test]
fn errored_paginator_stays_finished_when_pulled_again() {
    let mut paginator: SearchResultsPaginator<u64> =
        SearchResultsPaginator::new(ProjectSearchParams::new());
    match paginator.poll_next() {
        PollResult::Fetch(_) => {}
        _ => panic!("expected the probe request"),
    }
    paginator.feed_error(Error::Transport("connection reset".to_owned()));
    assert!(matches!(paginator.poll_next(), PollResult::Failed(_)));
    for _ in 0..3 {
        assert!(matches!(paginator.poll_next(), PollResult::Finished));
    }
}

#[test]
fn error_after_items_preserves_items_yielded_so_far() {
    let mut params = ProjectSearchParams::new();
    params.limit = Some(2);
    let paginator = SearchResultsPaginator::new(params);
    let backend = vec![
        Ok(page(vec![0], 0, 1, 5)),
        Err(Error::Transport("timed out".to_owned())),
    ];
    let (items, errors, requests) = drive(paginator, backend);
    assert_eq!(items, vec![0]);
    assert_eq!(errors.len(), 1);
    assert_eq!(requests.len(), 2);
}

#[test]
fn size_hint_reports_zero_and_known_total() {
    let mut paginator: SearchResultsPaginator<u64> =
        SearchResultsPaginator::new(ProjectSearchParams::new());
    assert_eq!(paginator.size_hint(), (0, None));
    match paginator.poll_next() {
        PollResult::Fetch(_) => paginator.feed_page(page(vec![0], 0, 1, 3)),
        _ => panic!("expected the probe request"),
    }
    assert_eq!(paginator.size_hint(), (0, Some(3)));
}

#[test]
fn explicit_initial_offset_is_respected() {
    let mut params = ProjectSearchParams::new();
    params.offset = Some(5);
    params.limit = Some(2);
    let paginator = SearchResultsPaginator::new(params);
    let backend = vec![Ok(page(vec![5], 5, 1, 7)), Ok(page(vec![6], 6, 2, 7))];
    let (items, _, requests) = drive(paginator, backend);
    assert_eq!(items, vec![5, 6]);
    assert_eq!(
        requests,
        vec!["offset=5&limit=1".to_owned(), "offset=6&limit=2".to_owned()]
    );
}
