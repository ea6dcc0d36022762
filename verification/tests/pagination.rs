use tweet_pager::page::{classify_status, ApiError, Page};
use tweet_pager::paginate::{ApiResults, PullResult};
use tweet_pager::request::QueryUrl;
use tweet_pager::run::{run_script, PullEvent};

fn page(items: &[&str], next_token: Option<&str>) -> Page<String> {
    Page {
        items: items.iter().map(|s| s.to_string()).collect(),
        result_count: items.len(),
        next_token: next_token.map(|s| s.to_string()),
        previous_token: None,
    }
}

fn base_url() -> QueryUrl {
    let mut url = QueryUrl::new("https://example.test/2/items".to_string());
    url.append_pair("max_results".to_string(), "100".to_string());
    url
}

#[test]
fn order_preservation_across_pages() {
    let script: Vec<Result<Page<String>, ApiError>> = vec![
        Ok(page(&["a", "b"], Some("t1"))),
        Ok(page(&["c"], Some("t2"))),
        Ok(page(&["d", "e"], None)),
    ];
    let log = run_script(base_url(), script);
    let want: Vec<PullEvent<String>> = ["a", "b", "c", "d", "e"]
        .iter()
        .map(|s| PullEvent::Got(s.to_string()))
        .collect();
    assert_eq!(log.events, want);
    assert_eq!(log.urls.len(), 3);
    assert!(log.ended);
}

#[test]
fn empty_page_with_token_keeps_fetching() {
    let script: Vec<Result<Page<String>, ApiError>> = vec![
        Ok(page(&[], Some("abc"))),
        Ok(page(&["x"], None)),
    ];
    let log = run_script(base_url(), script);
    assert_eq!(log.events, vec![PullEvent::Got("x".to_string())]);
    assert_eq!(log.urls.len(), 2);
    assert!(log.ended);
}

#[test]
fn no_token_termination() {
    let script: Vec<Result<Page<String>, ApiError>> = vec![Ok(page(&["a", "b"], None))];
    let log = run_script(base_url(), script);
    assert_eq!(
        log.events,
        vec![
            PullEvent::Got("a".to_string()),
            PullEvent::Got("b".to_string())
        ]
    );
    assert_eq!(log.urls.len(), 1);
    assert!(log.ended);
}

#[test]
fn end_is_terminal_forever() {
    let mut results: ApiResults<String> = ApiResults::open(base_url());
    let mut fetches = 0;
    match results.pull() {
        PullResult::StartFetch(_) => fetches += 1,
        _ => panic!("the first pull must start a fetch"),
    }
    results.on_fetch_success(page(&["a", "b"], None));
    assert!(matches!(results.pull(), PullResult::Item(ref s) if s == "a"));
    assert!(matches!(results.pull(), PullResult::Item(ref s) if s == "b"));
    for _ in 0..5 {
        match results.pull() {
            PullResult::End => {}
            PullResult::StartFetch(_) => panic!("no fetch may follow exhaustion"),
            _ => panic!("every later pull must report the end"),
        }
    }
    assert_eq!(fetches, 1);
}

#[test]
fn single_flight_while_fetch_pending() {
    let mut results: ApiResults<String> = ApiResults::open(base_url());
    let mut fetches = 0;
    match results.pull() {
        PullResult::StartFetch(_) => fetches += 1,
        _ => panic!("the first pull must start a fetch"),
    }
    for _ in 0..3 {
        match results.pull() {
            PullResult::Pending => {}
            PullResult::StartFetch(_) => panic!("a second fetch was started"),
            _ => panic!("a pull while fetching must report the pending fetch"),
        }
    }
    results.on_fetch_success(page(&["a"], None));
    assert!(matches!(results.pull(), PullResult::Item(ref s) if s == "a"));
    assert_eq!(fetches, 1);
}

#[test]
fn token_round_trip() {
    let script: Vec<Result<Page<String>, ApiError>> = vec![
        Ok(page(&["a"], Some("tok1"))),
        Ok(page(&["b"], None)),
    ];
    let log = run_script(base_url(), script);
    assert_eq!(log.urls.len(), 2);
    assert_eq!(log.urls[0].path, "https://example.test/2/items");
    assert_eq!(
        log.urls[0].params,
        vec![("max_results".to_string(), "100".to_string())]
    );
    assert_eq!(log.urls[1].path, "https://example.test/2/items");
    assert_eq!(
        log.urls[1].params,
        vec![
            ("max_results".to_string(), "100".to_string()),
            ("pagination_token".to_string(), "tok1".to_string()),
        ]
    );
}

#[test]
fn error_isolation_and_retry() {
    let script: Vec<Result<Page<String>, ApiError>> = vec![
        Ok(page(&["a"], Some("t2"))),
        Err(ApiError::HttpStatus(500)),
        Ok(page(&["b"], None)),
    ];
    let log = run_script(base_url(), script);
    assert_eq!(
        log.events,
        vec![
            PullEvent::Got("a".to_string()),
            PullEvent::Failed(ApiError::HttpStatus(500)),
            PullEvent::Got("b".to_string()),
        ]
    );
    assert_eq!(log.urls.len(), 3);
    // The retry re-fetches the same page: same URL, same token.
    assert_eq!(log.urls[1], log.urls[2]);
    assert!(log.ended);
}

#[test]
fn failure_leaves_token_and_buffer_untouched() {
    let mut results: ApiResults<String> = ApiResults::open(base_url());
    let first = match results.pull() {
        PullResult::StartFetch(u) => u,
        _ => panic!("the first pull must start a fetch"),
    };
    results.on_fetch_failure();
    // The transport failed before any page arrived: the retry targets
    // the base URL again.
    let second = match results.pull() {
        PullResult::StartFetch(u) => u,
        _ => panic!("a pull after a failure must retry the fetch"),
    };
    assert_eq!(first, second);
    results.on_fetch_success(page(&["a"], Some("tok")));
    assert!(matches!(results.pull(), PullResult::Item(ref s) if s == "a"));
    let third = match results.pull() {
        PullResult::StartFetch(u) => u,
        _ => panic!("a held token must trigger the next fetch"),
    };
    results.on_fetch_failure();
    let fourth = match results.pull() {
        PullResult::StartFetch(u) => u,
        _ => panic!("a pull after a failure must retry the fetch"),
    };
    assert_eq!(third, fourth);
    assert!(fourth
        .params
        .contains(&("pagination_token".to_string(), "tok".to_string())));
}

#[test]
fn run_without_answers_does_not_end() {
    let script: Vec<Result<Page<String>, ApiError>> = vec![Ok(page(&["a"], Some("t")))];
    let log = run_script(base_url(), script);
    assert_eq!(log.events, vec![PullEvent::Got("a".to_string())]);
    assert_eq!(log.urls.len(), 1);
    assert!(!log.ended);
}

#[test]
fn status_classification() {
    assert_eq!(classify_status(200), None);
    assert_eq!(classify_status(299), None);
    assert_eq!(classify_status(199), Some(ApiError::HttpStatus(199)));
    assert_eq!(classify_status(404), Some(ApiError::HttpStatus(404)));
    assert_eq!(classify_status(500), Some(ApiError::HttpStatus(500)));
}

#[test]
fn token_injection_never_reuses_an_existing_slot() {
    // The base query already carries a `pagination_token` for an
    // unrelated purpose: the engine must append a fresh pair, not
    // overwrite the existing one, and must not touch the base URL.
    let mut url = QueryUrl::new("https://example.test/2/items".to_string());
    url.append_pair("pagination_token".to_string(), "unrelated".to_string());
    let script: Vec<Result<Page<String>, ApiError>> = vec![
        Ok(page(&["a"], Some("fresh"))),
        Ok(page(&["b"], None)),
    ];
    let log = run_script(url, script);
    assert_eq!(log.urls.len(), 2);
    assert_eq!(
        log.urls[0].params,
        vec![("pagination_token".to_string(), "unrelated".to_string())]
    );
    assert_eq!(
        log.urls[1].params,
        vec![
            ("pagination_token".to_string(), "unrelated".to_string()),
            ("pagination_token".to_string(), "fresh".to_string()),
        ]
    );
}

#[test]
fn every_error_kind_is_surfaced_and_retried() {
    let script: Vec<Result<Page<String>, ApiError>> = vec![
        Err(ApiError::Transport),
        Err(ApiError::Decode),
        Ok(page(&["a"], None)),
    ];
    let log = run_script(base_url(), script);
    assert_eq!(
        log.events,
        vec![
            PullEvent::Failed(ApiError::Transport),
            PullEvent::Failed(ApiError::Decode),
            PullEvent::Got("a".to_string()),
        ]
    );
    // Both failures were retried against the very same URL.
    assert_eq!(log.urls.len(), 3);
    assert_eq!(log.urls[0], log.urls[1]);
    assert_eq!(log.urls[1], log.urls[2]);
    assert!(log.ended);
}
