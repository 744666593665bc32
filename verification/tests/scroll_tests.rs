use scroll_client::scroll::{
    scroll, Advance, Scroll, SearchHitsMetadata, SearchHitsTotal, SearchResponse,
};

fn page(id: &str, docs: &[&str], total: u32) -> SearchResponse {
    SearchResponse {
        scroll_id: id.to_string(),
        hits: SearchHitsMetadata {
            hits: docs.iter().map(|d| d.to_string()).collect(),
            total: SearchHitsTotal { value: total },
        },
    }
}

fn fresh() -> Scroll {
    scroll(
        "http://h".to_string(),
        "idx".to_string(),
        None,
        "{\"query\":{\"match_all\":{}}}".to_string(),
    )
}

/// Drives the session against canned responses, as the process around the
/// library would drive it against a server. Returns the documents yielded,
/// the number of fetches requested, and whether a malformed response forced
/// an abort.
fn drive(mut session: Scroll, transport: Vec<Result<SearchResponse, ()>>) -> (Vec<String>, usize, bool) {
    let mut yielded: Vec<String> = Vec::new();
    let mut fetches: usize = 0;
    let mut responses = transport.into_iter();
    loop {
        match session.advance() {
            Advance::Item(doc) => yielded.push(doc),
            Advance::End => return (yielded, fetches, false),
            Advance::Fetch(_req) => {
                fetches += 1;
                match responses.next() {
                    Some(Ok(response)) => session.apply_page(response),
                    Some(Err(())) | None => return (yielded, fetches, true),
                }
            }
        }
    }
}

#[test]
fn first_fetch_targets_initial_endpoint() {
    let mut session = fresh();
    match session.advance() {
        Advance::Fetch(req) => {
            assert!(req.initial);
            assert_eq!(req.endpoint, "http://h/idx/_search?scroll=1m");
            assert_eq!(req.body, "{\"query\":{\"match_all\":{}}}");
            assert_eq!(req.page_number, 1);
        }
        _ => panic!("expected a fetch request"),
    }
    assert_eq!(session.page_number, 1);
}

#[test]
fn first_fetch_ignores_preset_cursor() {
    let mut session = fresh();
    session.scroll_pointer = Some("stale".to_string());
    match session.advance() {
        Advance::Fetch(req) => {
            assert!(req.initial);
            assert_eq!(req.endpoint, "http://h/idx/_search?scroll=1m");
        }
        _ => panic!("expected a fetch request"),
    }
}

#[test]
fn continuation_fetch_names_cursor() {
    let mut session = fresh();
    assert!(matches!(session.advance(), Advance::Fetch(_)));
    session.apply_page(page("c1", &["d1"], 1));
    assert!(matches!(session.advance(), Advance::Item(_)));
    match session.advance() {
        Advance::Fetch(req) => {
            assert!(!req.initial);
            assert_eq!(req.endpoint, "http://h/_search/scroll");
            assert_eq!(req.body, "{\"scroll\":\"1m\",\"scroll_id\":\"c1\"}");
            assert_eq!(req.page_number, 2);
        }
        _ => panic!("expected a continuation fetch"),
    }
}

#[test]
fn pagination_ordering() {
    let transport = vec![
        Ok(page("c1", &["d1", "d2"], 3)),
        Ok(page("c2", &["d3"], 3)),
        Ok(page("c3", &[], 3)),
    ];
    let (yielded, fetches, aborted) = drive(fresh(), transport);
    assert_eq!(yielded, vec!["d1", "d2", "d3"]);
    assert_eq!(fetches, 3);
    assert!(!aborted);
}

#[test]
fn exhaustion_is_idempotent_and_fetches_no_more() {
    let mut session = fresh();
    assert!(matches!(session.advance(), Advance::Fetch(_)));
    session.apply_page(page("c1", &["d1"], 1));
    assert!(matches!(session.advance(), Advance::Item(_)));
    assert!(matches!(session.advance(), Advance::Fetch(_)));
    session.apply_page(page("c2", &[], 1));
    for _ in 0..5 {
        assert!(matches!(session.advance(), Advance::End));
    }
    assert_eq!(session.page_number, 2);
}

#[test]
fn empty_first_page_is_immediate_exhaustion() {
    let transport = vec![Ok(page("c1", &[], 0))];
    let (yielded, fetches, aborted) = drive(fresh(), transport);
    assert!(yielded.is_empty());
    assert_eq!(fetches, 1);
    assert!(!aborted);
}

#[test]
fn total_is_recorded_from_first_page_only() {
    let mut session = fresh();
    assert!(matches!(session.advance(), Advance::Fetch(_)));
    session.apply_page(page("c1", &["d1"], 42));
    assert_eq!(session.result_size, 42);
    assert!(matches!(session.advance(), Advance::Item(_)));
    assert!(matches!(session.advance(), Advance::Fetch(_)));
    session.apply_page(page("c2", &["d2"], 99));
    assert_eq!(session.result_size, 42);
}

#[test]
fn malformed_second_fetch_aborts_after_first_page() {
    let transport = vec![Ok(page("c1", &["d1", "d2"], 2)), Err(())];
    let (yielded, fetches, aborted) = drive(fresh(), transport);
    assert_eq!(yielded, vec!["d1", "d2"]);
    assert_eq!(fetches, 2);
    assert!(aborted);
}

#[test]
fn documents_pass_through_verbatim() {
    let raw = "{\"a\": [1, 2, {\"b\":null}] }";
    let transport = vec![Ok(page("c1", &[raw], 1)), Ok(page("c2", &[], 1))];
    let (yielded, _, _) = drive(fresh(), transport);
    assert_eq!(yielded, vec![raw]);
}

#[test]
fn new_session_is_fresh() {
    let session = Scroll::new(
        "http://h".to_string(),
        "idx".to_string(),
        None,
        "{}".to_string(),
    );
    assert_eq!(session.page_number, 0);
    assert_eq!(session.buffer_pointer, 0);
    assert!(session.scroll_pointer.is_none());
    assert!(session.scroll_buffer.is_empty());
    assert!(!session.exhausted);
    assert_eq!(session.result_size, 0);
}
