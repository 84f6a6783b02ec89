use sami_bridge::codec::Page;
use sami_bridge::error::AkcClientError;
use sami_bridge::fetch::{ParallelFetch, SequentialFetch, SequentialStep, PAGE_SIZE};

/// A remote that serves `collection` faithfully.
fn serve(collection: &[u32], offset: u32) -> Page<u32> {
    let start = (offset as usize).min(collection.len());
    let end = (start + PAGE_SIZE as usize).min(collection.len());
    let items: Vec<u32> = collection[start..end].to_vec();
    Page { count: items.len() as u32, total: collection.len() as u32, items }
}

fn run_sequential(collection: &[u32]) -> (Vec<u32>, usize) {
    let mut fetch = SequentialFetch::new();
    let mut requests = 0;
    loop {
        requests += 1;
        let page = serve(collection, fetch.offset);
        match fetch.receive(Ok(page)) {
            SequentialStep::Next(next) => fetch = next,
            SequentialStep::Done(items) => return (items, requests),
            SequentialStep::Failed(_) => panic!("the fetch failed"),
        }
    }
}

fn run_parallel(collection: &[u32]) -> (Vec<u32>, usize) {
    let started = match ParallelFetch::start(Ok(serve(collection, 0))) {
        Ok(s) => s,
        Err(_) => panic!("the first page failed"),
    };
    let pages: Vec<Result<Page<u32>, AkcClientError>> =
        started.offsets.iter().map(|o| Ok(serve(collection, *o))).collect();
    let requests = 1 + pages.len();
    match started.finish(pages) {
        Ok(items) => (items, requests),
        Err(_) => panic!("a page failed"),
    }
}

#[test]
fn strategies_return_whole_collection_in_order() {
    let collection: Vec<u32> = (0..250).collect();
    let (seq, seq_requests) = run_sequential(&collection);
    let (par, par_requests) = run_parallel(&collection);
    assert_eq!(seq, collection);
    assert_eq!(par, collection);
    assert_eq!(seq_requests, 3);
    assert_eq!(par_requests, 3);
}

#[test]
fn request_counts_on_exact_multiple_of_page_size() {
    let collection: Vec<u32> = (0..200).collect();
    let (seq, seq_requests) = run_sequential(&collection);
    let (par, par_requests) = run_parallel(&collection);
    assert_eq!(seq, collection);
    assert_eq!(par, collection);
    assert_eq!(seq_requests, 3);
    assert_eq!(par_requests, 3);
}

#[test]
fn empty_collection_takes_one_request() {
    let collection: Vec<u32> = Vec::new();
    assert_eq!(run_sequential(&collection), (Vec::new(), 1));
    assert_eq!(run_parallel(&collection), (Vec::new(), 1));
}

#[test]
fn parallel_offsets_follow_the_total() {
    let first = Page { items: vec![1u32], total: 350, count: 100 };
    let started = match ParallelFetch::start(Ok(first)) {
        Ok(s) => s,
        Err(_) => panic!("unexpected failure"),
    };
    assert_eq!(started.offsets, vec![100, 200, 300]);
}

#[test]
fn sequential_failure_discards_pages() {
    let fetch: SequentialFetch<u32> = SequentialFetch::new();
    let page = Page { items: (0..100).collect(), total: 300, count: 100 };
    let next = match fetch.receive(Ok(page)) {
        SequentialStep::Next(n) => n,
        _ => panic!("expected another request"),
    };
    assert_eq!(next.offset, 100);
    match next.receive(Err(AkcClientError::AkcError(500, "boom".to_string()))) {
        SequentialStep::Failed(AkcClientError::AkcError(code, message)) => {
            assert_eq!(code, 500);
            assert_eq!(message, "boom");
        }
        _ => panic!("expected the error to propagate"),
    }
}

#[test]
fn parallel_reports_first_error_in_request_order() {
    let started = ParallelFetch { first: vec![1u32], offsets: vec![100, 200, 300] };
    let pages = vec![
        Ok(Page { items: vec![2u32], total: 3, count: 1 }),
        Err(AkcClientError::AkcError(404, "second".to_string())),
        Err(AkcClientError::AkcError(500, "third".to_string())),
    ];
    match started.finish(pages) {
        Err(AkcClientError::AkcError(code, _)) => assert_eq!(code, 404),
        _ => panic!("expected the first error"),
    }
}

#[test]
fn parallel_first_page_error_propagates() {
    let r: Result<ParallelFetch<u32>, AkcClientError> =
        ParallelFetch::start(Err(AkcClientError::InternalError("down".to_string())));
    assert!(matches!(r, Err(AkcClientError::InternalError(m)) if m == "down"));
}

#[test]
fn sequential_offset_overflow_fails() {
    let fetch = SequentialFetch { offset: u32::MAX - 50, collected: Vec::new() };
    let page = Page { items: (0..100u32).collect(), total: u32::MAX, count: 100 };
    match fetch.receive(Ok(page)) {
        SequentialStep::Failed(AkcClientError::InternalError(m)) => {
            assert_eq!(m, "collection offset out of range")
        }
        _ => panic!("expected a failure"),
    }
}
