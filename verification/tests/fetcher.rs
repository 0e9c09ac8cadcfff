use stargazers::{classify_status, FaultClass, FetchPhase, Fetcher, PAGE_SIZE};

fn page(range: std::ops::Range<u32>) -> Vec<u32> {
    range.collect()
}

#[test]
fn pagination_terminates_on_short_page() {
    // Pages of sizes [100, 100, 37]: exactly 3 requests, 237 items in order.
    let mut f = Fetcher::<u32>::new();
    assert_eq!(f.current_page(), 1);
    f.on_page(page(0..100));
    assert_eq!(f.phase(), FetchPhase::Active);
    assert_eq!(f.current_page(), 2);
    f.on_page(page(100..200));
    assert_eq!(f.phase(), FetchPhase::Active);
    assert_eq!(f.current_page(), 3);
    f.on_page(page(200..237));
    assert_eq!(f.phase(), FetchPhase::Done);
    assert_eq!(f.requests(), 3);
    let items = f.into_items();
    assert_eq!(items.len(), 237);
    assert_eq!(items, page(0..237));
}

#[test]
fn pagination_continues_through_full_pages() {
    // Pages of sizes [100, 100, 100, 0]: 4 requests, 300 items.
    let mut f = Fetcher::<u32>::new();
    f.on_page(page(0..100));
    f.on_page(page(100..200));
    f.on_page(page(200..300));
    assert_eq!(f.phase(), FetchPhase::Active);
    assert_eq!(f.current_page(), 4);
    f.on_page(Vec::new());
    assert_eq!(f.phase(), FetchPhase::Done);
    assert_eq!(f.requests(), 4);
    let items = f.into_items();
    assert_eq!(items.len(), 300);
    assert_eq!(items, page(0..300));
}

#[test]
fn empty_first_page_ends_fetch() {
    let mut f = Fetcher::<u32>::new();
    f.on_page(Vec::new());
    assert_eq!(f.phase(), FetchPhase::Done);
    assert_eq!(f.requests(), 1);
    assert_eq!(f.into_items(), Vec::<u32>::new());
}

#[test]
fn transient_fault_retries_same_page() {
    // A 502 is transient: the request count rises but the page cursor does
    // not move past the broken page until it succeeds.
    assert_eq!(classify_status(502), FaultClass::Transient);
    assert_eq!(classify_status(500), FaultClass::Transient);

    let mut f = Fetcher::<u32>::new();
    f.on_page(page(0..100));
    assert_eq!(f.current_page(), 2);
    f.on_transient();
    f.on_transient();
    assert_eq!(f.current_page(), 2);
    assert_eq!(f.requests(), 3);
    assert_eq!(f.phase(), FetchPhase::Active);
    f.on_page(page(100..150));
    assert_eq!(f.phase(), FetchPhase::Done);
    assert_eq!(f.requests(), 4);
    assert_eq!(f.into_items(), page(0..150));
}

#[test]
fn fatal_fault_aborts_without_retry() {
    // A 404 is fatal: the fetch ends at once.
    assert_eq!(classify_status(404), FaultClass::Fatal);

    let mut f = Fetcher::<u32>::new();
    f.on_page(page(0..100));
    f.on_fatal();
    assert_eq!(f.phase(), FetchPhase::Failed);
    assert_eq!(f.requests(), 2);
}

#[test]
fn status_classification_table() {
    // The whole server-error class retries; the client-error class aborts.
    assert_eq!(classify_status(200), FaultClass::Success);
    assert_eq!(classify_status(204), FaultClass::Success);
    assert_eq!(classify_status(302), FaultClass::Success);
    assert_eq!(classify_status(399), FaultClass::Success);
    assert_eq!(classify_status(400), FaultClass::Fatal);
    assert_eq!(classify_status(401), FaultClass::Fatal);
    assert_eq!(classify_status(403), FaultClass::Fatal);
    assert_eq!(classify_status(404), FaultClass::Fatal);
    assert_eq!(classify_status(499), FaultClass::Fatal);
    assert_eq!(classify_status(500), FaultClass::Transient);
    assert_eq!(classify_status(501), FaultClass::Transient);
    assert_eq!(classify_status(502), FaultClass::Transient);
    assert_eq!(classify_status(503), FaultClass::Transient);
    assert_eq!(classify_status(504), FaultClass::Transient);
    assert_eq!(classify_status(599), FaultClass::Transient);
    assert_eq!(classify_status(600), FaultClass::Success);
}

#[test]
fn page_size_is_one_hundred() {
    assert_eq!(PAGE_SIZE, 100);
}
