//! Paginated fetching: classification of HTTP outcomes into the fault
//! taxonomy, and the page-cursor state machine with its retry discipline.

use vstd::prelude::*;

verus! {

/// How a response to one page request is classified.
///
/// A server-side failure (the 5xx class, such as an internal error or a bad
/// gateway) is transient and expected to resolve on retry; every other
/// non-success outcome is fatal and aborts the whole fetch.
#[derive(Clone, Copy, Debug, PartialEq, Eq, Structural)]
pub enum FaultClass {
    /// Successful response: the page body is usable.
    Success,
    /// Server-side failure class: retry the same page.
    Transient,
    /// Anything else: abort the fetch immediately.
    Fatal,
}

/// Classifies an HTTP status code.
///
/// Every server-error status (500..=599) is transient; every client-error
/// status (400..=499) is fatal; every status outside the error ranges
/// counts as success.
pub fn classify_status(status: u16) -> (c: FaultClass)
    ensures
        c == classify_status_spec(status),
{
    if 500 <= status && status < 600 {
        FaultClass::Transient
    } else if 400 <= status && status < 500 {
        FaultClass::Fatal
    } else {
        FaultClass::Success
    }
}

/// Specification of [`classify_status`].
pub open spec fn classify_status_spec(status: u16) -> FaultClass {
    if 500 <= status && status < 600 {
        FaultClass::Transient
    } else if 400 <= status && status < 500 {
        FaultClass::Fatal
    } else {
        FaultClass::Success
    }
}

/// Phase of one paginated fetch.
#[derive(Clone, Copy, Debug, PartialEq, Eq, Structural)]
pub enum FetchPhase {
    /// The next page (the current cursor) still has to be requested.
    Active,
    /// A short page arrived: the sequence is complete.
    Done,
    /// A fatal response arrived: the fetch is aborted, accumulation discarded.
    Failed,
}

/// The page-cursor state machine behind every collection fetch.
///
/// Pages are requested sequentially starting at page 1 with a fixed size of
/// [`PAGE_SIZE`](crate::PAGE_SIZE) items; the returned sequence is the
/// concatenation of pages in request order, with no reordering and no
/// deduplication. The first page shorter than the page size ends the fetch.
/// A transient fault leaves the cursor where it is (the same page is asked
/// for again); a fatal fault ends the fetch with nothing to return.
///
/// The driver owning the transport repeats: ask [`Fetcher::current_page`],
/// perform the request, classify the outcome with [`classify_status`], and
/// report it through [`Fetcher::on_page`], [`Fetcher::on_transient`] or
/// [`Fetcher::on_fatal`], until [`Fetcher::phase`] leaves
/// [`FetchPhase::Active`].
pub struct Fetcher<T> {
    page: u64,
    requests: u64,
    phase: FetchPhase,
    items: Vec<T>,
}

impl<T> Fetcher<T> {
    /// The 1-based page the next request must ask for.
    pub closed spec fn page_spec(self) -> u64 {
        self.page
    }

    /// How many page requests have been answered so far, retries included.
    pub closed spec fn requests_spec(self) -> u64 {
        self.requests
    }

    /// Where the fetch stands.
    pub closed spec fn phase_spec(self) -> FetchPhase {
        self.phase
    }

    /// All items accumulated so far, in page order.
    pub closed spec fn items_spec(self) -> Seq<T> {
        self.items@
    }

    /// Starts a fetch: cursor on page 1, nothing accumulated.
    pub fn new() -> (f: Self)
        ensures
            f.page_spec() == 1,
            f.requests_spec() == 0,
            f.phase_spec() == FetchPhase::Active,
            f.items_spec() == Seq::<T>::empty(),
    {
        Fetcher { page: 1, requests: 0, phase: FetchPhase::Active, items: Vec::new() }
    }

    /// The page number the next request must carry.
    pub fn current_page(&self) -> (p: u64)
        ensures
            p == self.page_spec(),
    {
        self.page
    }

    /// How many page requests have been answered, retries included.
    pub fn requests(&self) -> (n: u64)
        ensures
            n == self.requests_spec(),
    {
        self.requests
    }

    /// Where the fetch stands.
    pub fn phase(&self) -> (p: FetchPhase)
        ensures
            p == self.phase_spec(),
    {
        self.phase
    }

    /// Records a successful response for the current page.
    ///
    /// The page's items are appended behind everything accumulated so far,
    /// in their own order. A full page moves the cursor to the next page; a
    /// short page (fewer than [`PAGE_SIZE`](crate::PAGE_SIZE) items,
    /// including an empty one) completes the fetch and leaves the cursor.
    pub fn on_page(&mut self, page_items: Vec<T>)
        requires
            old(self).phase_spec() == FetchPhase::Active,
            old(self).page_spec() < u64::MAX,
            old(self).requests_spec() < u64::MAX,
        ensures
            final(self).requests_spec() == old(self).requests_spec() + 1,
            final(self).items_spec() == old(self).items_spec() + page_items@,
            page_items@.len() < crate::PAGE_SIZE ==> final(self).phase_spec()
                == FetchPhase::Done && final(self).page_spec() == old(self).page_spec(),
            page_items@.len() >= crate::PAGE_SIZE ==> final(self).phase_spec()
                == FetchPhase::Active && final(self).page_spec() == old(self).page_spec() + 1,
    {
        let mut page_items = page_items;
        self.requests = self.requests + 1;
        if page_items.len() < crate::PAGE_SIZE {
            self.phase = FetchPhase::Done;
        } else {
            self.page = self.page + 1;
        }
        self.items.append(&mut page_items);
    }

    /// Records a transient fault for the current page.
    ///
    /// The cursor does not move and nothing is appended: the very same page
    /// is to be requested again, with no retry ceiling.
    pub fn on_transient(&mut self)
        requires
            old(self).phase_spec() == FetchPhase::Active,
            old(self).requests_spec() < u64::MAX,
        ensures
            final(self).requests_spec() == old(self).requests_spec() + 1,
            final(self).page_spec() == old(self).page_spec(),
            final(self).phase_spec() == FetchPhase::Active,
            final(self).items_spec() == old(self).items_spec(),
    {
        self.requests = self.requests + 1;
    }

    /// Records a fatal fault: the fetch aborts immediately and its partial
    /// accumulation is never returned.
    pub fn on_fatal(&mut self)
        requires
            old(self).phase_spec() == FetchPhase::Active,
            old(self).requests_spec() < u64::MAX,
        ensures
            final(self).requests_spec() == old(self).requests_spec() + 1,
            final(self).page_spec() == old(self).page_spec(),
            final(self).phase_spec() == FetchPhase::Failed,
            final(self).items_spec() == old(self).items_spec(),
    {
        self.requests = self.requests + 1;
        self.phase = FetchPhase::Failed;
    }

    /// Hands out the complete sequence; only a finished fetch has one.
    pub fn into_items(self) -> (r: Vec<T>)
        requires
            self.phase_spec() == FetchPhase::Done,
        ensures
            r@ == self.items_spec(),
    {
        self.items
    }
}

} // verus!
