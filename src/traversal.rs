//! The paginated traversal, as a state machine.
//!
//! A traversal fetches page 1, then page after page while the page number
//! does not exceed the page count that the latest page reported. The caller
//! fetches the page that [`Traversal::pending`] names, and hands it to
//! [`Traversal::record`]; a failed fetch ends the traversal, and what was
//! gathered is dropped with it.
use std::time::Duration;

use vstd::prelude::*;

use crate::errors::QueryError;
use crate::request::{Pagination, SingleRequest};

verus! {

/// A report of progress: `page` of `pages` is done.
#[derive(Debug, Clone, Copy, PartialEq, Eq, Structural)]
pub struct Progress {
    pub page: u32,
    pub pages: u32,
}

/// What follows the recording of a page.
#[derive(Debug, Clone, Copy)]
pub struct Step {
    /// The progress to report.
    pub progress: Progress,
    /// The pause to make before the next page, if any.
    pub pause: Option<Duration>,
}

/// The page to fetch after the pages whose reported page counts are
/// `reported`, in order; `None` once the traversal is complete.
pub open spec fn pending_page(reported: Seq<nat>) -> Option<nat> {
    if reported.len() == 0 {
        Some(1)
    } else if reported.len() + 1 <= reported.last() {
        Some(reported.len() + 1)
    } else {
        None
    }
}

/// Whether a traversal can have fetched pages that reported `reported`:
/// each page was the pending one when it was fetched.
pub open spec fn reachable(reported: Seq<nat>) -> bool {
    forall|k: int| 0 <= k < reported.len() ==> #[trigger] pending_page(reported.take(k)) == Some(
        (k + 1) as nat,
    )
}

/// The state of one paginated traversal that gathers items of type `T`.
pub struct Traversal<T> {
    fetched: u32,
    pages: u32,
    results: Vec<T>,
    delay: Option<Duration>,
    reported: Ghost<Seq<nat>>,
    pages_items: Ghost<Seq<Seq<T>>>,
}

impl<T> Traversal<T> {
    /// The fields agree with the history of reported counts.
    pub closed spec fn wf(&self) -> bool {
        &&& self.fetched == self.reported@.len()
        &&& self.pages_items@.len() == self.reported@.len()
        &&& self.results@ == self.pages_items@.flatten()
        &&& reachable(self.reported@)
        &&& self.pages == (if self.fetched == 0 {
            1
        } else {
            self.reported@.last()
        })
    }

    /// The page counts reported by the pages fetched so far, in order.
    pub closed spec fn reported(&self) -> Seq<nat> {
        self.reported@
    }

    /// The items of each page fetched so far, in page order.
    pub closed spec fn page_items(&self) -> Seq<Seq<T>> {
        self.pages_items@
    }

    /// The items gathered so far, in page order.
    pub closed spec fn results(&self) -> Seq<T> {
        self.results@
    }

    pub closed spec fn delay_spec(&self) -> Option<Duration> {
        self.delay
    }

    /// A traversal that has fetched nothing yet, with the progress to report
    /// before the first fetch: page 0 of 1.
    pub fn start(delay: Option<Duration>) -> (r: (Self, Progress))
        ensures
            r.0.wf(),
            r.0.reported() == Seq::<nat>::empty(),
            r.0.results() == Seq::<T>::empty(),
            r.0.page_items() == Seq::<Seq<T>>::empty(),
            r.0.delay_spec() == delay,
            r.1 == (Progress { page: 0, pages: 1 }),
    {
        let t = Traversal {
            fetched: 0,
            pages: 1,
            results: Vec::new(),
            delay,
            reported: Ghost(Seq::empty()),
            pages_items: Ghost(Seq::empty()),
        };
        proof {
            assert(t.pages_items@.flatten() =~= Seq::<T>::empty());
        }
        (t, Progress { page: 0, pages: 1 })
    }

    /// The page to fetch next, or `None` once the traversal is complete.
    pub fn pending(&self) -> (r: Option<u32>)
        requires
            self.wf(),
        ensures
            reachable(self.reported()),
            match pending_page(self.reported()) {
                Some(n) => r == Some(n as u32) && n <= u32::MAX,
                None => r is None,
            },
    {
        if self.fetched == 0 {
            Some(1)
        } else if (self.fetched as u64) + 1 <= self.pages as u64 {
            Some(self.fetched + 1)
        } else {
            None
        }
    }

    /// Records the pending page, fetched with `request`: its items are
    /// appended, and its page count becomes the one the traversal goes by.
    /// The progress reported is page 1 of the new count for the first page,
    /// and for a later page the page of the count known when it was fetched.
    /// A configured delay is paused after every page but the first.
    pub fn record<S, P>(&mut self, request: &S, page: P) -> (step: Step) where
        S: SingleRequest<P, Vec<T>>,
        P: Pagination,

        requires
            old(self).wf(),
            pending_page(old(self).reported()) is Some,
        ensures
            final(self).wf(),
            final(self).reported() == old(self).reported().push(page.pages_spec() as nat),
            final(self).results() == old(self).results() + request.extract_spec(page)@,
            final(self).page_items() == old(self).page_items().push(request.extract_spec(page)@),
            final(self).delay_spec() == old(self).delay_spec(),
            reachable(final(self).reported()),
            step.progress == (if old(self).reported().len() == 0 {
                Progress { page: 1, pages: page.pages_spec() }
            } else {
                Progress {
                    page: (old(self).reported().len() + 1) as u32,
                    pages: old(self).reported().last() as u32,
                }
            }),
            step.pause == (if old(self).reported().len() == 0 {
                None
            } else {
                old(self).delay_spec()
            }),
    {
        let ghost before = self.reported@;
        let ghost before_items = self.pages_items@;
        let pages = page.pages();
        let mut items = request.extract(page);
        let ghost batch = items@;
        let number = self.fetched + 1;
        let step = if self.fetched == 0 {
            Step { progress: Progress { page: 1, pages }, pause: None }
        } else {
            Step { progress: Progress { page: number, pages: self.pages }, pause: self.delay }
        };
        self.results.append(&mut items);
        self.fetched = number;
        self.pages = pages;
        self.reported = Ghost(before.push(pages as nat));
        self.pages_items = Ghost(before_items.push(batch));
        proof {
            before_items.lemma_flatten_push(batch);
            let after = before.push(pages as nat);
            assert forall|k: int| 0 <= k < after.len() implies #[trigger] pending_page(after.take(k))
                == Some((k + 1) as nat) by {
                if k < before.len() {
                    assert(after.take(k) =~= before.take(k));
                } else {
                    assert(after.take(k) =~= before);
                }
            }
        }
        step
    }

    /// Takes the outcome of fetching the pending page. A failure ends the
    /// traversal: it is handed back as it came, the traversal is consumed
    /// with what it gathered, no progress is reported and no page is fetched
    /// again. A page is recorded as [`Traversal::record`] says.
    pub fn advance<S, P>(self, request: &S, fetched: Result<P, QueryError>) -> (r: Result<
        (Self, Step),
        QueryError,
    >) where S: SingleRequest<P, Vec<T>>, P: Pagination
        requires
            self.wf(),
            pending_page(self.reported()) is Some,
        ensures
            match fetched {
                Err(e) => r == Err::<(Self, Step), QueryError>(e),
                Ok(page) => r is Ok && advanced(self, request.extract_spec(page)@, page.pages_spec(), r->Ok_0.0, r->Ok_0.1),
            },
    {
        match fetched {
            Err(e) => Err(e),
            Ok(page) => {
                let mut walk = self;
                let step = walk.record(request, page);
                Ok((walk, step))
            },
        }
    }

    /// The items gathered, in page order, once the traversal is complete:
    /// an unfinished traversal hands out no partial result.
    pub fn into_results(self) -> (r: Vec<T>)
        requires
            self.wf(),
            pending_page(self.reported()) is None,
        ensures
            r@ == self.results(),
    {
        self.results
    }
}

/// `after` is `before` once a page with the items `items`, reporting
/// `pages` pages, has been recorded, and `step` is what follows it.
pub open spec fn advanced<T>(before: Traversal<T>, items: Seq<T>, pages: u32, after: Traversal<T>, step: Step) -> bool {
    &&& after.wf()
    &&& after.reported() == before.reported().push(pages as nat)
    &&& after.page_items() == before.page_items().push(items)
    &&& after.results() == before.results() + items
    &&& after.delay_spec() == before.delay_spec()
    &&& step.progress == (if before.reported().len() == 0 {
        Progress { page: 1, pages }
    } else {
        Progress {
            page: (before.reported().len() + 1) as u32,
            pages: before.reported().last() as u32,
        }
    })
    &&& step.pause == (if before.reported().len() == 0 {
        None
    } else {
        before.delay_spec()
    })
}

/// The items of a traversal are those of its pages, one page after the
/// other: page `k` is the `k`-th page fetched, and there are as many pages
/// as fetches. A complete traversal over pages that all report `pages`
/// pages holds the items of pages 1 to `pages`, in that order.
pub proof fn traversal_gathers_pages_in_order<T>(t: Traversal<T>, pages: nat)
    requires
        t.wf(),
        pending_page(t.reported()) is None,
        pages >= 1,
        forall|i: int| 0 <= i < t.reported().len() ==> #[trigger] t.reported()[i] == pages,
    ensures
        t.page_items().len() == pages,
        t.results() == t.page_items().flatten(),
{
    traversal_fetches_reported_count(t.reported(), pages);
}

/// Termination: while no page reports more pages than the first did, a
/// traversal fetches at most as many pages as the first page reported, and
/// it is complete once it has fetched that many.
pub proof fn traversal_bounded_by_first_count(reported: Seq<nat>)
    requires
        reachable(reported),
        reported.len() >= 1,
        reported[0] >= 1,
        forall|i: int| 0 <= i < reported.len() ==> #[trigger] reported[i] <= reported[0],
    ensures
        reported.len() <= reported[0],
        reported.len() == reported[0] ==> pending_page(reported) is None,
{
    let n = reported.len() as int;
    if n >= 2 {
        assert(pending_page(reported.take(n - 1)) == Some(n as nat));
        assert(reported.take(n - 1).last() == reported[n - 2]);
        assert(reported[n - 2] <= reported[0]);
    }
}

/// A traversal over pages that all report the same count `pages` is
/// complete after exactly `pages` fetches.
pub proof fn traversal_fetches_reported_count(reported: Seq<nat>, pages: nat)
    requires
        reachable(reported),
        reported.len() >= 1,
        pages >= 1,
        forall|i: int| 0 <= i < reported.len() ==> #[trigger] reported[i] == pages,
    ensures
        pending_page(reported) is None <==> reported.len() == pages,
{
    traversal_bounded_by_first_count(reported);
}

} // verus!
