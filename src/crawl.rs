//! Page-by-page crawl of an issue listing: which page to fetch next, and whether
//! a fetched page is dispatched for detail fetches.
use crate::models::{Issue, PaginationMeta};
use vstd::prelude::*;

verus! {

/// Number of records asked for per listing page.
pub const CRAWL_PAGE_SIZE: u32 = 50;

/// What the crawl asks for next.
#[derive(Clone, Copy, Debug, PartialEq, Eq, Structural)]
pub enum CrawlStep {
    FetchPage(u32),
    Finished,
}

/// The state of a crawl: the page to fetch next, or that it is over.
pub struct CrawlDriver {
    page: u32,
    finished: bool,
}

/// Whether a fetched page goes on to detail fetches: it holds records and the
/// listing reports some.
pub open spec fn page_dispatched(records: nat, meta: PaginationMeta) -> bool {
    records > 0 && meta.total_records > 0
}

/// Whether the crawl goes on after page `page`: it was dispatched and the listing
/// has pages beyond it.
pub open spec fn crawl_continues(records: nat, meta: PaginationMeta, page: nat) -> bool {
    page_dispatched(records, meta) && meta.total_pages > page
}

impl CrawlDriver {
    pub closed spec fn current_page(&self) -> nat {
        self.page as nat
    }

    pub closed spec fn is_finished(&self) -> bool {
        self.finished
    }

    /// A crawl that starts at page 1.
    pub fn new() -> (r: CrawlDriver)
        ensures
            r.current_page() == 1,
            !r.is_finished(),
    {
        CrawlDriver { page: 1, finished: false }
    }

    /// The next request: the current page, unless the crawl is over. The
    /// current page always fits a `u32`.
    pub fn next_step(&self) -> (r: CrawlStep)
        ensures
            self.current_page() <= u32::MAX,
            self.is_finished() ==> r == CrawlStep::Finished,
            !self.is_finished() ==> (r matches CrawlStep::FetchPage(p) && p as nat == self.current_page()),
    {
        if self.finished {
            CrawlStep::Finished
        } else {
            CrawlStep::FetchPage(self.page)
        }
    }

    /// Takes in the listing page just fetched, which held `records` records, and
    /// tells whether that page goes on to detail fetches. The crawl moves to the
    /// next page exactly when the page was dispatched and the listing has more.
    pub fn on_listing(&mut self, records: usize, meta: &PaginationMeta) -> (dispatch: bool)
        requires
            !old(self).is_finished(),
        ensures
            dispatch == page_dispatched(records as nat, *meta),
            crawl_continues(records as nat, *meta, old(self).current_page()) ==> {
                &&& !final(self).is_finished()
                &&& final(self).current_page() == old(self).current_page() + 1
            },
            !crawl_continues(records as nat, *meta, old(self).current_page()) ==> {
                &&& final(self).is_finished()
                &&& final(self).current_page() == old(self).current_page()
            },
    {
        let dispatch = records > 0 && meta.total_records > 0;
        if dispatch && meta.total_pages > self.page {
            self.page = self.page + 1;
        } else {
            self.finished = true;
        }
        dispatch
    }
}

/// The ids of the issues on a listing page, in order.
pub fn page_issue_ids(page: &Vec<Issue>) -> (r: Vec<String>)
    ensures
        r@.len() == page@.len(),
        forall|i: int| 0 <= i < page@.len() ==> #[trigger] r@[i]@ == page@[i].id@,
{
    let mut ids: Vec<String> = Vec::new();
    let mut i: usize = 0;
    while i < page.len()
        invariant
            i <= page@.len(),
            ids@.len() == i,
            forall|k: int| 0 <= k < i ==> #[trigger] ids@[k]@ == page@[k].id@,
        decreases page@.len() - i,
    {
        ids.push(page[i].id.clone());
        i = i + 1;
    }
    ids
}

} // verus!
