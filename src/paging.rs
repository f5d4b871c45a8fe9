//! Accumulating the records of a paged list endpoint.
use crate::codec::parsed_json;
use crate::json::Json;
use vstd::prelude::*;

verus! {

/// Records asked for per page.
pub const PAGE_SIZE: usize = 100;

/// The last page that is ever asked for, against an endpoint that never
/// returns a short page.
pub const MAX_PAGES: u64 = 1000;

/// The records of a page body: the items of a JSON array; nothing where the
/// body is not one.
pub open spec fn page_records(body: Seq<char>) -> Option<Seq<Json>> {
    match parsed_json(body) {
        Some(Json::Array(items)) => Some(items@),
        _ => None,
    }
}

/// Whether a scan at page `page` stops after the page `p`: at a page that is
/// not an array, a short page, or page `MAX_PAGES`.
pub open spec fn stops_after(page: int, p: Option<Seq<Json>>) -> bool {
    match p {
        None => true,
        Some(items) => items.len() < PAGE_SIZE || page == MAX_PAGES,
    }
}

/// The records after taking in the page `p`.
pub open spec fn records_after(records: Seq<Json>, p: Option<Seq<Json>>) -> Seq<Json> {
    match p {
        None => records,
        Some(items) => records + items,
    }
}

/// A whole scan from page `page` over the given pages, one per request until
/// it stops: the records, and the number of pages taken in.
pub open spec fn run_pages(page: int, records: Seq<Json>, pages: Seq<Option<Seq<Json>>>) -> (Seq<Json>, nat)
    decreases pages.len(),
{
    if pages.len() == 0 {
        (records, 0)
    } else if stops_after(page, pages[0]) {
        (records_after(records, pages[0]), 1)
    } else {
        let (r, n) = run_pages(page + 1, records_after(records, pages[0]), pages.drop_first());
        (r, n + 1)
    }
}

/// The records of all the pages that are arrays, in order.
pub open spec fn all_records(pages: Seq<Option<Seq<Json>>>) -> Seq<Json>
    decreases pages.len(),
{
    if pages.len() == 0 {
        seq![]
    } else {
        records_after(seq![], pages[0]) + all_records(pages.drop_first())
    }
}

/// A scan over pages that are all full but the last, which is short or not
/// an array, asks for exactly those pages and returns the records of all of
/// them: a last page that does not parse loses none of the records before
/// it.
pub proof fn lemma_scan_stops_at_last_page(pages: Seq<Option<Seq<Json>>>)
    requires
        1 <= pages.len() <= MAX_PAGES,
        forall|i: int| 0 <= i < pages.len() - 1 ==> (#[trigger] pages[i] matches Some(items)
            && items.len() == PAGE_SIZE),
        match pages.last() {
            None => true,
            Some(items) => items.len() < PAGE_SIZE,
        },
    ensures
        run_pages(1, seq![], pages) == (all_records(pages), pages.len()),
{
    lemma_run_pages(1, seq![], pages);
    assert(seq![] + all_records(pages) =~= all_records(pages));
}

proof fn lemma_run_pages(page: int, records: Seq<Json>, pages: Seq<Option<Seq<Json>>>)
    requires
        1 <= page,
        1 <= pages.len(),
        page + pages.len() - 1 <= MAX_PAGES,
        forall|i: int| 0 <= i < pages.len() - 1 ==> (#[trigger] pages[i] matches Some(items)
            && items.len() == PAGE_SIZE),
        match pages.last() {
            None => true,
            Some(items) => items.len() < PAGE_SIZE,
        },
    ensures
        run_pages(page, records, pages) == (records + all_records(pages), pages.len()),
    decreases pages.len(),
{
    let rest = pages.drop_first();
    if pages.len() == 1 {
        assert(rest.len() == 0);
        assert(all_records(rest) =~= seq![]);
        assert(records_after(seq![], pages[0]) + all_records(rest) =~= records_after(seq![], pages[0]));
        assert(records_after(records, pages[0]) =~= records + records_after(seq![], pages[0]));
    } else {
        assert(pages[0] matches Some(items) && items.len() == PAGE_SIZE);
        assert forall|i: int| 0 <= i < rest.len() - 1 implies (#[trigger] rest[i] matches Some(items)
            && items.len() == PAGE_SIZE) by {
            assert(rest[i] == pages[i + 1]);
        }
        assert(rest.last() == pages.last());
        lemma_run_pages(page + 1, records_after(records, pages[0]), rest);
        assert(records_after(records, pages[0]) + all_records(rest) =~= records + all_records(pages));
    }
}

/// The records of a page, as a sequence.
pub open spec fn view_page(page: Option<Vec<Json>>) -> Option<Seq<Json>> {
    match page {
        Some(items) => Some(items@),
        None => None,
    }
}

/// The state of a paged fetch: the next page number, the records so far, and
/// whether the last page has been seen.
#[derive(Debug)]
pub struct PageScan {
    pub page: u64,
    pub records: Vec<Json>,
    pub done: bool,
}

impl PageScan {
    /// Holds for every state that the scan goes through.
    pub open spec fn wf(&self) -> bool {
        1 <= self.page <= MAX_PAGES
    }

    /// A scan that starts at page 1 with no records.
    pub fn new() -> (r: PageScan)
        ensures
            r.wf(),
            r.page == 1,
            r.records@.len() == 0,
            !r.done,
    {
        PageScan { page: 1, records: Vec::new(), done: false }
    }

    /// Takes in the records of the current page, or `None` for a page that is
    /// not a JSON array. The scan stops at a page that is not an array (and
    /// keeps what it had), at a page with fewer than `PAGE_SIZE` records, and
    /// at page `MAX_PAGES`; otherwise it moves on to the next page.
    pub fn add_page(&mut self, page: Option<Vec<Json>>)
        requires
            old(self).wf(),
            !old(self).done,
        ensures
            final(self).wf(),
            final(self).records@ == records_after(old(self).records@, view_page(page)),
            final(self).done == stops_after(old(self).page as int, view_page(page)),
            final(self).page == if final(self).done {
                old(self).page
            } else {
                (old(self).page + 1) as u64
            },
    {
        match page {
            None => {
                self.done = true;
            },
            Some(mut items) => {
                let short = items.len() < PAGE_SIZE;
                self.records.append(&mut items);
                if short || self.page == MAX_PAGES {
                    self.done = true;
                } else {
                    self.page = self.page + 1;
                }
            },
        }
    }
}

} // verus!
