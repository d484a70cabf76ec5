//! Paging through the accounts and bookmarks stored in the database. The
//! cursors decide which window of entries to ask for and keep the page
//! bookkeeping; the queries themselves are run by the caller, which hands the
//! rows back.
use vstd::prelude::*;

use crate::app::config::SortOption;
use crate::models::{account::Account, bookmarks::Bookmark};

verus! {

/// The number of pages that `total` entries fill at `per_page` entries a page:
/// the ceiling of the quotient, and never fewer than one page. With no room
/// on a page, an empty list still takes one page and any other list takes as
/// many pages as can be counted.
pub open spec fn page_count(total: nat, per_page: nat) -> nat {
    if per_page == 0 {
        if total == 0 {
            1
        } else {
            usize::MAX as nat
        }
    } else {
        let pages = if total % per_page == 0 {
            total / per_page
        } else {
            total / per_page + 1
        };
        if pages < 1 {
            1
        } else {
            pages
        }
    }
}

/// Computes `page_count`.
pub fn count_pages(total: usize, per_page: u8) -> (res: usize)
    ensures
        res == page_count(total as nat, per_page as nat),
{
    if per_page == 0 {
        if total == 0 {
            1
        } else {
            usize::MAX
        }
    } else {
        let p = per_page as usize;
        let q = total / p;
        let pages = if total % p == 0 {
            q
        } else {
            assert(q < total) by (nonlinear_arith)
                requires
                    q == total / p,
                    p >= 1,
                    total % p != 0,
            ;
            q + 1
        };
        if pages < 1 {
            1
        } else {
            pages
        }
    }
}

/// Every entry of a list lies on exactly the page that the cursor computes
/// for it: with `per_page > 0`, entry `i < total` sits on page
/// `i / per_page + 1`, which is one of the `page_count(total, per_page)`
/// pages, and that page's window `[(p - 1) * per_page, p * per_page)` holds it.
pub proof fn lemma_every_entry_on_a_page(total: nat, per_page: nat, i: nat)
    requires
        per_page > 0,
        i < total,
    ensures
        1 <= i / per_page + 1 <= page_count(total, per_page),
        (i / per_page) * per_page <= i < (i / per_page + 1) * per_page,
{
    let q = i / per_page;
    assert(q * per_page <= i < (q + 1) * per_page) by (nonlinear_arith)
        requires
            q == i / per_page,
            per_page > 0,
    ;
    let t = total / per_page;
    assert(t * per_page <= total) by (nonlinear_arith)
        requires
            t == total / per_page,
            per_page > 0,
    ;
    assert(total < (t + 1) * per_page) by (nonlinear_arith)
        requires
            t == total / per_page,
            per_page > 0,
    ;
    // q <= t, and q < t when the last page is full
    if q > t {
        assert((t + 1) * per_page <= q * per_page) by (nonlinear_arith)
            requires
                q > t,
                per_page > 0,
        ;
    }
    if total % per_page == 0 && q >= t {
        assert(total == t * per_page) by (nonlinear_arith)
            requires
                t == total / per_page,
                total % per_page == 0,
                per_page > 0,
        ;
        assert(t * per_page <= q * per_page) by (nonlinear_arith)
            requires
                q >= t,
                per_page > 0,
        ;
    }
}

/// A request for one window of stored accounts.
#[derive(Debug, Clone, Copy, PartialEq, Eq, Structural)]
pub struct AccountsQuery {
    pub limit: u8,
    pub offset: usize,
}

/// A request for one window of stored bookmarks: a page of the whole list in
/// the chosen order, or a page of the bookmarks that match a search.
#[derive(Debug, Clone)]
pub enum BookmarksQuery {
    Page { limit: u8, offset: usize, sort: SortOption },
    Search { query: String, limit: u8, offset: usize, sort: SortOption },
}

/// The page bookkeeping that both cursors share.
pub trait Pagination {
    /// How many entries a page holds.
    spec fn page_size(&self) -> nat;

    /// The page the cursor stands on, counted from one.
    spec fn page(&self) -> nat;

    /// Takes the number of stored entries and recomputes the number of pages,
    /// moving back to the last page if the cursor stood beyond it. Answers
    /// whether the current window has to be fetched again.
    fn refresh_count(&mut self, stored_entries: usize) -> (refetch: bool);

    /// Moves the window to the page with the given index, counted from zero;
    /// index zero also moves the cursor back to the first page.
    fn refresh_offset(&mut self, page_index: usize)
        requires
            page_index * old(self).page_size() <= usize::MAX,
    ;
}

/// A cursor over the stored bookmarks, optionally restricted to a search.
#[derive(Debug, Clone)]
pub struct BookmarksPaginationCursor {
    pub offset: usize,
    pub search_query: Option<String>,
    pub current_page: usize,
    pub items_per_page: u8,
    pub sort_option: SortOption,
    pub result: Option<Vec<Bookmark>>,
    pub total_entries: usize,
    pub total_pages: usize,
}

impl BookmarksPaginationCursor {
    /// A cursor on the first page of an empty list, newest bookmarks first.
    pub fn new() -> (res: Self)
        ensures
            res.offset == 0,
            res.search_query is None,
            res.current_page == 1,
            res.items_per_page == 0,
            res.sort_option == SortOption::BookmarksDateNewest,
            res.result is None,
            res.total_entries == 0,
            res.total_pages == 1,
    {
        BookmarksPaginationCursor {
            offset: 0,
            search_query: None,
            current_page: 1,
            items_per_page: 0,
            sort_option: SortOption::BookmarksDateNewest,
            result: None,
            total_entries: 0,
            total_pages: 1,
        }
    }

    fn recompute_pages(&mut self)
        ensures
            final(self).total_pages == page_count(
                old(self).total_entries as nat,
                old(self).items_per_page as nat,
            ),
            final(self).current_page == (if old(self).current_page > final(self).total_pages {
                final(self).total_pages
            } else {
                old(self).current_page
            }),
            final(self).offset == old(self).offset,
            final(self).search_query == old(self).search_query,
            final(self).items_per_page == old(self).items_per_page,
            final(self).sort_option == old(self).sort_option,
            final(self).result == old(self).result,
            final(self).total_entries == old(self).total_entries,
    {
        self.total_pages = count_pages(self.total_entries, self.items_per_page);
        if self.current_page > self.total_pages {
            self.current_page = self.total_pages;
        }
    }

    /// Starts fetching the current page: moves the window there and says
    /// which rows to read. Without a search the rows are a page of all
    /// bookmarks; with one, a page of the matches.
    pub fn fetch_next_results(&mut self) -> (query: BookmarksQuery)
        requires
            old(self).current_page >= 1,
            (old(self).current_page - 1) * old(self).items_per_page <= usize::MAX,
        ensures
            final(self).offset == (old(self).current_page - 1) * old(self).items_per_page,
            final(self).current_page == old(self).current_page,
            final(self).search_query == old(self).search_query,
            final(self).items_per_page == old(self).items_per_page,
            final(self).sort_option == old(self).sort_option,
            final(self).result == old(self).result,
            final(self).total_entries == old(self).total_entries,
            final(self).total_pages == old(self).total_pages,
            match old(self).search_query {
                None => query == BookmarksQuery::Page {
                    limit: old(self).items_per_page,
                    offset: final(self).offset,
                    sort: old(self).sort_option,
                },
                Some(q) => query == BookmarksQuery::Search {
                    query: q,
                    limit: old(self).items_per_page,
                    offset: final(self).offset,
                    sort: old(self).sort_option,
                },
            },
    {
        let index = self.current_page - 1;
        self.refresh_offset(index);
        match &self.search_query {
            None => BookmarksQuery::Page {
                limit: self.items_per_page,
                offset: self.offset,
                sort: self.sort_option,
            },
            Some(q) => BookmarksQuery::Search {
                query: q.clone(),
                limit: self.items_per_page,
                offset: self.offset,
                sort: self.sort_option,
            },
        }
    }

    /// Takes the rows of a page of all bookmarks.
    pub fn receive_page(&mut self, bookmarks: Vec<Bookmark>)
        ensures
            *final(self) == (BookmarksPaginationCursor { result: Some(bookmarks), ..*old(self) }),
    {
        self.result = Some(bookmarks);
    }

    /// Takes the rows of a page of search matches and the number of all
    /// matches: the matches become the entries that the pages count.
    pub fn receive_search(&mut self, count: usize, bookmarks: Vec<Bookmark>)
        ensures
            final(self).total_entries == count,
            final(self).total_pages == page_count(count as nat, old(self).items_per_page as nat),
            final(self).current_page == (if old(self).current_page > final(self).total_pages {
                final(self).total_pages
            } else {
                old(self).current_page
            }),
            final(self).result == Some(bookmarks),
            final(self).offset == old(self).offset,
            final(self).search_query == old(self).search_query,
            final(self).items_per_page == old(self).items_per_page,
            final(self).sort_option == old(self).sort_option,
    {
        self.total_entries = count;
        self.recompute_pages();
        self.result = Some(bookmarks);
    }
}

impl Pagination for BookmarksPaginationCursor {
    open spec fn page_size(&self) -> nat {
        self.items_per_page as nat
    }

    open spec fn page(&self) -> nat {
        self.current_page as nat
    }

    /// Without a search, `stored_entries` is the number of stored bookmarks;
    /// during a search the count of the last search stands. The bookmarks
    /// are never fetched again here.
    fn refresh_count(&mut self, stored_entries: usize) -> (refetch: bool)
        ensures
            !refetch,
            final(self).total_entries == (if old(self).search_query is None {
                stored_entries
            } else {
                old(self).total_entries
            }),
            final(self).total_pages == page_count(
                final(self).total_entries as nat,
                old(self).items_per_page as nat,
            ),
            final(self).current_page == (if old(self).current_page > final(self).total_pages {
                final(self).total_pages
            } else {
                old(self).current_page
            }),
            final(self).offset == old(self).offset,
            final(self).search_query == old(self).search_query,
            final(self).items_per_page == old(self).items_per_page,
            final(self).sort_option == old(self).sort_option,
            final(self).result == old(self).result,
    {
        if self.search_query.is_none() {
            self.total_entries = stored_entries;
        }
        self.recompute_pages();
        false
    }

    fn refresh_offset(&mut self, page_index: usize)
        ensures
            final(self).offset == page_index * old(self).items_per_page,
            final(self).current_page == (if page_index == 0 {
                1
            } else {
                old(self).current_page
            }),
            final(self).search_query == old(self).search_query,
            final(self).items_per_page == old(self).items_per_page,
            final(self).sort_option == old(self).sort_option,
            final(self).result == old(self).result,
            final(self).total_entries == old(self).total_entries,
            final(self).total_pages == old(self).total_pages,
    {
        if page_index == 0 {
            self.offset = 0;
            self.current_page = 1;
        } else {
            self.offset = page_index * (self.items_per_page as usize);
        }
    }
}

/// A cursor over the stored accounts.
#[derive(Debug, Clone)]
pub struct AccountsPaginationCursor {
    pub offset: usize,
    pub current_page: usize,
    pub items_per_page: u8,
    pub result: Option<Vec<Account>>,
    pub total_entries: usize,
    pub total_pages: usize,
}

impl AccountsPaginationCursor {
    /// A cursor on the first page of an empty list.
    pub fn new() -> (res: Self)
        ensures
            res.offset == 0,
            res.current_page == 1,
            res.items_per_page == 0,
            res.result is None,
            res.total_entries == 0,
            res.total_pages == 1,
    {
        AccountsPaginationCursor {
            offset: 0,
            current_page: 1,
            items_per_page: 0,
            result: None,
            total_entries: 0,
            total_pages: 1,
        }
    }

    /// Starts fetching the current page: moves the window there and says
    /// which rows to read.
    pub fn fetch_next_results(&mut self) -> (query: AccountsQuery)
        requires
            old(self).current_page >= 1,
            (old(self).current_page - 1) * old(self).items_per_page <= usize::MAX,
        ensures
            final(self).offset == (old(self).current_page - 1) * old(self).items_per_page,
            query == (AccountsQuery {
                limit: old(self).items_per_page,
                offset: final(self).offset,
            }),
            final(self).current_page == old(self).current_page,
            final(self).items_per_page == old(self).items_per_page,
            final(self).result == old(self).result,
            final(self).total_entries == old(self).total_entries,
            final(self).total_pages == old(self).total_pages,
    {
        let index = self.current_page - 1;
        self.refresh_offset(index);
        AccountsQuery { limit: self.items_per_page, offset: self.offset }
    }

    /// Takes the rows of the current page.
    pub fn receive_page(&mut self, accounts: Vec<Account>)
        ensures
            *final(self) == (AccountsPaginationCursor { result: Some(accounts), ..*old(self) }),
    {
        self.result = Some(accounts);
    }
}

impl Pagination for AccountsPaginationCursor {
    open spec fn page_size(&self) -> nat {
        self.items_per_page as nat
    }

    open spec fn page(&self) -> nat {
        self.current_page as nat
    }

    /// `stored_entries` is the number of stored accounts. When the cursor
    /// stood beyond the last page it moves there, and the answer asks for
    /// that page to be fetched.
    fn refresh_count(&mut self, stored_entries: usize) -> (refetch: bool)
        ensures
            final(self).total_entries == stored_entries,
            final(self).total_pages == page_count(
                stored_entries as nat,
                old(self).items_per_page as nat,
            ),
            refetch == (old(self).current_page > final(self).total_pages),
            final(self).current_page == (if refetch {
                final(self).total_pages
            } else {
                old(self).current_page
            }),
            final(self).offset == old(self).offset,
            final(self).items_per_page == old(self).items_per_page,
            final(self).result == old(self).result,
    {
        self.total_entries = stored_entries;
        self.total_pages = count_pages(self.total_entries, self.items_per_page);
        if self.current_page > self.total_pages {
            self.current_page = self.total_pages;
            true
        } else {
            false
        }
    }

    fn refresh_offset(&mut self, page_index: usize)
        ensures
            final(self).offset == page_index * old(self).items_per_page,
            final(self).current_page == (if page_index == 0 {
                1
            } else {
                old(self).current_page
            }),
            final(self).items_per_page == old(self).items_per_page,
            final(self).result == old(self).result,
            final(self).total_entries == old(self).total_entries,
            final(self).total_pages == old(self).total_pages,
    {
        if page_index == 0 {
            self.offset = 0;
            self.current_page = 1;
        } else {
            self.offset = page_index * (self.items_per_page as usize);
        }
    }
}

/// After a recount the cursor never stands beyond the last page, and there
/// is always at least one page: for any stored count, once
/// `refresh_count` has run, `current_page <= total_pages` and
/// `total_pages >= 1`.
pub proof fn lemma_recount_in_range(total: nat, per_page: nat, page: nat)
    ensures
        page_count(total, per_page) >= 1,
        (if page > page_count(total, per_page) {
            page_count(total, per_page)
        } else {
            page
        }) <= page_count(total, per_page),
{
}

} // verus!
