//! Pagination parameters and metadata for list endpoints.

use vstd::prelude::*;

verus! {

/// Largest number of items a caller may request per page.
pub const MAX_PER_PAGE: u32 = 100;

/// Pagination query parameters (pages are 1-indexed).
#[derive(Debug, Clone, Copy, PartialEq, Eq, Structural)]
pub struct PaginationParams {
    /// Page number (1-indexed).
    pub page: Option<u32>,
    /// Items per page.
    pub per_page: Option<u32>,
}

impl PaginationParams {
    /// Requested page size, defaulted to 20 and clamped to `[1, MAX_PER_PAGE]`.
    pub open spec fn spec_per_page(&self) -> u32 {
        let p = match self.per_page {
            Some(v) => v,
            None => 20u32,
        };
        if p > MAX_PER_PAGE {
            MAX_PER_PAGE
        } else if p < 1 {
            1u32
        } else {
            p
        }
    }

    /// Requested page, defaulted to 1 and clamped to at least 1.
    pub open spec fn spec_page(&self) -> u32 {
        let p = match self.page {
            Some(v) => v,
            None => 1u32,
        };
        if p < 1 {
            1u32
        } else {
            p
        }
    }

    /// Returns the clamped per-page value.
    pub fn per_page(&self) -> (r: u32)
        ensures
            r == self.spec_per_page(),
            1 <= r <= MAX_PER_PAGE,
    {
        let p = match self.per_page {
            Some(v) => v,
            None => 20,
        };
        if p > MAX_PER_PAGE {
            MAX_PER_PAGE
        } else if p < 1 {
            1
        } else {
            p
        }
    }

    /// Returns the page (1-indexed, minimum 1).
    pub fn page(&self) -> (r: u32)
        ensures
            r == self.spec_page(),
            r >= 1,
    {
        let p = match self.page {
            Some(v) => v,
            None => 1,
        };
        if p < 1 { 1 } else { p }
    }

    /// Number of items to skip before the requested page.
    pub fn offset(&self) -> (r: u32)
        requires
            (self.spec_page() - 1) * self.spec_per_page() <= u32::MAX,
        ensures
            r == (self.spec_page() - 1) * self.spec_per_page(),
    {
        (self.page() - 1) * self.per_page()
    }

    /// Largest number of items the requested page may hold.
    pub fn limit(&self) -> (r: u32)
        ensures
            r == self.spec_per_page(),
    {
        self.per_page()
    }
}

impl Default for PaginationParams {
    /// No explicit page or page size: defaults apply.
    fn default() -> (r: Self)
        ensures
            r.page is None,
            r.per_page is None,
    {
        PaginationParams { page: None, per_page: None }
    }
}

/// Number of pages needed for `total_items` items at `per_page` items each,
/// saturated at `u32::MAX`.
pub open spec fn spec_total_pages(total_items: u64, per_page: u32) -> u32
    recommends
        per_page >= 1,
{
    let t = total_items as int;
    let p = per_page as int;
    let tp = t / p + (if t % p != 0 { 1int } else { 0int });
    if tp > u32::MAX {
        u32::MAX
    } else {
        tp as u32
    }
}

/// Pagination metadata attached to a page of results.
#[derive(Debug, Clone, Copy, PartialEq, Eq, Structural)]
pub struct PaginationMeta {
    pub page: u32,
    pub per_page: u32,
    pub total_items: u64,
    pub total_pages: u32,
    pub has_next: bool,
    pub has_prev: bool,
}

/// The metadata that `params` and `total_items` determine.
pub open spec fn spec_meta(params: PaginationParams, total_items: u64) -> PaginationMeta {
    let page = params.spec_page();
    let per_page = params.spec_per_page();
    let total_pages = spec_total_pages(total_items, per_page);
    (PaginationMeta {
        page,
        per_page,
        total_items,
        total_pages,
        has_next: page < total_pages,
        has_prev: page > 1,
    })
}

impl PaginationMeta {
    /// Describes the page that `params` selects out of `total_items` items.
    pub fn new(params: &PaginationParams, total_items: u64) -> (r: Self)
        ensures
            r == spec_meta(*params, total_items),
    {
        let per_page = params.per_page();
        let page = params.page();
        let pp64: u64 = per_page as u64;
        let whole: u64 = total_items / pp64;
        let rem: u64 = total_items % pp64;
        let total_pages: u32 = if whole >= u32::MAX as u64 {
            u32::MAX
        } else if rem != 0 {
            (whole + 1) as u32
        } else {
            whole as u32
        };
        PaginationMeta {
            page,
            per_page,
            total_items,
            total_pages,
            has_next: page < total_pages,
            has_prev: page > 1,
        }
    }
}

/// One page of results together with its pagination metadata.
#[derive(Debug, Clone)]
pub struct Paginated<T> {
    pub data: Vec<T>,
    pub pagination: PaginationMeta,
}

impl<T> Paginated<T> {
    /// Wraps one page of `data` with the metadata that `params` and
    /// `total_items` determine.
    pub fn new(data: Vec<T>, params: &PaginationParams, total_items: u64) -> (r: Self)
        ensures
            r.data == data,
            r.pagination == spec_meta(*params, total_items),
    {
        Paginated { data, pagination: PaginationMeta::new(params, total_items) }
    }
}

} // verus!
