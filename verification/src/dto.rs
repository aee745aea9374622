//! Paging of listings.

use vstd::prelude::*;

use crate::error::{is_bad_request, ErrorResponse};

verus! {

/// The page size used when a request names none.
pub const DEFAULT_PAGE_SIZE: i64 = 10;

/// The largest page size that a request may ask for.
pub const MAX_PAGE_SIZE: i64 = 30;

/// One page of a listing: which page, and how many rows per page.
#[derive(Debug, Clone, Copy, PartialEq, Eq)]
pub struct PaginationDto {
    pub page: i64,
    pub page_size: i64,
}

impl PaginationDto {
    /// Builds a page request, with `DEFAULT_PAGE_SIZE` where none is given,
    /// and refuses a page size above `MAX_PAGE_SIZE`.
    pub fn new_limited(page: i64, page_size: Option<i64>) -> (r: Result<PaginationDto, ErrorResponse>)
        ensures
            ({
                let size = match page_size {
                    Some(s) => s,
                    None => DEFAULT_PAGE_SIZE,
                };
                if size > MAX_PAGE_SIZE {
                    r matches Err(e) && is_bad_request(e, "page size too big"@)
                } else {
                    r == Ok::<PaginationDto, ErrorResponse>(PaginationDto { page, page_size: size })
                }
            }),
    {
        let page_size = match page_size {
            Some(s) => s,
            None => DEFAULT_PAGE_SIZE,
        };
        if page_size > MAX_PAGE_SIZE {
            return Err(ErrorResponse::bad_request("page size too big"));
        }
        Ok(PaginationDto { page, page_size })
    }

    /// The number of rows that come before this page.
    pub fn offset(&self) -> (o: i64)
        requires
            i64::MIN <= self.page * self.page_size <= i64::MAX,
        ensures
            o == self.page * self.page_size,
    {
        self.page * self.page_size
    }
}

} // verus!
