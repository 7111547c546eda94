use vstd::prelude::*;

verus! {

/// The number of rows on a page.
pub const DEFAULT_PAGE_SIZE: i64 = 1;

/// A query of which one page is wanted.
#[derive(Debug)]
pub struct Paginated<T> {
    pub query: T,
    pub page: i64,
    pub page_size: i64,
}

/// The query that asks for the page `page` of `query`, pages being
/// counted from one.
pub fn paginate<T>(query: T, page: i64) -> (r: Paginated<T>)
    ensures
        r == (Paginated { query, page, page_size: DEFAULT_PAGE_SIZE }),
{
    Paginated { query, page_size: DEFAULT_PAGE_SIZE, page }
}

impl<T> Paginated<T> {
    /// The number of rows that come before the page.
    pub open spec fn spec_offset(&self) -> int {
        (self.page - 1) * self.page_size
    }

    /// The number of rows that the query skips: those of the pages before
    /// the one that is wanted; `None` where that number does not fit in 64
    /// bits.
    pub fn offset(&self) -> (r: Option<i64>)
        ensures
            r == if i64::MIN <= self.spec_offset() <= i64::MAX {
                Some(self.spec_offset() as i64)
            } else {
                None
            },
    {
        match self.page.checked_sub(1) {
            Some(before) => before.checked_mul(self.page_size),
            None => {
                proof {
                    // The least page of all: one less is out of range, and
                    // so is the product unless the page size is zero.
                    assert(self.page == i64::MIN);
                }
                if self.page_size == 0 {
                    Some(0)
                } else if self.page_size == 1 {
                    None
                } else {
                    assert(self.spec_offset() < i64::MIN || self.spec_offset() > i64::MAX)
                        by (nonlinear_arith)
                        requires
                            self.page == i64::MIN,
                            self.page_size != 0,
                            self.page_size != 1,
                            i64::MIN <= self.page_size <= i64::MAX,
                    ;
                    None
                }
            },
        }
    }
}

} // verus!
