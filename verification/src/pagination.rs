//! Paging arithmetic: from a page number and a page size to the offset of the
//! page, the number of rows it holds, and whether more rows follow it.

use vstd::prelude::*;
use crate::error::RepoError;

verus! {

/// The page a client asks for. Pages are numbered from one.
#[derive(Clone, Copy, Debug, PartialEq, Eq, Structural)]
pub struct Pagination {
    pub page: i32,
    pub per_page: i32,
}

/// Where a page starts and whether rows follow it.
#[derive(Clone, Copy, Debug, PartialEq, Eq, Structural)]
pub struct Window {
    pub offset: i64,
    pub has_more: bool,
}

/// The number of rows that the page starting at `offset` holds when the table
/// has `total` rows and a page takes at most `per_page`.
pub open spec fn page_len(offset: int, per_page: int, total: int) -> int {
    if total <= offset {
        0
    } else if total - offset < per_page {
        total - offset
    } else {
        per_page
    }
}

/// Whether rows follow a page that starts at `offset` and returned `returned`
/// rows out of `total_count`.
pub open spec fn more_after(offset: int, returned: int, total_count: int) -> bool {
    offset + returned < total_count
}

impl Pagination {
    /// Both numbers are at least one.
    pub open spec fn valid(self) -> bool {
        self.page >= 1 && self.per_page >= 1
    }

    /// The number of rows that precede the page.
    pub open spec fn offset_spec(self) -> int {
        (self.page - 1) * self.per_page
    }

    /// The offset of the page and whether rows follow it in a table of
    /// `total_count` rows.
    pub open spec fn window_spec(self, total_count: int) -> Window {
        Window {
            offset: self.offset_spec() as i64,
            has_more: more_after(
                self.offset_spec(),
                page_len(self.offset_spec(), self.per_page as int, total_count),
                total_count,
            ),
        }
    }

    /// The offset of any valid page fits the store's 64-bit row counts.
    pub proof fn lemma_offset_bounds(self)
        requires
            self.valid(),
        ensures
            0 <= self.offset_spec() < 0x4000_0000_0000_0000,
            self.page == 1 ==> self.offset_spec() == 0,
    {
        let p = self.page - 1;
        let n = self.per_page as int;
        assert(0 <= p * n <= 0x7fff_ffff * 0x7fff_ffff) by (nonlinear_arith)
            requires
                0 <= p <= 0x7fff_ffff,
                0 <= n <= 0x7fff_ffff,
        ;
        assert(self.page == 1 ==> p * n == 0) by (nonlinear_arith)
            requires
                p == self.page - 1,
        ;
    }

    /// Rows follow a page exactly when the table reaches beyond its last slot.
    pub proof fn lemma_has_more(self, total_count: int)
        requires
            self.valid(),
        ensures
            self.window_spec(total_count).has_more == (self.offset_spec() + self.per_page
                < total_count),
            self.window_spec(total_count).offset == self.offset_spec(),
    {
        self.lemma_offset_bounds();
    }

    /// Tells whether both numbers are at least one.
    pub fn is_valid(&self) -> (ok: bool)
        ensures
            ok == self.valid(),
    {
        self.page >= 1 && self.per_page >= 1
    }

    /// The number of rows to skip before the page, or `InvalidPagination` when
    /// `page` or `per_page` is below one.
    pub fn offset(&self) -> (r: Result<i64, RepoError>)
        ensures
            self.valid() ==> r == Ok::<i64, RepoError>(self.offset_spec() as i64)
                && r->Ok_0 == self.offset_spec(),
            !self.valid() ==> r == Err::<i64, RepoError>(RepoError::InvalidPagination),
    {
        if !self.is_valid() {
            return Err(RepoError::InvalidPagination);
        }
        proof {
            self.lemma_offset_bounds();
        }
        let before: i64 = (self.page - 1) as i64;
        let size: i64 = self.per_page as i64;
        Ok(before * size)
    }

    /// The most rows the page can hold, as the store counts them.
    pub fn limit(&self) -> (n: i64)
        ensures
            n == self.per_page,
    {
        self.per_page as i64
    }

    /// The offset of the page and whether rows follow it in a table of
    /// `total_count` rows, or `InvalidPagination` when `page` or `per_page` is
    /// below one.
    pub fn window(&self, total_count: i64) -> (r: Result<Window, RepoError>)
        ensures
            self.valid() ==> r == Ok::<Window, RepoError>(self.window_spec(total_count as int)),
            !self.valid() ==> r == Err::<Window, RepoError>(RepoError::InvalidPagination),
    {
        match self.offset() {
            Err(e) => Err(e),
            Ok(offset) => {
                proof {
                    self.lemma_offset_bounds();
                    self.lemma_has_more(total_count as int);
                }
                let has_more = offset + self.limit() < total_count;
                Ok(Window { offset, has_more })
            },
        }
    }
}

/// Whether rows follow a page that starts at `offset` and returned `returned`
/// rows, in a table counted at `total_count`.
pub fn has_more(offset: i64, returned: usize, total_count: i64) -> (more: bool)
    ensures
        more == more_after(offset as int, returned as int, total_count as int),
{
    (offset as i128) + (returned as i128) < (total_count as i128)
}

} // verus!
