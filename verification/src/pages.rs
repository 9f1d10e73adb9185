//! Paging through a query: the windows (offset and limit) of the successive
//! pages, and when the paging ends.
use vstd::prelude::*;

verus! {

/// `diesel::result::Error`, the error of a failed query: carried through, never read.
#[verifier::external_type_specification]
#[verifier::external_body]
pub struct ExDieselError(diesel::result::Error);

/// Pages of `limit` records: the `k`-th page is the window at offset
/// `k * limit`.
pub struct PageIter {
    cursor: i64,
    limit: i64,
}

/// Pages of 100 records.
pub struct RecordIter {
    cursor: i64,
}

/// The number of records of a `RecordIter` page.
pub const FETCH_AMOUNT: i64 = 100;

/// What one loaded page gives the caller: the end of the paging for an empty
/// page, the page itself otherwise, and the error of a failed load.
pub open spec fn page_outcome<R, E>(res: Result<Vec<R>, E>) -> Option<Result<Vec<R>, E>> {
    match res {
        Err(e) => Some(Err(e)),
        Ok(v) => if v.len() == 0 {
            None
        } else {
            Some(Ok(v))
        },
    }
}

/// Ends the paging at the first empty page; passes errors and other pages on.
pub fn next_page<R, E>(res: Result<Vec<R>, E>) -> (r: Option<Result<Vec<R>, E>>)
    ensures
        r == page_outcome(res),
{
    match res {
        Err(err) => Some(Err(err)),
        Ok(res) => {
            if res.len() == 0 {
                None
            } else {
                Some(Ok(res))
            }
        },
    }
}

/// The window of page `cursor` of pages of `limit` records fits in `i64`.
pub open spec fn window_fits(cursor: int, limit: int) -> bool {
    i64::MIN <= cursor * limit <= i64::MAX && cursor < i64::MAX
}

impl View for PageIter {
    /// The index of the next page and the page size.
    type V = (int, int);

    closed spec fn view(&self) -> (int, int) {
        (self.cursor as int, self.limit as int)
    }
}

impl PageIter {
    /// Paging from the first page, `limit` records a page.
    pub fn new(limit: i64) -> (r: PageIter)
        ensures
            r@ == (0int, limit as int),
    {
        PageIter { limit, cursor: 0 }
    }

    /// Always succeeds.
    pub fn f() -> (r: Result<(), diesel::result::Error>)
        ensures
            r is Ok,
    {
        Ok(())
    }

    /// Whether the window of the next page fits in `i64`.
    pub fn can_advance(&self) -> (r: bool)
        ensures
            r == window_fits(self@.0, self@.1),
    {
        match self.cursor.checked_mul(self.limit) {
            Some(_) => self.cursor < i64::MAX,
            None => false,
        }
    }

    /// The window (offset and limit) of the next page; moves to the page after.
    pub fn next_window(&mut self) -> (r: (i64, i64))
        requires
            window_fits(old(self)@.0, old(self)@.1),
        ensures
            r.0 == old(self)@.0 * old(self)@.1,
            r.1 == old(self)@.1,
            final(self)@ == (old(self)@.0 + 1, old(self)@.1),
    {
        let offset = self.cursor * self.limit;
        self.cursor += 1;
        (offset, self.limit)
    }
}

impl View for RecordIter {
    /// The index of the next page.
    type V = int;

    closed spec fn view(&self) -> int {
        self.cursor as int
    }
}

impl RecordIter {
    /// Paging from the first page.
    pub fn new() -> (r: RecordIter)
        ensures
            r@ == 0,
    {
        RecordIter { cursor: 0 }
    }

    /// Whether the window of the next page fits in `i64`.
    pub fn can_advance(&self) -> (r: bool)
        ensures
            r == window_fits(self@, FETCH_AMOUNT as int),
    {
        match self.cursor.checked_mul(FETCH_AMOUNT) {
            Some(_) => self.cursor < i64::MAX,
            None => false,
        }
    }

    /// The window (offset and limit) of the next page; moves to the page after.
    pub fn next_window(&mut self) -> (r: (i64, i64))
        requires
            window_fits(old(self)@, FETCH_AMOUNT as int),
        ensures
            r.0 == old(self)@ * FETCH_AMOUNT,
            r.1 == FETCH_AMOUNT,
            final(self)@ == old(self)@ + 1,
    {
        let fetch_amt: i64 = FETCH_AMOUNT;
        let offset = self.cursor * fetch_amt;
        self.cursor += 1;
        (offset, fetch_amt)
    }
}

/// Successive pages are adjacent: the window of the next page starts where
/// the window of the page before ends, so no record is read twice or skipped.
pub proof fn law_pages_adjacent(cursor: int, limit: int)
    ensures
        (cursor + 1) * limit == cursor * limit + limit,
        cursor >= 0 && limit >= 0 ==> cursor * limit >= 0,
{
    assert((cursor + 1) * limit == cursor * limit + limit) by (nonlinear_arith);
    assert(cursor >= 0 && limit >= 0 ==> cursor * limit >= 0) by (nonlinear_arith);
}

/// Only an empty page ends the paging: a loaded page that holds any record,
/// one record too, is passed on as it is, and so is a failed load.
pub proof fn law_only_an_empty_page_ends_the_paging<R, E>(res: Result<Vec<R>, E>)
    ensures
        (res matches Ok(v) && v.len() > 0) ==> page_outcome(res) == Some(res),
        page_outcome(res) is None <==> (res matches Ok(v) && v.len() == 0),
        res is Err ==> page_outcome(res) == Some(res),
{
}

} // verus!
