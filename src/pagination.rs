use vstd::prelude::*;

verus! {

/// Parameters for pagination: how many rows to skip, and how many to return
/// at most. An absent offset means zero; an absent limit means no bound.
#[derive(Debug, Clone, Copy, PartialEq, Eq, Structural, Default)]
pub struct Pagination {
    pub offset: Option<u32>,
    pub limit: Option<u32>,
}

impl Pagination {
    pub fn new(offset: Option<u32>, limit: Option<u32>) -> (r: Pagination)
        ensures
            r.offset == offset,
            r.limit == limit,
    {
        Pagination { offset, limit }
    }

    /// Number of rows skipped before the window starts.
    pub open spec fn start(self) -> nat {
        match self.offset {
            Some(o) => o as nat,
            None => 0,
        }
    }

    /// The window of `rows` that this pagination selects: skip `start()` rows,
    /// then keep at most `limit` rows when a limit is given.
    pub open spec fn page<T>(self, rows: Seq<T>) -> Seq<T> {
        let rest = if self.start() < rows.len() {
            rows.subrange(self.start() as int, rows.len() as int)
        } else {
            Seq::<T>::empty()
        };
        match self.limit {
            Some(l) => if (l as int) < rest.len() {
                rest.subrange(0, l as int)
            } else {
                rest
            },
            None => rest,
        }
    }

    /// First index of the window over `len` rows.
    pub open spec fn lo(self, len: nat) -> nat {
        if self.start() < len {
            self.start()
        } else {
            len
        }
    }

    /// One past the last index of the window over `len` rows.
    pub open spec fn hi(self, len: nat) -> nat {
        match self.limit {
            Some(l) => if (l as nat) < len - self.lo(len) {
                (self.lo(len) + l) as nat
            } else {
                len
            },
            None => len,
        }
    }

    /// The window is the contiguous index range `[lo, hi)`.
    pub proof fn lemma_page_is_range<T>(self, rows: Seq<T>)
        ensures
            self.lo(rows.len()) <= self.hi(rows.len()) <= rows.len(),
            self.page(rows) == rows.subrange(
                self.lo(rows.len()) as int,
                self.hi(rows.len()) as int,
            ),
    {
        let lo = self.lo(rows.len()) as int;
        let hi = self.hi(rows.len()) as int;
        assert(self.page(rows) =~= rows.subrange(lo, hi));
    }

    /// An offset at or past the end of the rows selects nothing.
    pub proof fn lemma_offset_past_end<T>(self, rows: Seq<T>)
        requires
            self.start() >= rows.len(),
        ensures
            self.page(rows) == Seq::<T>::empty(),
    {
        assert(self.page(rows) =~= Seq::<T>::empty());
    }

    /// Without offset and limit the window is every row, in order.
    pub proof fn lemma_unbounded_is_all<T>(self, rows: Seq<T>)
        requires
            self.offset is None,
            self.limit is None,
        ensures
            self.page(rows) == rows,
    {
        assert(self.page(rows) =~= rows);
    }

    /// Computes the index range `[lo, hi)` of the window over `len` rows.
    pub fn bounds(&self, len: usize) -> (r: (usize, usize))
        ensures
            r.0 == self.lo(len as nat),
            r.1 == self.hi(len as nat),
    {
        let lo: usize = match self.offset {
            Some(o) => if (o as u64) < (len as u64) {
                o as usize
            } else {
                len
            },
            None => 0,
        };
        let hi: usize = match self.limit {
            Some(l) => if (l as u64) < ((len - lo) as u64) {
                lo + l as usize
            } else {
                len
            },
            None => len,
        };
        (lo, hi)
    }
}

} // verus!
