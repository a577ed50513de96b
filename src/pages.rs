use vstd::prelude::*;

verus! {

/// Why a page range cannot be taken from a document. Pages are numbered from one.
#[derive(Clone, Copy, Debug, PartialEq, Eq, Structural)]
pub enum PageRangeError {
    /// The document has no pages.
    EmptyDocument,
    /// The range starts before page one.
    StartBelowOne { start: i32 },
    /// The range starts after the last page.
    StartAfterLastPage { pages: i32, start: i32 },
    /// The range ends after the last page.
    EndAfterLastPage { pages: i32, end: i32 },
    /// The range ends before it starts.
    EmptyRange { start: i32, end: i32 },
}

/// The outcome of taking pages `from..=to` (numbered from one; an absent bound
/// is the first or the last page) of a document of `pages` pages: the zero-based
/// first and last page indices, or the first check that fails.
pub open spec fn spec_slice_range(pages: i32, from: Option<i32>, to: Option<i32>) -> Result<
    (i32, i32),
    PageRangeError,
> {
    let start = match from {
        Some(f) => f,
        None => 1,
    };
    let end = match to {
        Some(t) => t,
        None => pages,
    };
    if pages == 0 {
        Err(PageRangeError::EmptyDocument)
    } else if start < 1 {
        Err(PageRangeError::StartBelowOne { start })
    } else if start > pages {
        Err(PageRangeError::StartAfterLastPage { pages, start })
    } else if end > pages {
        Err(PageRangeError::EndAfterLastPage { pages, end })
    } else if start > end {
        Err(PageRangeError::EmptyRange { start, end })
    } else {
        Ok(((start - 1) as i32, (end - 1) as i32))
    }
}

/// Checks the range of pages `from..=to` of a document with `pages` pages and
/// gives its zero-based first and last page indices.
pub fn slice_range(pages: i32, from: Option<i32>, to: Option<i32>) -> (r: Result<
    (i32, i32),
    PageRangeError,
>)
    requires
        pages >= 0,
    ensures
        r == spec_slice_range(pages, from, to),
{
    let start = match from {
        Some(f) => f,
        None => 1,
    };
    let end = match to {
        Some(t) => t,
        None => pages,
    };
    if pages == 0 {
        Err(PageRangeError::EmptyDocument)
    } else if start < 1 {
        Err(PageRangeError::StartBelowOne { start })
    } else if start > pages {
        Err(PageRangeError::StartAfterLastPage { pages, start })
    } else if end > pages {
        Err(PageRangeError::EndAfterLastPage { pages, end })
    } else if start > end {
        Err(PageRangeError::EmptyRange { start, end })
    } else {
        Ok((start - 1, end - 1))
    }
}

/// How a document is split for printing on both sides by hand: the zero-based
/// source pages of the front side, in order; those of the back side, in the
/// order they are printed; and whether the back side starts with a blank page.
#[derive(Clone, Debug)]
pub struct DuplexPlan {
    pub front: Vec<i32>,
    pub back: Vec<i32>,
    pub pad_back: bool,
}

/// The split of a document of `pages` pages: the front side takes the pages at
/// even indices in order; the back side takes those at odd indices in reverse
/// order, since the printed sheets are turned over; when the number of pages is
/// odd, a blank page first on the back side aligns the two sides.
pub open spec fn is_duplex_plan(pages: int, plan: DuplexPlan) -> bool {
    let odd = pages / 2;
    &&& plan.front@.len() == pages - odd
    &&& forall|k: int| 0 <= k < plan.front@.len() ==> plan.front@[k] == 2 * k
    &&& plan.back@.len() == odd
    &&& forall|k: int| 0 <= k < plan.back@.len() ==> plan.back@[k] == 2 * (odd - 1 - k) + 1
    &&& plan.pad_back == (pages % 2 == 1)
}

/// Splits a document of `pages` pages for duplex printing; a document of fewer
/// than two pages cannot be split, and its page count comes back as the error.
pub fn split_for_duplex(pages: i32) -> (r: Result<DuplexPlan, i32>)
    ensures
        r is Err <==> pages < 2,
        r is Err ==> r->Err_0 == pages,
        r is Ok ==> is_duplex_plan(pages as int, r->Ok_0),
{
    if pages < 2 {
        return Err(pages);
    }
    let odd: i32 = pages / 2;
    let mut front: Vec<i32> = Vec::new();
    let mut i: i32 = 0;
    while i < pages - odd
        invariant
            0 <= i <= pages - odd,
            odd == pages / 2,
            pages >= 2,
            front@.len() == i,
            forall|k: int| 0 <= k < i ==> front@[k] == 2 * k,
        decreases pages - odd - i,
    {
        front.push(2 * i);
        i += 1;
    }
    let mut back: Vec<i32> = Vec::new();
    let mut j: i32 = 0;
    while j < odd
        invariant
            0 <= j <= odd,
            odd == pages / 2,
            pages >= 2,
            back@.len() == j,
            forall|k: int| 0 <= k < j ==> back@[k] == 2 * (odd - 1 - k) + 1,
        decreases odd - j,
    {
        back.push(2 * (odd - 1 - j) + 1);
        j += 1;
    }
    Ok(DuplexPlan { front, back, pad_back: pages % 2 == 1 })
}

} // verus!
