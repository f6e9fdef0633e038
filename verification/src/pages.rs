//! Which pages a request keeps and which it removes.
//!
//! Pages are numbered from one. A request `[start, end]` keeps the pages whose
//! number lies in that range and removes every other page of the document.
//!
//! No range is an error here. One that reaches past the last page keeps what
//! there is of it; one that starts past the last page, or ends before it
//! starts, keeps no page at all.

use vstd::prelude::*;

verus! {

/// The page numbers `first, first + 1, .., last`; none where `last < first`.
pub open spec fn page_range(first: int, last: int) -> Seq<u32> {
    Seq::new(
        (if last >= first {
            last - first + 1
        } else {
            0
        }) as nat,
        |i: int| (first + i) as u32,
    )
}

/// How many pages of a document of `max_pages` pages come before page `start`.
pub open spec fn leading_len(max_pages: int, start: int) -> int {
    if start <= 0 {
        0
    } else if start - 1 < max_pages {
        start - 1
    } else {
        max_pages
    }
}

/// The number of the last page that is not among the trailing pages to
/// remove: `end`, but never before the leading pages and never past the
/// document.
pub open spec fn kept_until(max_pages: int, start: int, end: int) -> int {
    let lead = leading_len(max_pages, start);
    if end <= lead {
        lead
    } else if end < max_pages {
        end
    } else {
        max_pages
    }
}

/// The pages to remove for the request `[start, end]` from a document of
/// `max_pages` pages, in ascending order: first those before `start`, then
/// those after `end`.
pub open spec fn spec_deletion_set(max_pages: u32, start: u32, end: u32) -> Seq<u32> {
    page_range(1, leading_len(max_pages as int, start as int)) + page_range(
        kept_until(max_pages as int, start as int, end as int) + 1,
        max_pages as int,
    )
}

/// What the request `[start, end]` keeps of `pages`, a document's pages in
/// page order: those numbered `start` to `end`, in their order.
pub open spec fn kept_pages<T>(pages: Seq<T>, start: u32, end: u32) -> Seq<T> {
    pages.subrange(
        leading_len(pages.len() as int, start as int),
        kept_until(pages.len() as int, start as int, end as int),
    )
}

/// The deletion set is the complement of the requested range within the
/// document: a page number is in it exactly if it is a page of the document
/// and lies outside `[start, end]`.
pub proof fn lemma_deletion_set_is_complement(max_pages: u32, start: u32, end: u32, page: u32)
    ensures
        spec_deletion_set(max_pages, start, end).contains(page) <==> (1 <= page <= max_pages && !(
        start <= page <= end)),
{
    let lead = leading_len(max_pages as int, start as int);
    let until = kept_until(max_pages as int, start as int, end as int);
    let del = spec_deletion_set(max_pages, start, end);
    if 1 <= page <= max_pages && !(start <= page <= end) {
        if page < start {
            assert(del[page - 1] == page);
        } else {
            assert(del[lead + page - until - 1] == page);
        }
    }
}

/// The deletion set lists its pages in strictly ascending order, so none
/// twice.
pub proof fn lemma_deletion_set_ascends(max_pages: u32, start: u32, end: u32, i: int, j: int)
    requires
        0 <= i < j < spec_deletion_set(max_pages, start, end).len(),
    ensures
        spec_deletion_set(max_pages, start, end)[i] < spec_deletion_set(max_pages, start, end)[j],
{
}

/// Every page of the document is either removed or kept: the two counts add
/// up to the number of pages.
pub proof fn lemma_removed_and_kept_add_up<T>(pages: Seq<T>, start: u32, end: u32)
    requires
        pages.len() <= u32::MAX,
    ensures
        spec_deletion_set(pages.len() as u32, start, end).len() + kept_pages(
            pages,
            start,
            end,
        ).len() == pages.len(),
{
}

/// A request that lies within the document keeps exactly its pages: as many
/// as the range is long, each the page of the source with that number, in the
/// order of the source.
pub proof fn lemma_kept_pages_in_range<T>(pages: Seq<T>, start: u32, end: u32)
    requires
        1 <= start <= end <= pages.len(),
    ensures
        kept_pages(pages, start, end).len() == end - start + 1,
        forall|i: int|
            0 <= i <= end - start ==> #[trigger] kept_pages(pages, start, end)[i] == pages[start
                - 1 + i],
{
}

/// A request that starts at the first page removes no page before its range.
pub proof fn lemma_no_leading_deletions(max_pages: u32, end: u32, i: int)
    requires
        0 <= i < spec_deletion_set(max_pages, 1, end).len(),
    ensures
        spec_deletion_set(max_pages, 1, end)[i] > end,
{
}

/// A request that ends at the last page removes no page after its range.
pub proof fn lemma_no_trailing_deletions(max_pages: u32, start: u32, i: int)
    requires
        0 <= i < spec_deletion_set(max_pages, start, max_pages).len(),
    ensures
        spec_deletion_set(max_pages, start, max_pages)[i] < start,
{
}

/// A request for one page of the document keeps that page and no other.
pub proof fn lemma_single_page<T>(pages: Seq<T>, page: u32)
    requires
        1 <= page <= pages.len(),
    ensures
        kept_pages(pages, page, page) == seq![pages[page - 1]],
{
}

/// The pages to remove so that only those of `[start, end]` stay.
pub fn deletion_set(max_pages: u32, start: u32, end: u32) -> (del: Vec<u32>)
    ensures
        del@ == spec_deletion_set(max_pages, start, end),
{
    let lead: u32 = if start == 0 {
        0
    } else if start - 1 < max_pages {
        start - 1
    } else {
        max_pages
    };
    let until: u32 = if end <= lead {
        lead
    } else if end < max_pages {
        end
    } else {
        max_pages
    };
    let mut del: Vec<u32> = Vec::new();
    let mut page: u32 = 0;
    while page < lead
        invariant
            page <= lead,
            del@ == page_range(1, page as int),
        decreases lead - page,
    {
        page = page + 1;
        del.push(page);
    }
    page = until;
    while page < max_pages
        invariant
            until <= page <= max_pages,
            del@ == page_range(1, lead as int) + page_range(until + 1, page as int),
        decreases max_pages - page,
    {
        page = page + 1;
        del.push(page);
    }
    del
}

/// Whether `left` holds exactly the pages that the request `[start, end]`
/// keeps of `source`.
pub fn pages_match(left: &Vec<(u32, u16)>, source: &Vec<(u32, u16)>, start: u32, end: u32) -> (same:
    bool)
    ensures
        same == (left@ == kept_pages(source@, start, end)),
{
    let total: usize = source.len();
    let lead: usize = if start == 0 {
        0
    } else if ((start - 1) as usize) < total {
        (start - 1) as usize
    } else {
        total
    };
    let until: usize = if end as usize <= lead {
        lead
    } else if (end as usize) < total {
        end as usize
    } else {
        total
    };
    if left.len() != until - lead {
        return false;
    }
    let mut i: usize = 0;
    while i < left.len()
        invariant
            lead <= until <= total,
            total == source.len(),
            left.len() == until - lead,
            i <= left.len(),
            lead as int == leading_len(source@.len() as int, start as int),
            until as int == kept_until(source@.len() as int, start as int, end as int),
            forall|j: int| 0 <= j < i ==> left@[j] == source@[lead + j],
        decreases left.len() - i,
    {
        let a = left[i];
        let b = source[lead + i];
        if a.0 != b.0 || a.1 != b.1 {
            return false;
        }
        i = i + 1;
    }
    assert(left@ =~= kept_pages(source@, start, end));
    true
}

} // verus!
