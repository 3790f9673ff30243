//! Offset-based pages over an ordered sequence.
use vstd::prelude::*;

verus! {

/// The page size of the global feed.
pub const POSTS_PER_PAGE: i64 = 10;

/// The page size that asks for every remaining item on one page.
pub const UNBOUNDED_PAGE_SIZE: i64 = -1;

/// A page size is positive, or the unbounded sentinel.
pub open spec fn valid_page_size(size: int) -> bool {
    size > 0 || size == UNBOUNDED_PAGE_SIZE
}

/// Where page `page` (counted from 1) starts in a sequence of `len` items:
/// at offset `(page - 1) * size`, or at the end where that lies beyond it.
/// With the unbounded size the first page starts at 0 and holds every item,
/// so later pages start at the end.
pub open spec fn page_start(len: int, page: int, size: int) -> int {
    if size == UNBOUNDED_PAGE_SIZE {
        if page == 1 {
            0
        } else {
            len
        }
    } else if (page - 1) * size >= len {
        len
    } else {
        (page - 1) * size
    }
}

/// Where that page ends: `size` items after its start, or at the end.
pub open spec fn page_end(len: int, page: int, size: int) -> int {
    if size == UNBOUNDED_PAGE_SIZE {
        len
    } else if page_start(len, page, size) + size >= len {
        len
    } else {
        page_start(len, page, size) + size
    }
}

/// Page `page` of `s` in pages of `size` items.
pub open spec fn page_of<A>(s: Seq<A>, page: int, size: int) -> Seq<A> {
    s.subrange(page_start(s.len() as int, page, size), page_end(s.len() as int, page, size))
}

/// The bounds of page `page` of a sequence of `len` items.
pub fn page_bounds(len: usize, page: i32, size: i64) -> (r: (usize, usize))
    requires
        page >= 1,
        valid_page_size(size as int),
    ensures
        r.0 == page_start(len as int, page as int, size as int),
        r.1 == page_end(len as int, page as int, size as int),
        r.0 <= r.1 <= len,
{
    if size == UNBOUNDED_PAGE_SIZE {
        if page == 1 {
            (0, len)
        } else {
            (len, len)
        }
    } else {
        let p: i128 = page as i128 - 1;
        let z: i128 = size as i128;
        assert(0 <= p * z <= 0x7fff_ffff * 0x7fff_ffff_ffff_ffff) by (nonlinear_arith)
            requires
                0 <= p <= 0x7fff_ffff,
                0 < z <= 0x7fff_ffff_ffff_ffff,
        ;
        let start: i128 = p * z;
        if start >= len as i128 {
            (len, len)
        } else if start + z >= len as i128 {
            (start as usize, len)
        } else {
            (start as usize, (start + z) as usize)
        }
    }
}

} // verus!
