//! The page size the allocators are laid out for.

use vstd::prelude::*;

verus! {

/// The page size, in bytes, that every stack layout in this crate assumes.
/// All reservations are whole numbers of such pages.
pub const PAGE_SIZE: usize = 4096;

/// True when `n` bytes are a whole number of pages.
pub open spec fn is_page_multiple(n: int) -> bool {
    n % (PAGE_SIZE as int) == 0
}

/// The page size in bytes.
pub fn page_size() -> (r: usize)
    ensures
        r == PAGE_SIZE,
{
    PAGE_SIZE
}

} // verus!
