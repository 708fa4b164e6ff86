//! Fixed-size stacks for coroutines.
//!
//! A stack is a contiguous virtual region described by three ordered
//! addresses, growing downward: `deallocation` (the lowest address, the base
//! returned to the OS on free), `top` (the lowest address the coroutine may
//! use), and `bottom` (one past the highest usable word, the initial stack
//! pointer). On a Unix-like layout with no growth, `deallocation == top`.
//!
//! Addresses are plain integers here: a stack value records the layout of
//! the region it denotes, and the layout laws are proved of every value.

mod eight_mb;
mod one_mb;

use vstd::prelude::*;

use crate::page::is_page_multiple;

pub use eight_mb::valid_eight_mb_base;
pub use eight_mb::EightMbStack;
pub use eight_mb::EIGHT_MB;
pub use one_mb::valid_one_mb_base;
pub use one_mb::OneMbStack;
pub use one_mb::ONE_MB;

verus! {

/// A region of memory usable as a coroutine stack.
///
/// Implementations fix the region's size; the accessors expose its layout
/// and guarantee [`region_wf`] of every value they are called on.
/// `deallocation` names the lowest address of the whole reservation (on
/// platforms with a reserved exception-handler zone it sits below `top`; on
/// Unix-like layouts it equals `top`).
pub trait Stack: Sized {
    /// The lowest address of the reservation, as a mathematical address.
    spec fn deallocation_addr(&self) -> int;

    /// The lowest usable address, as a mathematical address.
    spec fn top_addr(&self) -> int;

    /// One past the highest usable address, as a mathematical address.
    spec fn bottom_addr(&self) -> int;

    /// The address one past the highest usable word.
    fn bottom(&self) -> (r: usize)
        ensures
            r as int == self.bottom_addr(),
            self.deallocation_addr() <= self.top_addr() < self.bottom_addr(),
            is_page_multiple(self.bottom_addr() - self.top_addr()),
    ;

    /// The lowest usable address.
    fn top(&self) -> (r: usize)
        ensures
            r as int == self.top_addr(),
            self.deallocation_addr() <= self.top_addr() < self.bottom_addr(),
            is_page_multiple(self.bottom_addr() - self.top_addr()),
    ;

    /// The base of the reservation, handed back to the OS on free.
    fn deallocation(&self) -> (r: usize)
        ensures
            r as int == self.deallocation_addr(),
            self.deallocation_addr() <= self.top_addr() < self.bottom_addr(),
            is_page_multiple(self.bottom_addr() - self.top_addr()),
    ;
}

/// The layout a stack's region always keeps: the reservation base lies at or
/// below the usable region, the usable region is non-empty, and its length
/// is a whole number of pages.
pub open spec fn region_wf<S: Stack>(s: &S) -> bool {
    &&& s.deallocation_addr() <= s.top_addr()
    &&& s.top_addr() < s.bottom_addr()
    &&& is_page_multiple(s.bottom_addr() - s.top_addr())
}

/// Layout law: of every stack whose region is well formed — and every stack
/// this crate hands out is — the deallocation base, the top and the bottom
/// are ordered, and the usable region is a positive whole number of pages.
pub proof fn lemma_stack_layout<S: Stack>(s: &S)
    requires
        region_wf(s),
    ensures
        s.deallocation_addr() <= s.top_addr() < s.bottom_addr(),
        is_page_multiple(s.bottom_addr() - s.top_addr()),
        s.bottom_addr() - s.top_addr() > 0,
{
}

} // verus!
