//! A growable stack with a guarded area.
//!
//! The region is divided in two parts: a usable area, from `top` (inclusive)
//! up to `bottom`, and a guarded area below it, from `guard_top` up to `top`,
//! whose pages fault on access. A reservation is made large up front; only
//! one page is usable at first, and every fault inside the guarded area
//! doubles the usable area until the reservation is exhausted. This
//! re-creates, on a Unix-like layout, the way Windows grows thread stacks by
//! moving a guard page downward.

use vstd::prelude::*;

use crate::page::is_page_multiple;
use crate::page::PAGE_SIZE;
use crate::AllocError;

verus! {

/// The growth budget is exhausted: doubling the usable area would exceed the
/// reservation, whose total size in bytes is carried here.
#[derive(Clone, Copy, Debug, PartialEq, Eq, Structural)]
pub struct StackMaxReached {
    pub total_size: usize,
}

/// A stack whose usable area grows downward into a guarded reservation.
///
/// `guard_top <= top < bottom` always holds, and the usable area
/// `bottom - top` is a whole number of pages.
pub struct PreAllocatedStack {
    guard_top: usize,
    top: usize,
    bottom: usize,
}

impl PreAllocatedStack {
    #[verifier::type_invariant]
    closed spec fn wf(self) -> bool {
        &&& 0 < self.guard_top <= self.top < self.bottom
        &&& is_page_multiple(self.bottom - self.top)
    }

    /// The lowest address of the reservation, as a mathematical address.
    pub closed spec fn guard_top_addr(&self) -> int {
        self.guard_top as int
    }

    /// The lowest usable address, as a mathematical address.
    pub closed spec fn top_addr(&self) -> int {
        self.top as int
    }

    /// One past the highest usable address, as a mathematical address.
    pub closed spec fn bottom_addr(&self) -> int {
        self.bottom as int
    }

    /// The size of the usable area, in bytes.
    pub open spec fn usable_size(&self) -> int {
        self.bottom_addr() - self.top_addr()
    }

    /// The size of the whole reservation, in bytes.
    pub open spec fn total_size(&self) -> int {
        self.bottom_addr() - self.guard_top_addr()
    }

    /// Describes a fresh reservation of `total_size` bytes plus one extra
    /// page at the top, of which exactly the bottom page is usable. Fails
    /// only when the layout cannot fit in the address space.
    pub fn new(total_size: usize) -> (r: Result<Self, AllocError>)
        ensures
            r is Ok <==> total_size + 2 * PAGE_SIZE <= usize::MAX,
            r matches Ok(s) ==> s.usable_size() == PAGE_SIZE && s.total_size() == total_size
                + PAGE_SIZE && s.guard_top_addr() <= s.top_addr() < s.bottom_addr(),
    {
        if total_size > usize::MAX - 2 * PAGE_SIZE {
            return Err(AllocError { errno: 0 });
        }
        let guard_top: usize = PAGE_SIZE;
        let bottom: usize = guard_top + total_size + PAGE_SIZE;
        let top: usize = bottom - PAGE_SIZE;
        Ok(PreAllocatedStack { guard_top, top, bottom })
    }

    /// Describes an existing reservation from its three addresses; rejects a
    /// layout that is not ordered, or whose usable area is empty or not a
    /// whole number of pages. Through this an embedding that reserved the
    /// region itself can drive the growth decisions on its real addresses.
    pub fn from_layout(guard_top: usize, top: usize, bottom: usize) -> (r: Option<Self>)
        ensures
            r is Some <==> 0 < guard_top <= top < bottom && is_page_multiple(bottom - top),
            r matches Some(s) ==> s.guard_top_addr() == guard_top && s.top_addr() == top
                && s.bottom_addr() == bottom,
    {
        if 0 < guard_top && guard_top <= top && top < bottom && (bottom - top) % PAGE_SIZE == 0 {
            Some(PreAllocatedStack { guard_top, top, bottom })
        } else {
            None
        }
    }

    /// The address one past the highest usable word.
    pub fn bottom(&self) -> (r: usize)
        ensures
            r as int == self.bottom_addr(),
            self.guard_top_addr() <= self.top_addr() < self.bottom_addr(),
            is_page_multiple(self.usable_size()),
    {
        proof {
            use_type_invariant(self);
        }
        self.bottom
    }

    /// The lowest usable address.
    pub fn top(&self) -> (r: usize)
        ensures
            r as int == self.top_addr(),
            self.guard_top_addr() <= self.top_addr() < self.bottom_addr(),
            is_page_multiple(self.usable_size()),
    {
        proof {
            use_type_invariant(self);
        }
        self.top
    }

    /// The lowest address of the reservation, below which nothing belongs to
    /// this stack.
    pub fn guard_top(&self) -> (r: usize)
        ensures
            r as int == self.guard_top_addr(),
            self.guard_top_addr() <= self.top_addr() < self.bottom_addr(),
            is_page_multiple(self.usable_size()),
    {
        proof {
            use_type_invariant(self);
        }
        self.guard_top
    }

    /// True exactly when `sp` points into the guarded area: at or above the
    /// reservation base and strictly below the usable area.
    pub fn stack_pointer_inside_guard(&self, sp: usize) -> (r: bool)
        ensures
            r == (self.guard_top_addr() <= sp as int && (sp as int) < self.top_addr()),
    {
        self.guard_top <= sp && sp < self.top
    }

    /// Doubles the usable area by taking it from the guarded area, if the
    /// reservation still has room; reports the reservation's size otherwise.
    pub fn grow(&mut self) -> (r: Result<(), StackMaxReached>)
        ensures
            r is Ok <==> 2 * old(self).usable_size() <= old(self).total_size(),
            r is Ok ==> final(self).top_addr() == old(self).top_addr()
                - old(self).usable_size(),
            r is Ok ==> final(self).bottom_addr() == old(self).bottom_addr(),
            r is Ok ==> final(self).guard_top_addr() == old(self).guard_top_addr(),
            r matches Err(e) ==> *final(self) == *old(self) && e.total_size as int
                == old(self).total_size(),
    {
        proof {
            use_type_invariant(&*self);
        }
        let usable: usize = self.bottom - self.top;
        let total: usize = self.bottom - self.guard_top;
        if usable > total - usable {
            Err(StackMaxReached { total_size: total })
        } else {
            self.top = self.top - usable;
            Ok(())
        }
    }

    /// The decision the stack-overflow handler takes for a fault at
    /// `fault_addr`: when the fault lies inside the guarded area and the
    /// reservation still has room, the usable area is doubled and the fault
    /// counts as handled; otherwise the stack is left as it is, so the host
    /// may turn the fault into a trap.
    pub fn handle_guard_fault(&mut self, fault_addr: usize) -> (handled: bool)
        ensures
            handled == (old(self).guard_top_addr() <= fault_addr as int && (fault_addr as int)
                < old(self).top_addr() && 2 * old(self).usable_size() <= old(self).total_size()),
            handled ==> final(self).top_addr() == old(self).top_addr()
                - old(self).usable_size(),
            handled ==> final(self).bottom_addr() == old(self).bottom_addr(),
            handled ==> final(self).guard_top_addr() == old(self).guard_top_addr(),
            !handled ==> *final(self) == *old(self),
    {
        if self.stack_pointer_inside_guard(fault_addr) {
            match self.grow() {
                Ok(()) => true,
                Err(_) => false,
            }
        } else {
            false
        }
    }
}

} // verus!
