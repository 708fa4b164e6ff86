//! A 1 MiB stack.

use vstd::prelude::*;

use super::region_wf;
use super::Stack;
use crate::page::PAGE_SIZE;
use crate::AllocError;

verus! {

/// The usable size of a [`OneMbStack`], in bytes: 1 MiB plus one page.
pub const ONE_MB: usize = 1024 * 1024 + 4096;

/// True when a region of [`ONE_MB`] bytes starting at `base` is laid out
/// legally: the base is page-aligned, non-null, and the region fits in the
/// address space.
pub open spec fn valid_one_mb_base(base: int) -> bool {
    0 < base && base % (PAGE_SIZE as int) == 0 && base + ONE_MB <= usize::MAX
}

/// A 1 MiB (plus one page) stack region, usable in whole: the reservation
/// base, the lowest usable address and the deallocation address coincide.
pub struct OneMbStack {
    base: usize,
}

impl OneMbStack {
    #[verifier::type_invariant]
    closed spec fn wf(self) -> bool {
        valid_one_mb_base(self.base as int)
    }

    /// Describes a fresh 1 MiB region. The reservation itself is the
    /// embedding's affair; the layout never fails, so the result is always
    /// `Ok`.
    pub fn new() -> (r: Result<Self, AllocError>)
        ensures
            r is Ok,
            r matches Ok(s) ==> region_wf(&s) && s.top_addr() == s.deallocation_addr()
                && s.bottom_addr() - s.top_addr() == ONE_MB,
    {
        Ok(OneMbStack { base: PAGE_SIZE })
    }

    /// Consumes the stack and hands back its base address, from which
    /// [`OneMbStack::from_base`] rebuilds it: the base of every stack is a
    /// valid one.
    pub fn into_base(self) -> (b: usize)
        ensures
            b as int == self.top_addr(),
            valid_one_mb_base(b as int),
    {
        proof {
            use_type_invariant(&self);
        }
        self.base
    }

    /// Describes the region starting at `base`; rejects a base on which the
    /// layout would be illegal.
    pub fn from_base(base: usize) -> (r: Option<Self>)
        ensures
            r is Some <==> valid_one_mb_base(base as int),
            r matches Some(s) ==> region_wf(&s) && s.deallocation_addr() == base && s.top_addr()
                == base && s.bottom_addr() == base + ONE_MB,
    {
        if 0 < base && base % PAGE_SIZE == 0 && base <= usize::MAX - ONE_MB {
            Some(OneMbStack { base })
        } else {
            None
        }
    }
}

impl Stack for OneMbStack {
    closed spec fn deallocation_addr(&self) -> int {
        self.base as int
    }

    closed spec fn top_addr(&self) -> int {
        self.base as int
    }

    closed spec fn bottom_addr(&self) -> int {
        self.base + ONE_MB
    }

    fn bottom(&self) -> (r: usize) {
        proof {
            use_type_invariant(self);
        }
        self.base + ONE_MB
    }

    fn top(&self) -> (r: usize) {
        proof {
            use_type_invariant(self);
        }
        self.base
    }

    /// On a Unix-like layout the reservation starts at the usable region, so
    /// the deallocation address equals the top.
    fn deallocation(&self) -> (r: usize) {
        proof {
            use_type_invariant(self);
        }
        self.base
    }
}

} // verus!
