//! A bounded pool of reusable 1 MiB stacks.
//!
//! Reserving a stack costs an OS round trip, so recycled stacks are kept in
//! a bounded queue and handed out again, oldest first. A recycle into a full
//! pool silently lets the stack go.
//!
//! The queue is crossbeam's `ArrayQueue`; its behaviour enters the proofs
//! only through the trusted contracts of the small wrappers below, stated
//! over two names: the queue's contents as a sequence (front first) and its
//! fixed capacity.
//!
//! Note that a pooled stack is not cleared between uses: a coroutine may
//! find stale bytes of an earlier one on it.

use vstd::prelude::*;

use crossbeam::queue::ArrayQueue;

use crate::generator::GeneratorOutput;
use crate::stack::valid_one_mb_base;
use crate::stack::OneMbStack;
use crate::stack::Stack;
use crate::AllocError;
use crate::AsyncWormhole;

verus! {

/// The queue's elements, front (oldest) first.
pub uninterp spec fn queue_contents(q: ArrayQueue<usize>) -> Seq<usize>;

/// The fixed capacity the queue was created with.
pub uninterp spec fn queue_capacity(q: ArrayQueue<usize>) -> nat;

#[verifier::external_type_specification]
#[verifier::external_body]
#[verifier::reject_recursive_types(T)]
pub struct ExArrayQueue<T>(ArrayQueue<T>);

/// The largest capacity a pool accepts: far below the point where the
/// queue's internal index arithmetic could overflow.
pub const POOL_CAPACITY_LIMIT: usize = 0x1000_0000;

/// Relies on crossbeam's `ArrayQueue::new`: a fresh empty queue with the
/// given capacity. The call panics on a capacity of zero and on one so large
/// that its index arithmetic overflows, so those are excluded here.
#[verifier::external_body]
fn queue_new(capacity: usize) -> (q: ArrayQueue<usize>)
    requires
        1 <= capacity <= POOL_CAPACITY_LIMIT,
    ensures
        queue_contents(q) == Seq::<usize>::empty(),
        queue_capacity(q) == capacity,
{
    ArrayQueue::new(capacity)
}

/// Relies on crossbeam's `ArrayQueue::push_mut`: appends the value at the
/// back when the queue is not full, and hands it back unchanged otherwise.
#[verifier::external_body]
fn queue_push(q: &mut ArrayQueue<usize>, value: usize) -> (r: Result<(), usize>)
    ensures
        queue_contents(*old(q)).len() < queue_capacity(*old(q)) ==> r is Ok && queue_contents(
            *final(q),
        ) == queue_contents(*old(q)).push(value) && queue_capacity(*final(q)) == queue_capacity(
            *old(q),
        ),
        queue_contents(*old(q)).len() >= queue_capacity(*old(q)) ==> (r matches Err(v) && v
            == value && queue_contents(*final(q)) == queue_contents(*old(q)) && queue_capacity(
            *final(q),
        ) == queue_capacity(*old(q))),
{
    q.push_mut(value)
}

/// Relies on crossbeam's `ArrayQueue::pop_mut`: removes and returns the
/// oldest element, or reports the queue empty.
#[verifier::external_body]
fn queue_pop(q: &mut ArrayQueue<usize>) -> (r: Option<usize>)
    ensures
        queue_contents(*old(q)).len() == 0 ==> r is None && queue_contents(*final(q))
            == queue_contents(*old(q)) && queue_capacity(*final(q)) == queue_capacity(*old(q)),
        queue_contents(*old(q)).len() > 0 ==> r == Some(queue_contents(*old(q))[0])
            && queue_contents(*final(q)) == queue_contents(*old(q)).drop_first() && queue_capacity(
            *final(q),
        ) == queue_capacity(*old(q)),
{
    q.pop_mut()
}

/// A bounded pool of recyclable 1 MiB stacks, oldest first.
pub struct OneMbAsyncPool {
    pool: ArrayQueue<usize>,
}

impl OneMbAsyncPool {
    /// Every pooled base denotes a legal 1 MiB region. Constructors
    /// establish this and every method preserves it.
    pub closed spec fn wf(&self) -> bool {
        forall|i: int|
            0 <= i < queue_contents(self.pool).len() ==> valid_one_mb_base(
                #[trigger] queue_contents(self.pool)[i] as int,
            )
    }

    /// The pooled stack bases, oldest first.
    pub closed spec fn contents_view(&self) -> Seq<usize> {
        queue_contents(self.pool)
    }

    /// The fixed number of stacks the pool can hold.
    pub closed spec fn capacity_view(&self) -> nat {
        queue_capacity(self.pool)
    }

    /// An empty pool that holds at most `capacity` stacks.
    pub fn new(capacity: usize) -> (p: Self)
        requires
            1 <= capacity <= POOL_CAPACITY_LIMIT,
        ensures
            p.wf(),
            p.contents_view() == Seq::<usize>::empty(),
            p.capacity_view() == capacity,
    {
        OneMbAsyncPool { pool: queue_new(capacity) }
    }

    /// Builds a wormhole on a pooled stack: the oldest recycled stack when
    /// one is there — the pool shrinks by it — and a fresh reservation
    /// otherwise. (Preserved thread-local slots, after which the method is
    /// named, travel with the embedding's pre/post-poll hooks; see
    /// [`AsyncWormhole::set_pre_post_poll`].)
    pub fn with_tls<State, Waker, Output, Panic, F: Fn(
        State,
        Waker,
    ) -> (State, GeneratorOutput<Option<Output>, Panic>), Hook: Fn()>(
        &mut self,
        step: F,
        initial: State,
    ) -> (r: Result<AsyncWormhole<State, Waker, Output, Panic, OneMbStack, F, Hook>, AllocError>)
        requires
            old(self).wf(),
        ensures
            final(self).wf(),
            final(self).capacity_view() == old(self).capacity_view(),
            r is Ok,
            old(self).contents_view().len() > 0 ==> final(self).contents_view() == old(self).contents_view().drop_first(),
            old(self).contents_view().len() == 0 ==> final(self).contents_view() == old(self).contents_view(),
            r matches Ok(w) ==> !w.is_done() && w.activation_view() == Some(initial)
                && w.hook_view() is None && w.stack_view() is Some,
            old(self).contents_view().len() > 0 ==> (r matches Ok(w)
                ==> w.stack_view().unwrap().top_addr() == old(self).contents_view()[0]),
    {
        let stack: OneMbStack = match queue_pop(&mut self.pool) {
            Some(base) => match OneMbStack::from_base(base) {
                Some(s) => s,
                None => unreached(),
            },
            None => match OneMbStack::new() {
                Ok(s) => s,
                Err(e) => {
                    return Err(e);
                },
            },
        };
        match AsyncWormhole::new(stack, step, initial) {
            Ok(w) => Ok(w),
            Err(e) => Err(e),
        }
    }

    /// Takes the wormhole's stack back into the pool. When the pool is
    /// already full, the stack is simply let go.
    pub fn recycle<State, Waker, Output, Panic, F: Fn(
        State,
        Waker,
    ) -> (State, GeneratorOutput<Option<Output>, Panic>), Hook: Fn()>(
        &mut self,
        async_wormhole: AsyncWormhole<State, Waker, Output, Panic, OneMbStack, F, Hook>,
    )
        requires
            old(self).wf(),
            async_wormhole.stack_view() is Some,
        ensures
            final(self).wf(),
            final(self).capacity_view() == old(self).capacity_view(),
            old(self).contents_view().len() < old(self).capacity_view() ==> final(self).contents_view() == old(self).contents_view().push(
                async_wormhole.stack_view().unwrap().top_addr() as usize,
            ),
            old(self).contents_view().len() >= old(self).capacity_view() ==> final(self).contents_view() == old(self).contents_view(),
    {
        let base = async_wormhole.stack().into_base();
        // If the push is refused the pool is full and the stack is dropped.
        let _ = queue_push(&mut self.pool, base);
    }
}

/// Reuse law: a stack recycled into a pool with free room is the next one
/// acquired — with no other stacks pooled, acquiring right after recycling
/// hands back the very same region.
pub proof fn lemma_recycle_reuses_stack(before: Seq<usize>, after: Seq<usize>, base: usize)
    requires
        before.len() == 0,
        after == before.push(base),
    ensures
        after.len() == 1,
        after[0] == base,
{
}

} // verus!
