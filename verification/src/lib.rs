//! Stackful coroutines bridged to a cooperatively scheduled asynchronous
//! runtime.
//!
//! The crate verifies the logic of such a bridge: the layout arithmetic of
//! the guarded stack allocators, the started/finished protocol of a
//! resumable generator, the one-slot value handoff of a `resume`/`suspend`
//! pair, the transport of panics by value, the poll/wake adapter around a
//! generator, and a bounded pool of reusable stacks.
//!
//! Machine addresses are represented as plain integers throughout: a stack
//! value records the layout of the region it denotes, and every claim about
//! ordering, alignment and growth of that region is proved. The operations
//! that Verus cannot express — the memory-mapping system calls and the
//! assembly context switch that realise these layouts at run time — live
//! with the unverified embedding around this library.

use vstd::prelude::*;

pub mod generator;
pub mod page;
pub mod pool;
pub mod pre_allocated_stack;
pub mod stack;
pub mod transfer;

use generator::Generator;
use generator::GeneratorOutput;
use generator::ResumeResult;
use stack::Stack;

verus! {

/// Failure to reserve a stack: either the OS refused the mapping (`errno`
/// carries its report) or the requested layout does not fit in the address
/// space (`errno` is 0).
#[derive(Clone, Copy, Debug, PartialEq, Eq, Structural)]
pub struct AllocError {
    pub errno: i32,
}

/// What one poll of an [`AsyncWormhole`] reports to the host executor.
pub enum PollOutcome<Output, Panic> {
    /// The coroutine ran to completion with this value.
    Ready(Output),
    /// The coroutine suspended on a not-yet-ready awaitable (or was already
    /// complete): the executor must poll again when woken.
    Pending,
    /// The coroutine panicked; the host must re-raise the payload on its own
    /// stack, exactly once.
    Panicked(Panic),
}

/// An awaitable whose behaviour is fixed in advance: it reports "pending"
/// `pending_polls` times and then resolves to `value`. It stands for the
/// future a coroutine suspends on.
pub struct ScriptedFuture<R> {
    pending_polls: u64,
    value: R,
}

impl<R> ScriptedFuture<R> {
    /// How many more polls report "pending" before the value is ready.
    pub closed spec fn pending_view(&self) -> u64 {
        self.pending_polls
    }

    /// The value the future resolves to.
    pub closed spec fn value_view(&self) -> R {
        self.value
    }

    /// A future that is pending `pending_polls` times and then yields
    /// `value`.
    pub fn new(pending_polls: u64, value: R) -> (f: Self)
        ensures
            f.pending_view() == pending_polls,
            f.value_view() == value,
    {
        ScriptedFuture { pending_polls, value }
    }
}

impl<R: Copy> ScriptedFuture<R> {
    /// One poll: counts a pending down, or reports the value once none are
    /// left. The value never changes along the way.
    pub fn poll(&mut self) -> (r: Option<R>)
        ensures
            old(self).pending_view() > 0 ==> r is None && final(self).pending_view() == old(
                self,
            ).pending_view() - 1 && final(self).value_view() == old(self).value_view(),
            old(self).pending_view() == 0 ==> r == Some(old(self).value_view()) && *final(self)
                == *old(self),
    {
        if self.pending_polls > 0 {
            self.pending_polls = self.pending_polls - 1;
            None
        } else {
            Some(self.value)
        }
    }
}

/// The coroutine-side handle for awaiting futures from non-async code: it
/// holds the waker token the latest `resume` brought, with which the
/// coroutine polls whatever it suspends on.
pub struct AsyncYielder<Waker> {
    waker: Waker,
}

impl<Waker> AsyncYielder<Waker> {
    /// The waker token the coroutine currently polls with.
    pub closed spec fn waker_view(&self) -> Waker {
        self.waker
    }

    /// A handle polling with `waker`.
    pub fn new(waker: Waker) -> (y: Self)
        ensures
            y.waker_view() == waker,
    {
        AsyncYielder { waker }
    }

    /// Each resume that follows a suspension carries a fresh waker token;
    /// the coroutine re-polls with it.
    pub fn set_waker(&mut self, waker: Waker)
        ensures
            final(self).waker_view() == waker,
    {
        self.waker = waker;
    }

    /// Awaits `fut`: polls it, suspending on every "pending", until it
    /// resolves. The result is exactly the future's value, reached after
    /// exactly as many suspensions as the future has pending polls.
    pub fn async_suspend<R: Copy>(&mut self, fut: ScriptedFuture<R>) -> (r: (R, u64))
        ensures
            r.0 == fut.value_view(),
            r.1 == fut.pending_view(),
    {
        let mut remaining = fut;
        let mut suspensions: u64 = 0;
        loop
            invariant
                remaining.value_view() == fut.value_view(),
                suspensions + remaining.pending_view() == fut.pending_view(),
            decreases remaining.pending_view(),
        {
            match remaining.poll() {
                Some(v) => {
                    return (v, suspensions);
                },
                None => {
                    suspensions = suspensions + 1;
                },
            }
        }
    }
}

/// One activation of a coroutine that awaits one scripted future and then
/// returns its value: while the future is pending the coroutine suspends
/// with no value; once it is ready, the coroutine suspends with its result.
/// This is the step function an [`AsyncWormhole`] drives.
pub fn bridge_step<R: Copy, Waker, Panic>(state: ScriptedFuture<R>, _waker: Waker) -> (r: (
    ScriptedFuture<R>,
    GeneratorOutput<Option<R>, Panic>,
))
    ensures
        state.pending_view() > 0 ==> r.0.pending_view() == state.pending_view() - 1
            && r.0.value_view() == state.value_view() && r.1 == GeneratorOutput::<
            Option<R>,
            Panic,
        >::Value(None),
        state.pending_view() == 0 ==> r.0 == state && r.1 == GeneratorOutput::<
            Option<R>,
            Panic,
        >::Value(Some(state.value_view())),
{
    let mut fut = state;
    match fut.poll() {
        None => (fut, GeneratorOutput::Value(None)),
        Some(v) => (fut, GeneratorOutput::Value(Some(v))),
    }
}

/// The observable state of a wormhole driving [`bridge_step`] moves one step
/// down this transition per poll (see the ensures of [`AsyncWormhole::poll`]
/// and [`bridge_step`]): the pending count of the awaited future counts
/// down, and reaching zero completes and latches the wormhole.
pub open spec fn bridge_poll_transition(pending: int, done: bool) -> (int, bool) {
    if done {
        (pending, true)
    } else if pending > 0 {
        (pending - 1, false)
    } else {
        (pending, true)
    }
}

/// True when a poll that sees this state reports `Ready`.
pub open spec fn bridge_poll_completes(pending: int, done: bool) -> bool {
    !done && pending <= 0
}

/// The observable state of a wormhole driving [`bridge_step`] after `n`
/// polls, starting with a future that is pending `pending` times.
pub open spec fn bridge_state_after(pending: int, n: nat) -> (int, bool)
    decreases n,
{
    if n == 0 {
        (pending, false)
    } else {
        let prev = bridge_state_after(pending, (n - 1) as nat);
        bridge_poll_transition(prev.0, prev.1)
    }
}

proof fn lemma_bridge_counts_down(pending: int, n: nat)
    requires
        n <= pending,
    ensures
        bridge_state_after(pending, n) == (pending - n, false),
    decreases n,
{
    if n > 0 {
        lemma_bridge_counts_down(pending, (n - 1) as nat);
    }
}

proof fn lemma_bridge_latches(pending: nat, n: nat)
    requires
        n > pending,
    ensures
        bridge_state_after(pending as int, n) == (0int, true),
    decreases n,
{
    if n == pending + 1 {
        lemma_bridge_counts_down(pending as int, pending);
    } else {
        lemma_bridge_latches(pending, (n - 1) as nat);
    }
}

/// Nested-await law: a coroutine awaiting a future that is pending `k` times
/// completes at poll `k + 1` exactly — the first `k` polls stay pending, the
/// poll after them reports the value, and every later poll finds the
/// wormhole latched and stays pending.
pub proof fn lemma_bridge_completes_at_poll_k_plus_one(k: nat, n: nat)
    ensures
        n < k ==> !bridge_poll_completes(
            bridge_state_after(k as int, n).0,
            bridge_state_after(k as int, n).1,
        ),
        bridge_poll_completes(
            bridge_state_after(k as int, k).0,
            bridge_state_after(k as int, k).1,
        ),
        n > k ==> !bridge_poll_completes(
            bridge_state_after(k as int, n).0,
            bridge_state_after(k as int, n).1,
        ),
{
    if n <= k {
        lemma_bridge_counts_down(k as int, n);
    } else {
        lemma_bridge_latches(k, n);
    }
    lemma_bridge_counts_down(k as int, k);
}

/// A future adapter around a [`Generator`] whose input is a waker token and
/// whose output is `Option<Output>`: `None` stands for "the coroutine
/// suspended on a pending awaitable", `Some` carries the closure's result.
///
/// Each poll resumes the generator once with the current waker. Once a value
/// is ready the adapter latches: polling a completed wormhole never resumes
/// the coroutine again and reports `Pending` forever.
///
/// An optional zero-argument hook runs right before each resume and again
/// after a poll that stays pending; between the two calls the executor
/// cannot migrate the task, so the embedding may use them to snapshot and
/// restore per-thread state.
#[verifier::reject_recursive_types(State)]
#[verifier::reject_recursive_types(Waker)]
#[verifier::reject_recursive_types(Output)]
#[verifier::reject_recursive_types(Panic)]
pub struct AsyncWormhole<State, Waker, Output, Panic, St: Stack, F: Fn(
    State,
    Waker,
) -> (State, GeneratorOutput<Option<Output>, Panic>), Hook: Fn()> {
    generator: Generator<State, Waker, Option<Output>, Panic, St, F>,
    pre_post_poll: Option<Hook>,
    done: bool,
}

impl<State, Waker, Output, Panic, St: Stack, F: Fn(
    State,
    Waker,
) -> (State, GeneratorOutput<Option<Output>, Panic>), Hook: Fn()> AsyncWormhole<
    State,
    Waker,
    Output,
    Panic,
    St,
    F,
    Hook,
> {
    /// True once a poll has reported `Ready`: the adapter is latched and
    /// will never resume the coroutine again.
    pub closed spec fn is_done(&self) -> bool {
        self.done
    }

    /// The coroutine's saved activation; `None` once it is terminal.
    pub closed spec fn activation_view(&self) -> Option<State> {
        self.generator.activation_view()
    }

    /// The stack the coroutine runs on.
    pub closed spec fn stack_view(&self) -> Option<St> {
        self.generator.stack_view()
    }

    /// The step function standing for the coroutine's closure.
    pub closed spec fn step_view(&self) -> F {
        self.generator.step_view()
    }

    /// The hook run before each resume and after each pending poll, if set.
    pub closed spec fn hook_view(&self) -> Option<Hook> {
        self.pre_post_poll
    }

    /// Builds the adapter around a parked coroutine on the given stack.
    /// Nothing runs until the first poll. Construction itself cannot fail;
    /// the `Result` mirrors the stack reservation interface.
    pub fn new(stack: St, step: F, initial: State) -> (r: Result<Self, AllocError>)
        ensures
            r is Ok,
            r matches Ok(w) ==> !w.is_done() && w.activation_view() == Some(initial)
                && w.stack_view() == Some(stack) && w.step_view() == step && w.hook_view()
                is None,
    {
        Ok(
            AsyncWormhole {
                generator: Generator::new(stack, step, initial),
                pre_post_poll: None,
                done: false,
            },
        )
    }

    /// Sets the function run right before every resume and again after every
    /// poll that stays pending. Between those two calls the executor cannot
    /// move the task to another thread, so the pair may snapshot and restore
    /// thread-local state across migrations.
    pub fn set_pre_post_poll(&mut self, f: Hook)
        ensures
            final(self).hook_view() == Some(f),
            final(self).is_done() == old(self).is_done(),
            final(self).activation_view() == old(self).activation_view(),
            final(self).stack_view() == old(self).stack_view(),
            final(self).step_view() == old(self).step_view(),
    {
        self.pre_post_poll = Some(f);
    }

    /// Consumes the wormhole and hands back the stack it ran on, so it can
    /// be reused. Every wormhole owns its stack — construction establishes
    /// it and no operation removes it — which is what the precondition
    /// records.
    pub fn stack(self) -> (r: St)
        requires
            self.stack_view() is Some,
        ensures
            Some(r) == self.stack_view(),
    {
        match self.generator.stack() {
            Some(s) => s,
            None => unreached(),
        }
    }

    /// One poll by the host executor, carrying the current waker token.
    ///
    /// The hook (if set) runs first. A completed wormhole reports `Pending`
    /// without touching the coroutine. Otherwise the coroutine is resumed
    /// exactly once: a suspension with no value means the coroutine waits on
    /// a pending awaitable, so the hook runs again and the poll reports
    /// `Pending`; a suspension with a value completes the wormhole; a panic
    /// payload is handed to the host to re-raise.
    pub fn poll(&mut self, waker: Waker) -> (r: PollOutcome<Output, Panic>)
        requires
            old(self).hook_view() matches Some(h) ==> call_requires(h, ()),
            old(self).activation_view() matches Some(s) ==> call_requires(
                old(self).step_view(),
                (s, waker),
            ),
        ensures
            final(self).stack_view() == old(self).stack_view(),
            final(self).step_view() == old(self).step_view(),
            final(self).hook_view() == old(self).hook_view(),
            old(self).is_done() ==> r is Pending && *final(self) == *old(self),
            !old(self).is_done() && old(self).activation_view() is None ==> r is Pending
                && *final(self) == *old(self),
            !old(self).is_done() && old(self).activation_view() is Some ==> exists|
                s2: State,
                out: GeneratorOutput<Option<Output>, Panic>,
            |
                {
                    &&& #[trigger] call_ensures(
                        old(self).step_view(),
                        (old(self).activation_view().unwrap(), waker),
                        (s2, out),
                    )
                    &&& match out {
                        GeneratorOutput::Value(Some(v)) => r == PollOutcome::<
                            Output,
                            Panic,
                        >::Ready(v) && final(self).is_done(),
                        GeneratorOutput::Value(None) => r is Pending && !final(self).is_done()
                            && final(self).activation_view() == Some(s2),
                        GeneratorOutput::Finished => r is Pending && !final(self).is_done()
                            && final(self).activation_view() is None,
                        GeneratorOutput::Panic(p) => r == PollOutcome::<Output, Panic>::Panicked(p)
                            && final(self).is_done() && final(self).activation_view() is None,
                    }
                },
    {
        if let Some(h) = &self.pre_post_poll {
            h();
        }
        if self.done {
            if let Some(h) = &self.pre_post_poll {
                h();
            }
            return PollOutcome::Pending;
        }
        match self.generator.resume(waker) {
            ResumeResult::Yielded(Some(out)) => {
                self.done = true;
                PollOutcome::Ready(out)
            },
            ResumeResult::Yielded(None) => {
                if let Some(h) = &self.pre_post_poll {
                    h();
                }
                PollOutcome::Pending
            },
            ResumeResult::Finished => {
                if let Some(h) = &self.pre_post_poll {
                    h();
                }
                PollOutcome::Pending
            },
            ResumeResult::Panicked(p) => {
                self.done = true;
                PollOutcome::Panicked(p)
            },
        }
    }
}

} // verus!
