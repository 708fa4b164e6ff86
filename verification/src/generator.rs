//! A typed, resumable coroutine over a stack.
//!
//! The coroutine's suspended activation is a value: the generator holds the
//! activation state of type `State` together with a step function that
//! stands for running the coroutine from one suspension point to the next.
//! Resuming applies the step function to the saved state and the input, and
//! the step reports how the activation ended: suspended with a value,
//! finished, or unwound with a panic payload that was caught at the
//! coroutine boundary. A panic is always transported *by value* and handed
//! to the resumer, which must re-raise it on its own stack — no unwind ever
//! crosses a switch.
//!
//! [`Yielder`] is the coroutine-side counterpart: the handle through which
//! an activation posts its output and receives the next event, built on the
//! one-slot handoff of [`TransferCell`].

use core::marker::PhantomData;

use vstd::prelude::*;

use crate::stack::Stack;
use crate::transfer::TransferCell;

verus! {

/// What a coroutine activation reports across the switch.
pub enum GeneratorOutput<Output, Panic> {
    /// The coroutine suspended with a value; it can be resumed again.
    Value(Output),
    /// The coroutine's closure returned: the generator is terminal.
    Finished,
    /// The coroutine's closure unwound; the payload was caught at the
    /// boundary and crosses the switch by value: the generator is terminal.
    Panic(Panic),
}

/// What `resume` reports to the host.
pub enum ResumeResult<Output, Panic> {
    /// The coroutine suspended with this value.
    Yielded(Output),
    /// The coroutine has finished, in this activation or an earlier one:
    /// there are no more values.
    Finished,
    /// The coroutine panicked; the caller owns the payload and must re-raise
    /// it on its own stack, exactly once.
    Panicked(Panic),
}

/// A resumable coroutine: a stack, a saved activation, and a step function
/// standing for the coroutine's run from one suspension point to the next.
#[verifier::reject_recursive_types(State)]
#[verifier::reject_recursive_types(Input)]
#[verifier::reject_recursive_types(Output)]
#[verifier::reject_recursive_types(Panic)]
pub struct Generator<State, Input, Output, Panic, St: Stack, F: Fn(
    State,
    Input,
) -> (State, GeneratorOutput<Output, Panic>)> {
    started: bool,
    stack: Option<St>,
    activation: Option<State>,
    step: F,
    phantom: PhantomData<(Input, Output, Panic)>,
}

impl<State, Input, Output, Panic, St: Stack, F: Fn(
    State,
    Input,
) -> (State, GeneratorOutput<Output, Panic>)> Generator<State, Input, Output, Panic, St, F> {
    /// True once the first `resume` has run.
    pub closed spec fn has_started(&self) -> bool {
        self.started
    }

    /// The saved activation; `None` once the coroutine is terminal.
    pub closed spec fn activation_view(&self) -> Option<State> {
        self.activation
    }

    /// True when the coroutine is terminal: it finished or panicked.
    pub open spec fn is_finished(&self) -> bool {
        self.activation_view() is None
    }

    /// The stack the coroutine runs on, until extracted.
    pub closed spec fn stack_view(&self) -> Option<St> {
        self.stack
    }

    /// The step function standing for the coroutine's closure.
    pub closed spec fn step_view(&self) -> F {
        self.step
    }

    /// Creates a generator parked before its first activation: nothing runs
    /// until the first `resume`.
    pub fn new(stack: St, step: F, initial: State) -> (g: Self)
        ensures
            !g.has_started(),
            !g.is_finished(),
            g.activation_view() == Some(initial),
            g.stack_view() == Some(stack),
            g.step_view() == step,
    {
        Generator {
            started: false,
            stack: Some(stack),
            activation: Some(initial),
            step,
            phantom: PhantomData,
        }
    }

    /// Resumes the coroutine with `input`.
    ///
    /// A terminal generator reports `Finished` without stepping, and stays
    /// as it is. Otherwise the saved activation consumes `input` — each
    /// input enters exactly one activation — and the result carries exactly
    /// what the activation reported: its suspended value, its end, or the
    /// panic payload the caller must re-raise.
    pub fn resume(&mut self, input: Input) -> (r: ResumeResult<Output, Panic>)
        requires
            old(self).activation_view() matches Some(s) ==> call_requires(
                old(self).step_view(),
                (s, input),
            ),
        ensures
            final(self).stack_view() == old(self).stack_view(),
            final(self).step_view() == old(self).step_view(),
            old(self).is_finished() ==> r is Finished && *final(self) == *old(self),
            !old(self).is_finished() ==> final(self).has_started(),
            !old(self).is_finished() ==> exists|s2: State, out: GeneratorOutput<Output, Panic>|
                {
                    &&& #[trigger] call_ensures(
                        old(self).step_view(),
                        (old(self).activation_view().unwrap(), input),
                        (s2, out),
                    )
                    &&& match out {
                        GeneratorOutput::Value(v) => r == ResumeResult::<Output, Panic>::Yielded(v)
                            && final(self).activation_view() == Some(s2),
                        GeneratorOutput::Finished => r is Finished && final(self).is_finished(),
                        GeneratorOutput::Panic(p) => r == ResumeResult::<Output, Panic>::Panicked(p)
                            && final(self).is_finished(),
                    }
                },
    {
        if self.activation.is_none() {
            return ResumeResult::Finished;
        }
        self.started = true;
        let mut parked: Option<State> = None;
        core::mem::swap(&mut parked, &mut self.activation);
        let state = match parked {
            Some(s) => s,
            None => unreached(),
        };
        let (next, out) = (self.step)(state, input);
        match out {
            GeneratorOutput::Value(v) => {
                self.activation = Some(next);
                ResumeResult::Yielded(v)
            },
            GeneratorOutput::Finished => ResumeResult::Finished,
            GeneratorOutput::Panic(p) => ResumeResult::Panicked(p),
        }
    }

    /// True if the first `resume` has run.
    pub fn started(&self) -> (r: bool)
        ensures
            r == self.has_started(),
    {
        self.started
    }

    /// True if the coroutine is terminal: it finished or panicked.
    pub fn finished(&self) -> (r: bool)
        ensures
            r == self.is_finished(),
    {
        self.activation.is_none()
    }

    /// Consumes the generator and hands back its stack.
    pub fn stack(self) -> (r: Option<St>)
        ensures
            r == self.stack_view(),
    {
        self.stack
    }

    /// The drop protocol's decision: the routine that discards a generator
    /// must deliver the unwind event (see [`ResumeEvent::Unwind`]) into the
    /// coroutine exactly when this holds, so that an in-flight activation
    /// unwinds on its own stack and every object it owns is destroyed there.
    pub fn needs_unwind(&self) -> (r: bool)
        ensures
            r == (self.has_started() && !self.is_finished()),
    {
        self.started && self.activation.is_some()
    }
}

/// The event a `resume` delivers into the coroutine: the next input, or the
/// directive to unwind that the drop routine sends (the zero data pointer of
/// the switch protocol).
pub enum ResumeEvent<Input> {
    /// The input passed to `resume`.
    Input(Input),
    /// The generator is being discarded: the coroutine must unwind on its
    /// own stack instead of continuing.
    Unwind,
}

/// The host discarded the generator: the coroutine must unwind instead of
/// continuing with an input.
#[derive(Clone, Copy, Debug, PartialEq, Eq, Structural)]
pub struct UnwindRequested;

/// The coroutine-side handle of the switch protocol.
///
/// Two one-slot cells stand for the two directions of the handoff: the
/// inbox carries what the host's `resume` sends in, the outbox carries what
/// the activation reports back.
pub struct Yielder<Input, Output, Panic> {
    inbox: TransferCell<ResumeEvent<Input>>,
    outbox: TransferCell<GeneratorOutput<Output, Panic>>,
}

impl<Input, Output, Panic> Yielder<Input, Output, Panic> {
    /// The event in flight from the host, if any.
    pub closed spec fn inbox_view(&self) -> Option<ResumeEvent<Input>> {
        self.inbox.contents()
    }

    /// The output in flight to the host, if any.
    pub closed spec fn outbox_view(&self) -> Option<GeneratorOutput<Output, Panic>> {
        self.outbox.contents()
    }

    /// A fresh handle with nothing in flight in either direction.
    pub fn new() -> (y: Self)
        ensures
            y.inbox_view() is None,
            y.outbox_view() is None,
    {
        Yielder { inbox: TransferCell::empty(), outbox: TransferCell::empty() }
    }

    /// Host side: deliver the event of one `resume` — or the drop routine's
    /// unwind directive — into the coroutine.
    pub fn deliver(&mut self, event: ResumeEvent<Input>)
        requires
            old(self).inbox_view() is None,
        ensures
            final(self).inbox_view() == Some(event),
            final(self).outbox_view() == old(self).outbox_view(),
    {
        self.inbox.put(event);
    }

    /// Host side: collect what the coroutine reported, exactly once.
    pub fn collect(&mut self) -> (out: GeneratorOutput<Output, Panic>)
        requires
            old(self).outbox_view() is Some,
        ensures
            Some(out) == old(self).outbox_view(),
            final(self).outbox_view() is None,
            final(self).inbox_view() == old(self).inbox_view(),
    {
        self.outbox.take()
    }

    /// Coroutine side: suspend with `value` and consume the event the
    /// matching `resume` delivered. The next input comes back as `Ok`; the
    /// unwind directive comes back as `Err`, upon which the coroutine
    /// starts panicking on its own stack.
    pub fn suspend(&mut self, value: Output) -> (r: Result<Input, UnwindRequested>)
        requires
            old(self).outbox_view() is None,
            old(self).inbox_view() is Some,
        ensures
            final(self).outbox_view() == Some(GeneratorOutput::<Output, Panic>::Value(value)),
            final(self).inbox_view() is None,
            match old(self).inbox_view().unwrap() {
                ResumeEvent::Input(i) => r == Ok::<Input, UnwindRequested>(i),
                ResumeEvent::Unwind => r == Err::<Input, UnwindRequested>(UnwindRequested),
            },
    {
        self.outbox.put(GeneratorOutput::Value(value));
        match self.inbox.take() {
            ResumeEvent::Input(i) => Ok(i),
            ResumeEvent::Unwind => Err(UnwindRequested),
        }
    }

    /// Coroutine side: post a terminal report — `Finished` after a normal
    /// return of the closure, or `Panic` with the caught payload — without
    /// waiting for another event.
    pub fn post_terminal(&mut self, out: GeneratorOutput<Output, Panic>)
        requires
            old(self).outbox_view() is None,
        ensures
            final(self).outbox_view() == Some(out),
            final(self).inbox_view() == old(self).inbox_view(),
    {
        self.outbox.put(out);
    }
}

/// Ordering law of one `resume`/`suspend` pair: the host delivers `input`,
/// the coroutine suspends with `value`, the host collects. Each of the two
/// values crosses the switch exactly once and unchanged — the coroutine
/// receives exactly `input`, the host exactly `Value(value)` — and both
/// slots are free again afterwards.
pub fn exchange<Input, Output, Panic>(
    y: &mut Yielder<Input, Output, Panic>,
    input: Input,
    value: Output,
) -> (r: (GeneratorOutput<Output, Panic>, Result<Input, UnwindRequested>))
    requires
        old(y).inbox_view() is None,
        old(y).outbox_view() is None,
    ensures
        r.0 == GeneratorOutput::<Output, Panic>::Value(value),
        r.1 == Ok::<Input, UnwindRequested>(input),
        final(y).inbox_view() is None,
        final(y).outbox_view() is None,
{
    y.deliver(ResumeEvent::Input(input));
    let received = y.suspend(value);
    let reported = y.collect();
    (reported, received)
}

} // verus!
