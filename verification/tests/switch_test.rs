use async_wormhole::generator::{
    Generator, GeneratorOutput, ResumeEvent, ResumeResult, Yielder,
};
use async_wormhole::stack::{EightMbStack, Stack};

/// The add-one coroutine: suspends with `input + 1` until the input is 0.
fn add_one_step(s: (), input: i32) -> ((), GeneratorOutput<i32, &'static str>) {
    if input == 0 {
        (s, GeneratorOutput::Finished)
    } else {
        (s, GeneratorOutput::Value(input + 1))
    }
}

#[test]
fn switch_stack() {
    let stack = EightMbStack::new().unwrap();
    let mut add_one = Generator::new(stack, add_one_step, ());
    assert!(matches!(add_one.resume(2), ResumeResult::Yielded(3)));
    assert!(matches!(add_one.resume(127), ResumeResult::Yielded(128)));
    assert!(matches!(add_one.resume(-1), ResumeResult::Yielded(0)));
    assert!(matches!(add_one.resume(0), ResumeResult::Finished));
    assert!(matches!(add_one.resume(0), ResumeResult::Finished));
}

#[test]
#[should_panic]
fn panic_on_different_stack() {
    let stack = EightMbStack::new().unwrap();
    let mut add_one: Generator<(), i32, u32, &'static str, _, _> =
        Generator::new(stack, |s: (), _input: i32| (s, GeneratorOutput::Panic("Ups")), ());
    // The panic payload crosses the switch by value; the resumer re-raises
    // it on its own stack.
    match add_one.resume(0) {
        ResumeResult::Panicked(payload) => panic!("{}", payload),
        _ => unreachable!(),
    }
}

#[test]
fn generator_lifecycle() {
    let stack = EightMbStack::new().unwrap();
    let mut add_one = Generator::new(stack, add_one_step, ());
    assert!(!add_one.started());
    assert!(!add_one.finished());
    assert!(!add_one.needs_unwind());
    add_one.resume(4);
    assert!(add_one.started());
    assert!(!add_one.finished());
    // Started but not finished: dropping now must deliver the unwind event.
    assert!(add_one.needs_unwind());
    add_one.resume(0);
    assert!(add_one.started());
    assert!(add_one.finished());
    assert!(!add_one.needs_unwind());
}

#[test]
fn panic_payload_is_delivered_exactly_once() {
    let stack = EightMbStack::new().unwrap();
    let mut g: Generator<(), i32, u32, &'static str, _, _> =
        Generator::new(stack, |s: (), _input: i32| (s, GeneratorOutput::Panic("Ups")), ());
    assert!(matches!(g.resume(0), ResumeResult::Panicked("Ups")));
    assert!(g.finished());
    // The generator is terminal: the payload is never delivered again.
    assert!(matches!(g.resume(0), ResumeResult::Finished));
    assert!(matches!(g.resume(0), ResumeResult::Finished));
}

#[test]
fn stack_is_returned_intact() {
    let stack = EightMbStack::new().unwrap();
    let top = stack.top();
    let mut g = Generator::new(stack, add_one_step, ());
    g.resume(1);
    let back = g.stack().unwrap();
    assert_eq!(back.top(), top);
}

#[test]
fn yielder_round_trip() {
    // One resume/suspend pair: the host delivers 2, the coroutine answers 3.
    let mut y: Yielder<i32, i32, &'static str> = Yielder::new();
    y.deliver(ResumeEvent::Input(2));
    let got = y.suspend(3);
    assert_eq!(got, Ok(2));
    assert!(matches!(y.collect(), GeneratorOutput::Value(3)));
}

#[test]
fn yielder_exchange() {
    let mut y: Yielder<i32, i32, &'static str> = Yielder::new();
    let (reported, received) = async_wormhole::generator::exchange(&mut y, 2, 3);
    assert!(matches!(reported, GeneratorOutput::Value(3)));
    assert_eq!(received, Ok(2));
}

#[test]
fn unwind_event_interrupts_the_coroutine() {
    // The drop routine's event comes back as the directive to unwind, upon
    // which the coroutine panics on its own stack instead of continuing.
    let mut y: Yielder<i32, i32, &'static str> = Yielder::new();
    y.deliver(ResumeEvent::Unwind);
    let got = y.suspend(3);
    assert!(got.is_err());
    // The value posted on the way out still crosses, to be discarded there.
    assert!(matches!(y.collect(), GeneratorOutput::Value(3)));
    // The boundary catch reports the unwind as a terminal output.
    y.post_terminal(GeneratorOutput::Finished);
    assert!(matches!(y.collect(), GeneratorOutput::Finished));
}
