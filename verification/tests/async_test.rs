use std::cell::Cell;
use std::rc::Rc;

use async_wormhole::generator::GeneratorOutput;
use async_wormhole::stack::{EightMbStack, Stack};
use async_wormhole::{
    bridge_step, AsyncWormhole, AsyncYielder, PollOutcome, ScriptedFuture,
};

#[test]
fn async_yield() {
    let stack = EightMbStack::new().unwrap();
    let task: AsyncWormhole<(), u64, i32, &'static str, _, _, fn()> = AsyncWormhole::new(
        stack,
        |s: (), waker: u64| {
            let mut yielder = AsyncYielder::new(waker);
            let (x, _) = yielder.async_suspend(ScriptedFuture::new(0, 5));
            assert_eq!(x, 5);
            let (y, _) = yielder.async_suspend(ScriptedFuture::new(0, true));
            assert_eq!(y, true);
            (s, GeneratorOutput::Value(Some(42)))
        },
        (),
    )
    .unwrap();
    let mut task = task;
    let output = task.poll(0);
    assert!(matches!(output, PollOutcome::Ready(42)));
}

#[test]
#[should_panic]
fn async_yield_panics() {
    let stack = EightMbStack::new().unwrap();
    let task: AsyncWormhole<(), u64, i32, &'static str, _, _, fn()> = AsyncWormhole::new(
        stack,
        |s: (), waker: u64| {
            let mut yielder = AsyncYielder::new(waker);
            let (x, _) = yielder.async_suspend(ScriptedFuture::new(0, 5));
            assert_eq!(x, 5);
            let (y, _) = yielder.async_suspend(ScriptedFuture::new(0, true));
            assert_eq!(y, true);
            (s, GeneratorOutput::Panic("panicked"))
        },
        (),
    )
    .unwrap();
    let mut task = task;
    match task.poll(0) {
        PollOutcome::Panicked(payload) => panic!("{}", payload),
        _ => unreachable!(),
    }
}

#[test]
fn async_yield_drop_without_poll() {
    let stack = EightMbStack::new().unwrap();
    let task: AsyncWormhole<(), u64, i32, &'static str, _, _, fn()> = AsyncWormhole::new(
        stack,
        |s: (), _waker: u64| (s, GeneratorOutput::Value(Some(42))),
        (),
    )
    .unwrap();
    drop(task);
}

#[test]
fn async_yield_drop_with_one_poll() {
    // The coroutine suspends on a never-ready awaitable; one poll stays
    // pending, then the wormhole is dropped mid-flight.
    let stack = EightMbStack::new().unwrap();
    let task: AsyncWormhole<ScriptedFuture<i32>, u64, i32, &'static str, _, _, fn()> =
        AsyncWormhole::new(
            stack,
            bridge_step::<i32, u64, &'static str>,
            ScriptedFuture::new(u64::MAX, 0),
        )
        .unwrap();
    let mut task = task;
    assert!(matches!(task.poll(0), PollOutcome::Pending));
    drop(task);
}

#[test]
fn bridge_completes_after_k_plus_one_polls() {
    // A future pending 3 times: polls 1..=3 stay pending, poll 4 is ready.
    let stack = EightMbStack::new().unwrap();
    let task: AsyncWormhole<ScriptedFuture<i32>, u64, i32, &'static str, _, _, fn()> =
        AsyncWormhole::new(stack, bridge_step::<i32, u64, &'static str>, ScriptedFuture::new(3, 7))
            .unwrap();
    let mut task = task;
    let mut polls: u32 = 0;
    loop {
        polls += 1;
        match task.poll(polls as u64) {
            PollOutcome::Pending => assert!(polls <= 3),
            PollOutcome::Ready(v) => {
                assert_eq!(v, 7);
                break;
            },
            PollOutcome::Panicked(_) => unreachable!(),
        }
    }
    assert_eq!(polls, 4);
}

#[test]
fn async_suspend_counts_pendings() {
    let mut yielder = AsyncYielder::new(0u64);
    let (value, suspensions) = yielder.async_suspend(ScriptedFuture::new(5, 99));
    assert_eq!(value, 99);
    assert_eq!(suspensions, 5);
    let (value, suspensions) = yielder.async_suspend(ScriptedFuture::new(0, -1));
    assert_eq!(value, -1);
    assert_eq!(suspensions, 0);
}

#[test]
fn completed_wormhole_stays_pending() {
    let stack = EightMbStack::new().unwrap();
    let task: AsyncWormhole<ScriptedFuture<i32>, u64, i32, &'static str, _, _, fn()> =
        AsyncWormhole::new(stack, bridge_step::<i32, u64, &'static str>, ScriptedFuture::new(0, 9))
            .unwrap();
    let mut task = task;
    assert!(matches!(task.poll(0), PollOutcome::Ready(9)));
    // Polling a completed wormhole returns no new value, ever.
    assert!(matches!(task.poll(1), PollOutcome::Pending));
    assert!(matches!(task.poll(2), PollOutcome::Pending));
}

#[test]
fn pre_post_poll_hook_runs_around_each_poll() {
    let stack = EightMbStack::new().unwrap();
    let calls = Rc::new(Cell::new(0u32));
    let counter = calls.clone();
    let task = AsyncWormhole::new(
        stack,
        bridge_step::<i32, u64, &'static str>,
        ScriptedFuture::new(1, 7),
    )
    .unwrap();
    let mut task = task;
    task.set_pre_post_poll(move || counter.set(counter.get() + 1));
    // A pending poll runs the hook before the resume and again after.
    assert!(matches!(task.poll(0), PollOutcome::Pending));
    assert_eq!(calls.get(), 2);
    // A completing poll runs it only before the resume.
    assert!(matches!(task.poll(1), PollOutcome::Ready(7)));
    assert_eq!(calls.get(), 3);
}

#[test]
fn stack_comes_back_from_the_wormhole() {
    let stack = EightMbStack::new().unwrap();
    let top = stack.top();
    let task: AsyncWormhole<(), u64, i32, &'static str, _, _, fn()> = AsyncWormhole::new(
        stack,
        |s: (), _waker: u64| (s, GeneratorOutput::Value(Some(1))),
        (),
    )
    .unwrap();
    assert_eq!(task.stack().top(), top);
}
