use async_wormhole::generator::GeneratorOutput;
use async_wormhole::pool::OneMbAsyncPool;
use async_wormhole::stack::{OneMbStack, Stack};
use async_wormhole::AsyncWormhole;

fn step(s: (), _waker: u64) -> ((), GeneratorOutput<Option<i32>, &'static str>) {
    (s, GeneratorOutput::Value(Some(1)))
}

#[test]
fn recycle_reuses_the_same_stack() {
    let mut pool = OneMbAsyncPool::new(4);
    // A wormhole on a stack with a distinctive base address.
    let stack = OneMbStack::from_base(4096 * 77).unwrap();
    let wormhole: AsyncWormhole<(), u64, i32, &'static str, _, _, fn()> =
        AsyncWormhole::new(stack, step, ()).unwrap();
    pool.recycle(wormhole);
    // Acquiring next hands out the very same region.
    let reused: AsyncWormhole<(), u64, i32, &'static str, _, _, fn()> =
        pool.with_tls(step, ()).unwrap();
    assert_eq!(reused.stack().top(), 4096 * 77);
}

#[test]
fn pool_hands_out_oldest_first() {
    let mut pool = OneMbAsyncPool::new(4);
    for base in [4096 * 10, 4096 * 20, 4096 * 30] {
        let stack = OneMbStack::from_base(base).unwrap();
        let w: AsyncWormhole<(), u64, i32, &'static str, _, _, fn()> =
            AsyncWormhole::new(stack, step, ()).unwrap();
        pool.recycle(w);
    }
    let first: AsyncWormhole<(), u64, i32, &'static str, _, _, fn()> =
        pool.with_tls(step, ()).unwrap();
    let second: AsyncWormhole<(), u64, i32, &'static str, _, _, fn()> =
        pool.with_tls(step, ()).unwrap();
    assert_eq!(first.stack().top(), 4096 * 10);
    assert_eq!(second.stack().top(), 4096 * 20);
}

#[test]
fn recycle_over_capacity_drops_the_stack() {
    let mut pool = OneMbAsyncPool::new(1);
    for base in [4096 * 10, 4096 * 20] {
        let stack = OneMbStack::from_base(base).unwrap();
        let w: AsyncWormhole<(), u64, i32, &'static str, _, _, fn()> =
            AsyncWormhole::new(stack, step, ()).unwrap();
        pool.recycle(w);
    }
    // Only the first recycle fit; the second stack was let go.
    let first: AsyncWormhole<(), u64, i32, &'static str, _, _, fn()> =
        pool.with_tls(step, ()).unwrap();
    assert_eq!(first.stack().top(), 4096 * 10);
    // The pool is empty again: the next acquire reserves a fresh stack.
    let fresh: AsyncWormhole<(), u64, i32, &'static str, _, _, fn()> =
        pool.with_tls(step, ()).unwrap();
    let fresh_top = fresh.stack().top();
    assert!(fresh_top != 4096 * 20);
}

#[test]
fn empty_pool_allocates_fresh_stacks() {
    let mut pool = OneMbAsyncPool::new(2);
    let w: AsyncWormhole<(), u64, i32, &'static str, _, _, fn()> =
        pool.with_tls(step, ()).unwrap();
    let stack = w.stack();
    assert_eq!(stack.bottom() - stack.top(), 1024 * 1024 + 4096);
}
