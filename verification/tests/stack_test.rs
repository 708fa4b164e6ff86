use async_wormhole::stack::{EightMbStack, OneMbStack, Stack, EIGHT_MB, ONE_MB};
use async_wormhole::AllocError;

#[test]
fn create_8_mb_stack() -> Result<(), AllocError> {
    EightMbStack::new()?;
    Ok(())
}

#[test]
fn create_300k_8_mb_stacks() {
    let mut stacks = vec![];
    for _i in 0..300_000 {
        let stack = EightMbStack::new();
        assert!(stack.is_ok());
        stacks.push(stack);
    }
}

#[test]
fn stack_test_create_8_mb_stack() -> Result<(), AllocError> {
    EightMbStack::new()?;
    Ok(())
}

#[test]
fn create_6_tb_of_stacks() {
    let mut stacks = vec![];
    for _i in 0..(800_000) {
        let stack = EightMbStack::new();
        assert!(stack.is_ok());
        stacks.push(stack.unwrap());
    }
}

#[test]
fn eight_mb_layout() {
    let stack = EightMbStack::new().unwrap();
    assert_eq!(stack.deallocation(), stack.top());
    assert_eq!(stack.bottom() - stack.top(), EIGHT_MB);
    assert_eq!(stack.top() % 4096, 0);
}

#[test]
fn one_mb_layout() {
    let stack = OneMbStack::new().unwrap();
    assert_eq!(stack.deallocation(), stack.top());
    assert_eq!(stack.bottom() - stack.top(), ONE_MB);
    assert_eq!(ONE_MB, 1024 * 1024 + 4096);
}

#[test]
fn from_base_checks_layout() {
    // A page-aligned base is accepted and reproduced exactly.
    let stack = OneMbStack::from_base(4096 * 3).unwrap();
    assert_eq!(stack.top(), 4096 * 3);
    assert_eq!(stack.bottom(), 4096 * 3 + ONE_MB);
    // Unaligned, null, and overflowing bases are rejected.
    assert!(OneMbStack::from_base(12345).is_none());
    assert!(OneMbStack::from_base(0).is_none());
    assert!(OneMbStack::from_base(usize::MAX - 4095).is_none());
    assert!(EightMbStack::from_base(12345).is_none());
}

#[test]
fn page_size_is_4096() {
    assert_eq!(async_wormhole::page::page_size(), 4096);
}
