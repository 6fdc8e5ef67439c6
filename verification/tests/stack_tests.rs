use chip8_core::chip8::memory::MemoryAddress;
use chip8_core::chip8::stack::Stack;

#[test]
fn test_push() {
    let mut stack = Stack::new();
    stack.push(MemoryAddress(0x123));
    assert_eq!(stack.slot(0), MemoryAddress(0x123));
    assert_eq!(stack.pointer(), 1);
}

#[test]
fn test_pop() {
    let mut stack = Stack::new();
    stack.push(MemoryAddress(0x123));
    assert_eq!(stack.pointer(), 1);
    assert_eq!(stack.pop(), MemoryAddress(0x123));
    assert_eq!(stack.pointer(), 0);
}

#[test]
fn stack_starts_empty_and_zeroed() {
    let stack = Stack::new();
    assert_eq!(stack.pointer(), 0);
    for index in 0..16 {
        assert_eq!(stack.slot(index), MemoryAddress(0));
    }
}

#[test]
fn pop_of_an_empty_stack_wraps_to_the_last_slot() {
    let mut stack = Stack::new();
    assert_eq!(stack.pop(), MemoryAddress(0));
    assert_eq!(stack.pointer(), 15);
}

#[test]
fn seventeenth_push_overwrites_the_first() {
    let mut stack = Stack::new();
    for n in 0..16u16 {
        stack.push(MemoryAddress(0x300 + n));
    }
    assert_eq!(stack.pointer(), 0);
    assert_eq!(stack.slot(0), MemoryAddress(0x300));
    stack.push(MemoryAddress(0x400));
    assert_eq!(stack.pointer(), 1);
    assert_eq!(stack.slot(0), MemoryAddress(0x400));
    assert_eq!(stack.pop(), MemoryAddress(0x400));
    assert_eq!(stack.pop(), MemoryAddress(0x30F));
    assert_eq!(stack.pointer(), 15);
}

#[test]
fn push_then_pop_at_every_depth() {
    for depth in 0..16usize {
        let mut stack = Stack::new();
        for n in 0..depth {
            stack.push(MemoryAddress(n as u16));
        }
        stack.push(MemoryAddress(0xABC));
        assert_eq!(stack.pop(), MemoryAddress(0xABC));
        assert_eq!(stack.pointer(), depth);
    }
}
