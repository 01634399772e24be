use ferret8::emulator::stack::error::StackError;
use ferret8::emulator::stack::{Stack, STACK_SIZE};

#[test]
fn test_push() {
    let mut stack = Stack::new();
    for n in 0..STACK_SIZE {
        assert_eq!(stack.push(n), Ok(()));
    }
    assert_eq!(stack.push(0), Err(StackError::Overflow));
}

#[test]
fn test_pop() {
    let mut stack = Stack::new();
    for n in 0..STACK_SIZE {
        stack.push(n).unwrap();
    }
    for n in (0..STACK_SIZE).rev() {
        assert_eq!(stack.pop(), Ok(n));
    }
    assert_eq!(stack.pop(), Err(StackError::Underflow));
}

#[test]
fn test_pop_on_new_stack() {
    let mut stack = Stack::new();
    assert_eq!(stack.len(), 0);
    assert_eq!(stack.pop(), Err(StackError::Underflow));
    assert_eq!(stack.len(), 0);
}

#[test]
fn test_pop_undoes_push() {
    let mut stack = Stack::new();
    stack.push(0x200).unwrap();
    stack.push(0x3AC).unwrap();
    assert_eq!(stack.len(), 2);
    assert_eq!(stack.pop(), Ok(0x3AC));
    assert_eq!(stack.len(), 1);
    stack.push(0x7).unwrap();
    assert_eq!(stack.pop(), Ok(0x7));
    assert_eq!(stack.pop(), Ok(0x200));
    assert_eq!(stack.pop(), Err(StackError::Underflow));
}

#[test]
fn test_overflow_keeps_entries() {
    let mut stack = Stack::default();
    for n in 0..STACK_SIZE {
        stack.push(n + 100).unwrap();
    }
    assert_eq!(stack.push(999), Err(StackError::Overflow));
    assert_eq!(stack.len(), STACK_SIZE);
    assert_eq!(stack.pop(), Ok(115));
}
