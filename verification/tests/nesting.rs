use trap_core::nesting::{
    ContextError, ContextManager, ContextType, DEFAULT_MAX_NEST_LEVEL, INTERRUPT_STACK_SIZE,
    TASK_CONTEXT_BYTES, TRAP_CONTEXT_BYTES,
};

#[test]
fn nesting_round_trip() {
    // A save followed immediately by a restore returns the counter to its
    // pre-call value.
    let mut cm = ContextManager::new();
    assert_eq!(cm.get_nest_level(), 0);
    let level = cm.save_context_for_interrupt().expect("first save");
    assert_eq!(level, 1);
    assert_eq!(cm.get_nest_level(), 1);
    assert!(cm.is_in_interrupt_context());
    cm.restore_context_from_interrupt().expect("matching restore");
    assert_eq!(cm.get_nest_level(), 0);
    assert!(!cm.is_in_interrupt_context());
}

#[test]
fn restore_without_save_underflows() {
    let mut cm = ContextManager::new();
    match cm.restore_context_from_interrupt() {
        Err(ContextError::StackUnderflow) => {}
        other => panic!("expected StackUnderflow, got {:?}", other.map(|_| ())),
    }
    assert_eq!(cm.get_nest_level(), 0);
}

#[test]
fn nesting_unwinds_in_lifo_order() {
    let mut cm = ContextManager::new();
    for expected in 1..=4usize {
        assert_eq!(cm.save_context_for_interrupt().expect("save"), expected);
    }
    for expected in (0..4usize).rev() {
        cm.restore_context_from_interrupt().expect("restore");
        assert_eq!(cm.get_nest_level(), expected);
    }
}

#[test]
fn overflow_at_max_nest_level() {
    let mut cm = ContextManager::new();
    for _ in 0..DEFAULT_MAX_NEST_LEVEL {
        cm.save_context_for_interrupt().expect("within the limit");
    }
    match cm.save_context_for_interrupt() {
        Err(ContextError::StackOverflow) => {}
        other => panic!("expected StackOverflow, got {:?}", other),
    }
    assert_eq!(cm.get_nest_level(), DEFAULT_MAX_NEST_LEVEL);
}

#[test]
fn raising_the_limit_allows_deeper_nesting() {
    let mut cm = ContextManager::new();
    cm.set_max_nest_level(2);
    assert!(cm.save_context_for_interrupt().is_ok());
    assert!(cm.save_context_for_interrupt().is_ok());
    assert!(cm.save_context_for_interrupt().is_err());
    cm.set_max_nest_level(3);
    assert!(cm.save_context_for_interrupt().is_ok());
}

#[test]
fn stack_usage_and_context_sizes() {
    let mut cm = ContextManager::new();
    assert_eq!(cm.get_interrupt_stack_usage(), (0, INTERRUPT_STACK_SIZE));
    cm.save_context_for_interrupt().expect("save");
    assert_eq!(cm.get_interrupt_stack_usage(), (TRAP_CONTEXT_BYTES, INTERRUPT_STACK_SIZE));
    assert_eq!(cm.get_context_size(ContextType::Trap), TRAP_CONTEXT_BYTES);
    assert_eq!(cm.get_context_size(ContextType::Task), TASK_CONTEXT_BYTES);
}

#[test]
fn task_context_construction() {
    let cm = ContextManager::new();
    // Current status has the previous-privilege bit set and the
    // previous-interrupt-enable bit clear; the task context must clear the
    // former and set the latter.
    let current_status = 1usize << 8;
    let ctx = cm.create_task_context(0x8020_0000, 0x9000_0000, 0x8800_0000, 0, current_status);
    assert_eq!(ctx.sepc, 0x8020_0000);
    assert_eq!(ctx.x[1], 0x8020_0000);
    assert_eq!(ctx.x[2], 0x9000_0000);
    assert_eq!(ctx.sstatus, 1usize << 5);
    assert_eq!(ctx.scause, 0);
    assert_eq!(ctx.stval, 0);
}
