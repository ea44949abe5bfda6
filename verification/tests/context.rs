use trap_core::context::{prepare_task_context, TaskContext, TrapContext};
use trap_core::enhanced::{
    enhanced_breakpoint_handler, enhanced_illegal_instruction_handler,
    enhanced_load_access_fault_handler, enhanced_misaligned_handler, enhanced_unknown_handler,
};
use trap_core::handler::TrapHandlerResult;

#[test]
fn trap_context_starts_zeroed() {
    let ctx = TrapContext::new();
    assert!(ctx.x.iter().all(|r| *r == 0));
    assert_eq!((ctx.sstatus, ctx.sepc, ctx.scause, ctx.stval), (0, 0, 0, 0));
}

#[test]
fn return_address_and_cause() {
    let mut ctx = TrapContext::new();
    ctx.set_return_addr(0x1234);
    assert_eq!(ctx.sepc, 0x1234);
    ctx.scause = 8;
    assert_eq!(ctx.get_cause().bits(), 8);
}

#[test]
fn task_context_accessors() {
    let mut t = TaskContext::new();
    assert_eq!((t.get_ra(), t.get_sp()), (0, 0));
    t.set_ra(0xA);
    t.set_sp(0xB);
    assert_eq!((t.get_ra(), t.get_sp()), (0xA, 0xB));
    let t2 = TaskContext::new_for_task(0x8000_1000, 0x9000_0000);
    assert_eq!(t2.get_ra(), 0x8000_1000);
    assert_eq!(t2.get_sp(), 0x9000_0000);
}

#[test]
fn prepared_context_sets_registers_and_status() {
    let status = (1usize << 8) | (1usize << 1);
    let ctx = prepare_task_context(0x8000_2000, 0x9000_0000, 0x8800_0000, 0, status);
    assert_eq!(ctx.x[1], 0x8000_2000);
    assert_eq!(ctx.x[2], 0x9000_0000);
    assert_eq!(ctx.sepc, 0x8000_2000);
    // The previous-privilege bit is cleared, the previous-interrupt-enable
    // bit set, and unrelated bits survive.
    assert_eq!(ctx.sstatus, (1usize << 1) | (1usize << 5));
}

#[test]
fn enhanced_diagnostics_report_and_halt() {
    let mut ctx = TrapContext::new();
    let (r, fx) = enhanced_illegal_instruction_handler(&mut ctx);
    assert_eq!(r, TrapHandlerResult::Handled);
    assert!(fx.halt);
    let (r, fx) = enhanced_unknown_handler(&mut ctx);
    assert_eq!(r, TrapHandlerResult::Handled);
    assert!(fx.halt);
    // The load-access diagnosis passes on an unrelated cause.
    ctx.scause = 8;
    let (r, fx) = enhanced_load_access_fault_handler(&mut ctx);
    assert_eq!(r, TrapHandlerResult::Pass);
    assert!(!fx.halt);
    // The misaligned diagnosis claims a store-misaligned cause.
    ctx.scause = 6;
    let (r, fx) = enhanced_misaligned_handler(&mut ctx);
    assert_eq!(r, TrapHandlerResult::Handled);
    assert!(fx.halt);
}

#[test]
fn enhanced_breakpoint_advances_and_continues() {
    let mut ctx = TrapContext::new();
    ctx.sepc = 0x500;
    let (r, fx) = enhanced_breakpoint_handler(&mut ctx);
    assert_eq!(r, TrapHandlerResult::Handled);
    assert!(!fx.halt);
    assert_eq!(ctx.sepc, 0x504);
}
