use trap_core::context::TrapContext;
use trap_core::handler::{
    run_trap_handler, HandlerEntry, TrapError, TrapHandler, TrapHandlerResult,
};
use trap_core::registry::{HandlerRegistration, HandlerRegistry};
use trap_core::types::TrapType;

const INTERRUPT_BIT: usize = 1usize << (usize::BITS - 1);

fn entry_of(handler: TrapHandler, priority: u8, description: &str) -> HandlerRegistration {
    HandlerRegistration {
        entry: HandlerEntry::new(handler, priority, description),
        context_id: None,
    }
}

#[test]
fn dispatch_short_circuits_at_first_handled() {
    // H1 (priority 10) passes, H2 (priority 20) handles, H3 (priority 30)
    // would write a marker register; dispatch must run H1 then H2, return
    // Handled, and never run H3.
    let mut r = HandlerRegistry::new();
    assert!(r.register_entry(
        TrapType::TimerInterrupt,
        entry_of(TrapHandler::Respond(TrapHandlerResult::Pass), 10, "H1")
    ));
    assert!(r.register_entry(
        TrapType::TimerInterrupt,
        entry_of(TrapHandler::Respond(TrapHandlerResult::Handled), 20, "H2")
    ));
    assert!(r.register_entry(
        TrapType::TimerInterrupt,
        entry_of(TrapHandler::SetRegister(10, 0xdead), 30, "H3")
    ));
    let mut ctx = TrapContext::new();
    let (result, effects) = r.dispatch(TrapType::TimerInterrupt, &mut ctx);
    assert_eq!(result, TrapHandlerResult::Handled);
    assert!(!effects.halt);
    // H3 never ran: its marker register is untouched.
    assert_eq!(ctx.x[10], 0);
}

#[test]
fn dispatch_runs_in_priority_order() {
    // Two register-writing handlers into the same slot: the outcome shows
    // the higher-priority (lower number) one ran, then was overwritten by
    // the later one, both returning Handled stops at the first.
    let mut r = HandlerRegistry::new();
    assert!(r.register_entry(
        TrapType::SystemCall,
        entry_of(TrapHandler::SetRegister(11, 222), 20, "late")
    ));
    assert!(r.register_entry(
        TrapType::SystemCall,
        entry_of(TrapHandler::SetRegister(11, 111), 10, "early")
    ));
    let mut ctx = TrapContext::new();
    let (result, _) = r.dispatch(TrapType::SystemCall, &mut ctx);
    // The early handler handles; the late one never runs.
    assert_eq!(result, TrapHandlerResult::Handled);
    assert_eq!(ctx.x[11], 111);
}

#[test]
fn dispatch_continues_past_failures() {
    let mut r = HandlerRegistry::new();
    assert!(r.register_entry(
        TrapType::Breakpoint,
        entry_of(
            TrapHandler::Respond(TrapHandlerResult::Failed(TrapError::HandlerFailed)),
            10,
            "failing",
        )
    ));
    assert!(r.register_entry(
        TrapType::Breakpoint,
        entry_of(TrapHandler::SetRegister(12, 7), 20, "succeeding")
    ));
    let mut ctx = TrapContext::new();
    let (result, _) = r.dispatch(TrapType::Breakpoint, &mut ctx);
    assert_eq!(result, TrapHandlerResult::Handled);
    assert_eq!(ctx.x[12], 7);
}

#[test]
fn dispatch_with_no_claimant_fails_with_no_handler() {
    let mut r = HandlerRegistry::new();
    assert!(r.register_entry(
        TrapType::ExternalInterrupt,
        entry_of(TrapHandler::Respond(TrapHandlerResult::Pass), 10, "declines")
    ));
    let mut ctx = TrapContext::new();
    let (result, _) = r.dispatch(TrapType::ExternalInterrupt, &mut ctx);
    assert_eq!(result, TrapHandlerResult::Failed(TrapError::NoHandler));
    // An empty list fails the same way.
    let (result2, _) = r.dispatch(TrapType::Unknown, &mut ctx);
    assert_eq!(result2, TrapHandlerResult::Failed(TrapError::NoHandler));
}

#[test]
fn handler_behaviours() {
    let mut ctx = TrapContext::new();
    ctx.sepc = 0x8000_0000;
    let (r, fx) = run_trap_handler(&TrapHandler::AdvancePc, &mut ctx);
    assert_eq!(r, TrapHandlerResult::Handled);
    assert_eq!(ctx.sepc, 0x8000_0004);
    assert!(!fx.clear_soft && !fx.halt);

    let (r, fx) = run_trap_handler(&TrapHandler::ClearSoftInterrupt, &mut ctx);
    assert_eq!(r, TrapHandlerResult::Handled);
    assert!(fx.clear_soft);

    let (r, fx) = run_trap_handler(&TrapHandler::FaultDiagnose, &mut ctx);
    assert_eq!(r, TrapHandlerResult::Handled);
    assert!(fx.halt);

    // The misaligned diagnosis passes on a non-misaligned cause…
    ctx.scause = 8;
    let (r, fx) = run_trap_handler(&TrapHandler::MisalignedDiagnose, &mut ctx);
    assert_eq!(r, TrapHandlerResult::Pass);
    assert!(!fx.halt);
    // …and claims (and halts on) a misaligned one.
    ctx.scause = 4;
    let (r, fx) = run_trap_handler(&TrapHandler::MisalignedDiagnose, &mut ctx);
    assert_eq!(r, TrapHandlerResult::Handled);
    assert!(fx.halt);

    // Access-fault diagnosis is likewise cause-checked.
    ctx.scause = 5;
    let (r, fx) = run_trap_handler(&TrapHandler::AccessFaultDiagnose, &mut ctx);
    assert_eq!(r, TrapHandlerResult::Handled);
    assert!(fx.halt);
    ctx.scause = INTERRUPT_BIT | 5;
    let (r, _) = run_trap_handler(&TrapHandler::AccessFaultDiagnose, &mut ctx);
    assert_eq!(r, TrapHandlerResult::Pass);
}

#[test]
fn advance_pc_wraps_at_address_limit() {
    let mut ctx = TrapContext::new();
    ctx.sepc = usize::MAX - 1;
    let (_, _) = run_trap_handler(&TrapHandler::AdvancePc, &mut ctx);
    assert_eq!(ctx.sepc, 2);
}
