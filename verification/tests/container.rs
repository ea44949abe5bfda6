use trap_core::api;
use trap_core::api::TrapApiError;
use trap_core::container::TrapSystem;
use trap_core::context::TrapContext;
use trap_core::enhanced::register_enhanced_handlers;
use trap_core::handler::{TrapHandler, TrapHandlerResult};
use trap_core::types::{Interrupt, TrapMode, TrapType};

const INTERRUPT_BIT: usize = 1usize << (usize::BITS - 1);

fn initialized() -> TrapSystem {
    let mut sys = TrapSystem::new();
    assert!(sys.initialize(TrapMode::Direct, 0x8020_0000));
    sys
}

#[test]
fn end_to_end_scenario() {
    // Initialize in Direct mode; register a timer handler at priority 50
    // named "X"; the count is 2 (default plus X); unregister "X"; the
    // count returns to 1.
    let mut sys = initialized();
    assert_eq!(sys.handler_count(TrapType::TimerInterrupt), 1);
    api::register_trap_handler(
        &mut sys,
        TrapType::TimerInterrupt,
        TrapHandler::Acknowledge,
        50,
        "X",
        None,
    )
    .expect("registration");
    assert_eq!(sys.handler_count(TrapType::TimerInterrupt), 2);
    api::unregister_trap_handler(&mut sys, TrapType::TimerInterrupt, "X").expect("unregistration");
    assert_eq!(sys.handler_count(TrapType::TimerInterrupt), 1);
}

#[test]
fn initialize_is_idempotent() {
    let mut sys = TrapSystem::new();
    assert!(sys.initialize(TrapMode::Direct, 0x8020_0000));
    assert!(!sys.initialize(TrapMode::Vectored, 0x8020_0000));
    // The mode of the first call stands.
    assert_eq!(sys.mode, TrapMode::Direct);
}

#[test]
fn api_fails_closed_before_initialization() {
    let mut sys = TrapSystem::new();
    assert_eq!(
        api::register_trap_handler(
            &mut sys,
            TrapType::TimerInterrupt,
            TrapHandler::Acknowledge,
            50,
            "X",
            None,
        ),
        Err(TrapApiError::SystemNotInitialized)
    );
    assert_eq!(
        api::unregister_trap_handler(&mut sys, TrapType::TimerInterrupt, "X"),
        Err(TrapApiError::SystemNotInitialized)
    );
    assert!(!api::enable_interrupts(&mut sys));
    assert!(!api::is_in_trap_context(&sys));
    assert_eq!(api::current_trap_nest_level(&sys), 0);
    assert!(!api::is_panic_mode(&sys));
    assert_eq!(api::unregister_trap_handlers_for_context(&mut sys, 1), 0);
}

#[test]
fn duplicate_registration_fails() {
    let mut sys = initialized();
    api::register_trap_handler(
        &mut sys,
        TrapType::Breakpoint,
        TrapHandler::Acknowledge,
        50,
        "dup",
        None,
    )
    .expect("first");
    assert_eq!(
        api::register_trap_handler(
            &mut sys,
            TrapType::Breakpoint,
            TrapHandler::Acknowledge,
            60,
            "dup",
            None,
        ),
        Err(TrapApiError::RegistrationFailed)
    );
}

#[test]
fn ownership_through_the_api() {
    let mut sys = initialized();
    let me = api::get_registrar_id(&mut sys);
    let other = api::get_registrar_id(&mut sys);
    assert_ne!(me, other);
    api::register_trap_handler_secure(
        &mut sys,
        TrapType::SystemCall,
        TrapHandler::Respond(TrapHandlerResult::Pass),
        30,
        "module handler",
        None,
        me,
    )
    .expect("registration");
    // A foreign registrar is rejected without removing anything.
    assert_eq!(
        api::unregister_trap_handler_secure(&mut sys, TrapType::SystemCall, "module handler", other),
        Err(TrapApiError::InvalidRegistrarId)
    );
    // The default system-call handler is protected from user registrars.
    assert_eq!(
        api::unregister_trap_handler_secure(
            &mut sys,
            TrapType::SystemCall,
            "Default System Call Handler",
            me,
        ),
        Err(TrapApiError::ProtectedHandler)
    );
    // The creator succeeds exactly once.
    api::unregister_trap_handler_secure(&mut sys, TrapType::SystemCall, "module handler", me)
        .expect("owner removal");
    assert_eq!(
        api::unregister_trap_handler_secure(&mut sys, TrapType::SystemCall, "module handler", me),
        Err(TrapApiError::HandlerNotFound)
    );
}

#[test]
fn context_bulk_cleanup_through_the_api() {
    let mut sys = initialized();
    let ctx_a = api::generate_context_id(&mut sys);
    let ctx_b = api::generate_context_id(&mut sys);
    for (k, t) in [TrapType::TimerInterrupt, TrapType::Breakpoint, TrapType::SystemCall]
        .into_iter()
        .enumerate()
    {
        let name = format!("a{}", k);
        api::register_trap_handler(
            &mut sys,
            t,
            TrapHandler::Acknowledge,
            40,
            &name,
            Some(ctx_a),
        )
        .expect("registration under context A");
    }
    api::register_trap_handler(
        &mut sys,
        TrapType::TimerInterrupt,
        TrapHandler::Acknowledge,
        41,
        "b0",
        Some(ctx_b),
    )
    .expect("registration under context B");
    let before_b = sys.handler_count(TrapType::TimerInterrupt);
    assert_eq!(api::unregister_trap_handlers_for_context(&mut sys, ctx_a), 3);
    // Context B's handler and the defaults are untouched.
    assert_eq!(sys.handler_count(TrapType::TimerInterrupt), before_b - 1);
    assert_eq!(api::unregister_trap_handlers_for_context(&mut sys, ctx_b), 1);
}

#[test]
fn handle_trap_dispatches_and_falls_back() {
    let mut sys = initialized();
    // A timer interrupt is claimed by the default timer handler.
    let mut ctx = TrapContext::new();
    ctx.scause = INTERRUPT_BIT | 5;
    let (result, effects) = sys.handle_trap(&mut ctx);
    assert_eq!(result, TrapHandlerResult::Handled);
    assert!(!effects.clear_soft && !effects.halt);

    // A software interrupt's default handler asks for the pending line to
    // be cleared.
    sys.get_hardware_control_mut().set_soft_interrupt();
    assert!(sys.get_hardware_control().is_interrupt_pending(Interrupt::SupervisorSoft));
    let mut ctx = TrapContext::new();
    ctx.scause = INTERRUPT_BIT | 1;
    let (result, effects) = sys.handle_trap(&mut ctx);
    assert_eq!(result, TrapHandlerResult::Handled);
    assert!(effects.clear_soft);
    assert!(!sys.get_hardware_control().is_interrupt_pending(Interrupt::SupervisorSoft));

    // A system call is claimed by its default, which advances the PC.
    let mut ctx = TrapContext::new();
    ctx.scause = 8;
    ctx.sepc = 0x100;
    let (result, _) = sys.handle_trap(&mut ctx);
    assert_eq!(result, TrapHandlerResult::Handled);
    assert_eq!(ctx.sepc, 0x104);
}

#[test]
fn fallback_advances_unclaimed_system_call() {
    // On a system with no handlers at all, the built-in fallback advances
    // the program counter past an unclaimed system call.
    let mut sys = TrapSystem::new();
    let mut ctx = TrapContext::new();
    ctx.scause = 8;
    ctx.sepc = 0x200;
    let (result, _) = sys.handle_trap(&mut ctx);
    assert!(matches!(result, TrapHandlerResult::Failed(_)));
    assert_eq!(ctx.sepc, 0x204);
}

#[test]
fn enhanced_handlers_take_precedence() {
    let mut sys = initialized();
    assert_eq!(register_enhanced_handlers(&mut sys), 12);
    assert_eq!(sys.handler_count(TrapType::InstructionPageFault), 2);
    assert_eq!(sys.handler_count(TrapType::LoadMisaligned), 1);
    // An instruction page fault is now claimed by the enhanced handler,
    // which asks the platform to halt.
    let mut ctx = TrapContext::new();
    ctx.scause = 12;
    let (result, effects) = sys.handle_trap(&mut ctx);
    assert_eq!(result, TrapHandlerResult::Handled);
    assert!(effects.halt);
    // A load-misaligned exception likewise halts through its checked
    // diagnosis.
    let mut ctx = TrapContext::new();
    ctx.scause = 4;
    let (result, effects) = sys.handle_trap(&mut ctx);
    assert_eq!(result, TrapHandlerResult::Handled);
    assert!(effects.halt);
}

#[test]
fn interrupt_save_restore_idiom() {
    let mut sys = initialized();
    assert!(!api::enable_interrupts(&mut sys));
    assert!(api::disable_interrupts(&mut sys));
    // Restoring with `false` keeps interrupts off; with `true` re-enables.
    api::restore_interrupts(&mut sys, false);
    assert!(!sys.get_hardware_control().interrupts_enabled);
    api::restore_interrupts(&mut sys, true);
    assert!(sys.get_hardware_control().interrupts_enabled);
}

#[test]
fn per_source_interrupt_bits() {
    let mut sys = initialized();
    assert!(!api::is_interrupt_enabled(&sys, Interrupt::SupervisorTimer));
    api::enable_specific_interrupt(&mut sys, Interrupt::SupervisorTimer);
    assert!(api::is_interrupt_enabled(&sys, Interrupt::SupervisorTimer));
    assert!(!api::is_interrupt_enabled(&sys, Interrupt::SupervisorExternal));
    api::disable_specific_interrupt(&mut sys, Interrupt::SupervisorTimer);
    assert!(!api::is_interrupt_enabled(&sys, Interrupt::SupervisorTimer));
    assert!(!api::is_interrupt_pending(&sys, Interrupt::SupervisorSoft));
    sys.get_hardware_control_mut().set_soft_interrupt();
    assert!(api::is_interrupt_pending(&sys, Interrupt::SupervisorSoft));
}

#[test]
fn trap_vector_packing() {
    let mut sys = TrapSystem::new();
    sys.get_hardware_control_mut().init_trap_vector(0x8000_0003, TrapMode::Vectored);
    // The entry address is aligned down to four bytes; the mode selector
    // takes the low two bits.
    assert_eq!(sys.get_hardware_control().trap_vector, 0x8000_0001);
    sys.get_hardware_control_mut().init_trap_vector(0x8000_0008, TrapMode::Direct);
    assert_eq!(sys.get_hardware_control().trap_vector, 0x8000_0008);
}

#[test]
fn initialization_records_the_trap_vector() {
    let mut sys = TrapSystem::new();
    assert!(sys.initialize(TrapMode::Direct, 0x8020_0006));
    assert_eq!(sys.get_hardware_control().trap_vector, 0x8020_0004);
}

#[test]
fn error_subsystem_through_the_api() {
    let mut sys = initialized();
    let e = api::create_system_error(
        &sys,
        trap_core::error::ErrorSource::Memory,
        trap_core::error::ErrorLevel::Error,
        3,
        Some(0x4000),
        0x1234,
        99,
    );
    assert_eq!(e.timestamp(), 99);
    api::register_error_handler(
        &mut sys,
        trap_core::error::ErrorHandler::MemoryTriage,
        10,
        "memory triage",
        Some(trap_core::error::ErrorSource::Memory),
        None,
    )
    .expect("error handler registration");
    let (result, halt) = api::handle_system_error(&mut sys, e);
    assert_eq!(result, trap_core::error::ErrorResult::Handled);
    assert!(!halt);
    let recent = api::error_log_recent(&sys, 10);
    assert_eq!(recent.len(), 1);
    assert!(recent[0].handled);
    api::clear_error_log(&mut sys);
    assert_eq!(api::error_log_recent(&sys, 10).len(), 0);
    api::unregister_error_handler(&mut sys, "memory triage").expect("unregistration");
    assert_eq!(
        api::unregister_error_handler(&mut sys, "memory triage"),
        Err(TrapApiError::HandlerNotFound)
    );
}

#[test]
fn counters_are_monotonic() {
    let mut sys = initialized();
    let a = sys.generate_context_id();
    let b = sys.generate_context_id();
    assert!(b > a);
    let r1 = sys.generate_registrar_id();
    let r2 = sys.generate_registrar_id();
    assert!(r2 > r1);
    assert_ne!(r1, 0);
    let total = sys.custom_handler_count();
    // The ten built-in defaults.
    assert_eq!(total, 10);
}
