use trap_core::handler::{
    HandlerEntry, ProtectionLevel, TrapHandler, SYSTEM_REGISTRAR_ID,
};
use trap_core::registry::{HandlerRegistration, HandlerRegistry, SecurityError};
use trap_core::types::TrapType;

fn reg(priority: u8, description: &str) -> HandlerRegistration {
    HandlerRegistration {
        entry: HandlerEntry::new(TrapHandler::Acknowledge, priority, description),
        context_id: None,
    }
}

fn user_reg(priority: u8, description: &str, registrar: u64) -> HandlerRegistration {
    HandlerRegistration {
        entry: HandlerEntry::new_with_protection(
            TrapHandler::Acknowledge,
            priority,
            description,
            ProtectionLevel::User,
            registrar,
        ),
        context_id: None,
    }
}

#[test]
fn sorted_invariant_with_distinct_priorities() {
    // Registrations with distinct priorities arrive out of order; after
    // each insertion the list stays non-decreasing in priority.
    let mut r = HandlerRegistry::new();
    let priorities = [40u8, 10, 90, 60, 20, 70, 50, 30];
    for (k, p) in priorities.iter().enumerate() {
        let name = format!("h{}", k);
        assert!(r.register_entry(TrapType::TimerInterrupt, reg(*p, &name)));
        let n = r.handler_count(TrapType::TimerInterrupt);
        for i in 1..n {
            let a = r.registration_at(TrapType::TimerInterrupt, i - 1).entry.priority;
            let b = r.registration_at(TrapType::TimerInterrupt, i).entry.priority;
            assert!(a <= b);
        }
    }
    assert_eq!(r.handler_count(TrapType::TimerInterrupt), 8);
}

#[test]
fn ties_keep_insertion_order() {
    let mut r = HandlerRegistry::new();
    assert!(r.register_entry(TrapType::SystemCall, reg(50, "first")));
    assert!(r.register_entry(TrapType::SystemCall, reg(50, "second")));
    assert_eq!(r.registration_at(TrapType::SystemCall, 0).entry.description, "first");
    assert_eq!(r.registration_at(TrapType::SystemCall, 1).entry.description, "second");
}

#[test]
fn duplicate_description_rejected() {
    let mut r = HandlerRegistry::new();
    assert!(r.register_entry(TrapType::SystemCall, reg(10, "same")));
    assert!(!r.register_entry(TrapType::SystemCall, reg(20, "same")));
    // The same description under another trap type is fine.
    assert!(r.register_entry(TrapType::Breakpoint, reg(20, "same")));
}

#[test]
fn capacity_is_eight_per_type() {
    let mut r = HandlerRegistry::new();
    for k in 0..8 {
        let name = format!("h{}", k);
        assert!(r.register_entry(TrapType::TimerInterrupt, reg(k as u8, &name)));
    }
    assert!(!r.register_entry(TrapType::TimerInterrupt, reg(99, "overflowing")));
    assert_eq!(r.handler_count(TrapType::TimerInterrupt), 8);
}

#[test]
fn at_most_one_owner() {
    // A user entry may be removed only by its creating registrar, and only
    // once.
    let mut r = HandlerRegistry::new();
    assert!(r.register_entry(TrapType::TimerInterrupt, user_reg(10, "mine", 7)));
    for wrong in [1u64, 2, 3, 8, 1000] {
        let res = r.unregister_secure(TrapType::TimerInterrupt, "mine", wrong);
        assert_eq!(res, Err(SecurityError::InvalidRegistrar));
        assert_eq!(r.handler_count(TrapType::TimerInterrupt), 1);
    }
    assert_eq!(r.unregister_secure(TrapType::TimerInterrupt, "mine", 7), Ok(true));
    assert_eq!(r.handler_count(TrapType::TimerInterrupt), 0);
    // The second attempt finds nothing.
    assert_eq!(r.unregister_secure(TrapType::TimerInterrupt, "mine", 7), Ok(false));
}

#[test]
fn system_protection() {
    // A system entry rejects every non-system registrar, however many are
    // tried.
    let mut r = HandlerRegistry::new();
    assert!(r.register_entry(TrapType::Breakpoint, reg(10, "guarded")));
    for wrong in [1u64, 2, 42, 7, 999, 123456] {
        let res = r.unregister_secure(TrapType::Breakpoint, "guarded", wrong);
        assert_eq!(res, Err(SecurityError::ProtectedHandler));
        assert_eq!(r.handler_count(TrapType::Breakpoint), 1);
    }
    assert_eq!(
        r.unregister_secure(TrapType::Breakpoint, "guarded", SYSTEM_REGISTRAR_ID),
        Ok(true)
    );
    assert_eq!(r.handler_count(TrapType::Breakpoint), 0);
}

#[test]
fn unchecked_unregister() {
    let mut r = HandlerRegistry::new();
    assert!(r.register_entry(TrapType::SystemCall, user_reg(10, "x", 5)));
    assert!(!r.unregister(TrapType::SystemCall, "y"));
    assert!(r.unregister(TrapType::SystemCall, "x"));
    assert!(!r.unregister(TrapType::SystemCall, "x"));
}

#[test]
fn bulk_cleanup_by_context() {
    // Registering N handlers under context C and bulk-unregistering C
    // removes exactly N and leaves other contexts untouched.
    let mut r = HandlerRegistry::new();
    let mut under_c = Vec::new();
    for k in 0..3 {
        let name = format!("c{}", k);
        let mut rg = reg(10 + k as u8, &name);
        rg.context_id = Some(77);
        under_c.push(name);
        assert!(r.register_entry(TrapType::TimerInterrupt, rg));
    }
    let mut other = reg(5, "other-ctx");
    other.context_id = Some(88);
    assert!(r.register_entry(TrapType::TimerInterrupt, other));
    let mut kernel = reg(60, "kernel-owned");
    kernel.context_id = None;
    assert!(r.register_entry(TrapType::SystemCall, kernel));

    let removed = r.unregister_handlers_for_context(77);
    assert_eq!(removed, 3);
    assert_eq!(r.handler_count(TrapType::TimerInterrupt), 1);
    assert_eq!(r.registration_at(TrapType::TimerInterrupt, 0).entry.description, "other-ctx");
    assert_eq!(r.handler_count(TrapType::SystemCall), 1);
    // A second pass finds nothing left.
    assert_eq!(r.unregister_handlers_for_context(77), 0);
}

#[test]
fn secure_bulk_cleanup_respects_ownership() {
    let mut r = HandlerRegistry::new();
    let mut owned = user_reg(10, "owned", 5);
    owned.context_id = Some(9);
    let mut foreign = user_reg(20, "foreign", 6);
    foreign.context_id = Some(9);
    let mut system = reg(30, "system-entry");
    system.context_id = Some(9);
    assert!(r.register_entry(TrapType::TimerInterrupt, owned));
    assert!(r.register_entry(TrapType::TimerInterrupt, foreign));
    assert!(r.register_entry(TrapType::TimerInterrupt, system));

    // Registrar 5 may only remove its own user entry.
    assert_eq!(r.unregister_context_secure(9, 5), 1);
    assert_eq!(r.handler_count(TrapType::TimerInterrupt), 2);
    // The system registrar removes system entries but not foreign user ones.
    assert_eq!(r.unregister_context_secure(9, SYSTEM_REGISTRAR_ID), 1);
    assert_eq!(r.handler_count(TrapType::TimerInterrupt), 1);
    assert_eq!(r.registration_at(TrapType::TimerInterrupt, 0).entry.description, "foreign");
}
