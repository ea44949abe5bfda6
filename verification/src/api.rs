//! The stable public façade of the trap system. Every function first
//! checks that the container is initialized and fails closed — returning
//! a safe default or `SystemNotInitialized` — rather than panicking.

use vstd::prelude::*;
use crate::container::{spec_register_outcome, spec_sibling_state, TrapSystem};
use crate::error::{
    ErrorHandler, ErrorHandlerEntry, ErrorLevel, ErrorLogEntry, ErrorResult, ErrorSource,
    SystemError,
};
use crate::error_manager::{
    err_find_description, err_has_description, err_insert_pos, spec_error_dispatch,
    MAX_ERROR_HANDLERS,
};
use crate::handler::{ProtectionLevel, RegistrarId, TrapHandler, SYSTEM_REGISTRAR_ID};
use crate::registry::{
    spec_find_description, spec_has_description, spec_kept, spec_unregister_decision,
    spec_unregister_result_row, ContextId, SecurityError,
};
use crate::types::{Interrupt, TrapType, TRAP_TYPE_COUNT};

verus! {

/// Errors the public trap API reports.
#[derive(Debug, Copy, Clone, PartialEq, Eq, Structural)]
pub enum TrapApiError {
    /// The trap system has not been initialized.
    SystemNotInitialized,
    /// Registration was refused: the row is full or the description is
    /// already registered for the trap type.
    RegistrationFailed,
    /// The named handler is not registered.
    HandlerNotFound,
    /// Too many handlers are registered.
    TooManyHandlers,
    /// The handler storage is busy.
    StorageLocked,
    /// The context identity is invalid.
    InvalidContextId,
    /// The operation is not allowed in the current state.
    OperationNotAllowed,
    /// The trap system failed internally.
    InternalError,
    /// The entry is protected and the caller may not modify it.
    ProtectedHandler,
    /// The caller is not the registrar that created the entry.
    InvalidRegistrarId,
    /// The operation needs system-level permission.
    SystemLevelRequired,
}

impl TrapApiError {
    /// A short description of the error.
    pub fn message(&self) -> (r: &'static str) {
        match self {
            TrapApiError::SystemNotInitialized => "Trap system not initialized",
            TrapApiError::RegistrationFailed => "Failed to register handler",
            TrapApiError::HandlerNotFound => "Handler not found",
            TrapApiError::TooManyHandlers => "Too many handlers registered",
            TrapApiError::StorageLocked => "Handler storage is locked",
            TrapApiError::InvalidContextId => "Invalid context ID",
            TrapApiError::OperationNotAllowed => "Operation not allowed in current state",
            TrapApiError::InternalError => "Internal trap system error",
            TrapApiError::ProtectedHandler => "Cannot modify protected handler",
            TrapApiError::InvalidRegistrarId => "Invalid registrar ID, not original owner",
            TrapApiError::SystemLevelRequired => "System level permission required",
        }
    }
}

/// A fresh registrar identity for a module that will use the trap API.
pub fn get_registrar_id(sys: &mut TrapSystem) -> (r: RegistrarId)
    requires
        old(sys).wf(),
        old(sys).next_registrar_id < RegistrarId::MAX,
    ensures
        final(sys).wf(),
        r == old(sys).next_registrar_id,
        r != SYSTEM_REGISTRAR_ID,
        *final(sys) == (TrapSystem {
            next_registrar_id: (old(sys).next_registrar_id + 1) as RegistrarId,
            ..*old(sys)
        }),
{
    sys.generate_registrar_id()
}

/// Register a user-level trap handler owned by `registrar_id`, optionally
/// tied to a context. `SystemNotInitialized` before initialization,
/// `RegistrationFailed` on a duplicate description or a full row.
pub fn register_trap_handler_secure(
    sys: &mut TrapSystem,
    trap_type: TrapType,
    handler: TrapHandler,
    priority: u8,
    description: &str,
    context_id: Option<ContextId>,
    registrar_id: RegistrarId,
) -> (r: Result<(), TrapApiError>)
    requires
        old(sys).wf(),
    ensures
        final(sys).wf(),
        !old(sys).initialized ==> r == Result::<(), TrapApiError>::Err(
            TrapApiError::SystemNotInitialized,
        ) && *final(sys) == *old(sys),
        old(sys).initialized ==> ({
            let t = trap_type.spec_index() as int;
            let row = old(sys).registry.row(t);
            let refused = spec_has_description(row, description@) || row.len()
                >= crate::registry::MAX_HANDLERS_PER_TYPE;
            &&& (r == Result::<(), TrapApiError>::Ok(()) <==> !refused)
            &&& refused ==> r == Result::<(), TrapApiError>::Err(TrapApiError::RegistrationFailed)
            &&& spec_register_outcome(
                *old(sys),
                *final(sys),
                !refused,
                trap_type,
                handler,
                priority,
                description@,
                ProtectionLevel::User,
                registrar_id,
                context_id,
            )
        }),
{
    if !sys.get_trap_system_initialized() {
        return Err(TrapApiError::SystemNotInitialized);
    }
    if sys.register_handler_with_owner(
        trap_type,
        handler,
        priority,
        description,
        ProtectionLevel::User,
        registrar_id,
        context_id,
    ) {
        Ok(())
    } else {
        Err(TrapApiError::RegistrationFailed)
    }
}

/// Register a system-protected trap handler under the reserved kernel
/// identity.
pub fn register_trap_handler(
    sys: &mut TrapSystem,
    trap_type: TrapType,
    handler: TrapHandler,
    priority: u8,
    description: &str,
    context_id: Option<ContextId>,
) -> (r: Result<(), TrapApiError>)
    requires
        old(sys).wf(),
    ensures
        final(sys).wf(),
        !old(sys).initialized ==> r == Result::<(), TrapApiError>::Err(
            TrapApiError::SystemNotInitialized,
        ) && *final(sys) == *old(sys),
        old(sys).initialized ==> ({
            let t = trap_type.spec_index() as int;
            let row = old(sys).registry.row(t);
            let refused = spec_has_description(row, description@) || row.len()
                >= crate::registry::MAX_HANDLERS_PER_TYPE;
            &&& (r == Result::<(), TrapApiError>::Ok(()) <==> !refused)
            &&& refused ==> r == Result::<(), TrapApiError>::Err(TrapApiError::RegistrationFailed)
            &&& spec_register_outcome(
                *old(sys),
                *final(sys),
                !refused,
                trap_type,
                handler,
                priority,
                description@,
                ProtectionLevel::System,
                SYSTEM_REGISTRAR_ID,
                context_id,
            )
        }),
{
    if !sys.get_trap_system_initialized() {
        return Err(TrapApiError::SystemNotInitialized);
    }
    if sys.register_handler_with_owner(
        trap_type,
        handler,
        priority,
        description,
        ProtectionLevel::System,
        SYSTEM_REGISTRAR_ID,
        context_id,
    ) {
        Ok(())
    } else {
        Err(TrapApiError::RegistrationFailed)
    }
}

/// Unregister a trap handler under the ownership model: a system entry
/// answers only to the system registrar (`ProtectedHandler` otherwise), a
/// user entry only to its creator (`InvalidRegistrarId` otherwise), and an
/// absent description reports `HandlerNotFound`.
pub fn unregister_trap_handler_secure(
    sys: &mut TrapSystem,
    trap_type: TrapType,
    description: &str,
    registrar_id: RegistrarId,
) -> (r: Result<(), TrapApiError>)
    requires
        old(sys).wf(),
    ensures
        final(sys).wf(),
        !old(sys).initialized ==> r == Result::<(), TrapApiError>::Err(
            TrapApiError::SystemNotInitialized,
        ) && *final(sys) == *old(sys),
        old(sys).initialized ==> ({
            let t = trap_type.spec_index() as int;
            let row = old(sys).registry.row(t);
            &&& spec_sibling_state(*old(sys), *final(sys))
            &&& forall|k: int|
                0 <= k < TRAP_TYPE_COUNT && k != t ==> #[trigger] final(sys).registry.row(k) == old(sys).registry.row(k)
            &&& final(sys).registry.row(t) == spec_unregister_result_row(
                row,
                description@,
                registrar_id,
            )
            &&& r == (match spec_unregister_decision(row, description@, registrar_id) {
                Result::<bool, SecurityError>::Ok(true) => Result::<(), TrapApiError>::Ok(()),
                Result::<bool, SecurityError>::Ok(false) => Result::<(), TrapApiError>::Err(
                    TrapApiError::HandlerNotFound,
                ),
                Result::<bool, SecurityError>::Err(SecurityError::ProtectedHandler) => Result::<
                    (),
                    TrapApiError,
                >::Err(TrapApiError::ProtectedHandler),
                Result::<bool, SecurityError>::Err(SecurityError::InvalidRegistrar) => Result::<
                    (),
                    TrapApiError,
                >::Err(TrapApiError::InvalidRegistrarId),
                Result::<bool, SecurityError>::Err(_) => Result::<(), TrapApiError>::Err(
                    TrapApiError::InternalError,
                ),
            })
        }),
{
    if !sys.get_trap_system_initialized() {
        return Err(TrapApiError::SystemNotInitialized);
    }
    match sys.unregister_handler_secure(trap_type, description, registrar_id) {
        Ok(true) => Ok(()),
        Ok(false) => Err(TrapApiError::HandlerNotFound),
        Err(SecurityError::ProtectedHandler) => Err(TrapApiError::ProtectedHandler),
        Err(SecurityError::InvalidRegistrar) => Err(TrapApiError::InvalidRegistrarId),
        Err(_) => Err(TrapApiError::InternalError),
    }
}

/// Unregister a trap handler by description with kernel authority and no
/// ownership check; `HandlerNotFound` when the description is absent.
pub fn unregister_trap_handler(
    sys: &mut TrapSystem,
    trap_type: TrapType,
    description: &str,
) -> (r: Result<(), TrapApiError>)
    requires
        old(sys).wf(),
    ensures
        final(sys).wf(),
        !old(sys).initialized ==> r == Result::<(), TrapApiError>::Err(
            TrapApiError::SystemNotInitialized,
        ) && *final(sys) == *old(sys),
        old(sys).initialized ==> ({
            let t = trap_type.spec_index() as int;
            let row = old(sys).registry.row(t);
            &&& spec_sibling_state(*old(sys), *final(sys))
            &&& forall|k: int|
                0 <= k < TRAP_TYPE_COUNT && k != t ==> #[trigger] final(sys).registry.row(k) == old(sys).registry.row(k)
            &&& if spec_has_description(row, description@) {
                r == Result::<(), TrapApiError>::Ok(()) && final(sys).registry.row(t) == row.remove(
                    spec_find_description(row, description@),
                )
            } else {
                r == Result::<(), TrapApiError>::Err(TrapApiError::HandlerNotFound) && final(sys).registry.row(t) == row
            }
        }),
{
    if !sys.get_trap_system_initialized() {
        return Err(TrapApiError::SystemNotInitialized);
    }
    if sys.unregister_handler(trap_type, description) {
        Ok(())
    } else {
        Err(TrapApiError::HandlerNotFound)
    }
}

/// Remove every handler the registrar may remove that context `context_id`
/// owns; returns the removed count (0 before initialization).
pub fn unregister_trap_handlers_for_context_secure(
    sys: &mut TrapSystem,
    context_id: ContextId,
    registrar_id: RegistrarId,
) -> (r: usize)
    requires
        old(sys).wf(),
    ensures
        final(sys).wf(),
        !old(sys).initialized ==> r == 0 && *final(sys) == *old(sys),
        old(sys).initialized ==> ({
            &&& spec_sibling_state(*old(sys), *final(sys))
            &&& forall|k: int|
                0 <= k < TRAP_TYPE_COUNT ==> #[trigger] final(sys).registry.row(k) == spec_kept(
                    old(sys).registry.row(k),
                    context_id,
                    Option::Some(registrar_id),
                )
            &&& r == old(sys).registry.spec_bulk_removed(
                context_id,
                Option::Some(registrar_id),
                TRAP_TYPE_COUNT as int,
            )
        }),
{
    sys.unregister_handlers_for_context_secure(context_id, registrar_id)
}

/// Remove every handler that context `context_id` owns, with kernel
/// authority; returns the removed count (0 before initialization).
pub fn unregister_trap_handlers_for_context(sys: &mut TrapSystem, context_id: ContextId) -> (r:
    usize)
    requires
        old(sys).wf(),
    ensures
        final(sys).wf(),
        !old(sys).initialized ==> r == 0 && *final(sys) == *old(sys),
        old(sys).initialized ==> ({
            &&& spec_sibling_state(*old(sys), *final(sys))
            &&& forall|k: int|
                0 <= k < TRAP_TYPE_COUNT ==> #[trigger] final(sys).registry.row(k) == spec_kept(
                    old(sys).registry.row(k),
                    context_id,
                    Option::None,
                )
            &&& r == old(sys).registry.spec_bulk_removed(
                context_id,
                Option::None,
                TRAP_TYPE_COUNT as int,
            )
        }),
{
    sys.unregister_handlers_for_context(context_id)
}

/// Set the global interrupt-enable bit of the hardware model; returns the
/// previous state, or `false` (and no change) before initialization.
pub fn enable_interrupts(sys: &mut TrapSystem) -> (r: bool)
    requires
        old(sys).wf(),
    ensures
        final(sys).wf(),
        !old(sys).initialized ==> r == false && *final(sys) == *old(sys),
        old(sys).initialized ==> r == old(sys).hardware_control.interrupts_enabled && *final(sys)
            == (TrapSystem {
            hardware_control: crate::hardware::HardwareControl {
                interrupts_enabled: true,
                ..old(sys).hardware_control
            },
            ..*old(sys)
        }),
{
    if !sys.get_trap_system_initialized() {
        return false;
    }
    sys.get_hardware_control_mut().enable_interrupts()
}

/// Clear the global interrupt-enable bit; returns the previous state, or
/// `false` (and no change) before initialization.
pub fn disable_interrupts(sys: &mut TrapSystem) -> (r: bool)
    requires
        old(sys).wf(),
    ensures
        final(sys).wf(),
        !old(sys).initialized ==> r == false && *final(sys) == *old(sys),
        old(sys).initialized ==> r == old(sys).hardware_control.interrupts_enabled && *final(sys)
            == (TrapSystem {
            hardware_control: crate::hardware::HardwareControl {
                interrupts_enabled: false,
                ..old(sys).hardware_control
            },
            ..*old(sys)
        }),
{
    if !sys.get_trap_system_initialized() {
        return false;
    }
    sys.get_hardware_control_mut().disable_interrupts()
}

/// Re-enable interrupts only if the saved flag was true; never toggles
/// them off.
pub fn restore_interrupts(sys: &mut TrapSystem, was_enabled: bool)
    requires
        old(sys).wf(),
    ensures
        final(sys).wf(),
        !old(sys).initialized ==> *final(sys) == *old(sys),
        old(sys).initialized ==> *final(sys) == (TrapSystem {
            hardware_control: crate::hardware::HardwareControl {
                interrupts_enabled: old(sys).hardware_control.interrupts_enabled || was_enabled,
                ..old(sys).hardware_control
            },
            ..*old(sys)
        }),
{
    if !sys.get_trap_system_initialized() {
        return ;
    }
    sys.get_hardware_control_mut().restore_interrupts(was_enabled);
}

/// Enable one interrupt source in the hardware model.
pub fn enable_specific_interrupt(sys: &mut TrapSystem, interrupt: Interrupt)
    requires
        old(sys).wf(),
    ensures
        final(sys).wf(),
        !old(sys).initialized ==> *final(sys) == *old(sys),
        old(sys).initialized ==> ({
            &&& final(sys).hardware_control.spec_source_enabled(interrupt) == true
            &&& forall|other: Interrupt|
                other != interrupt ==> #[trigger] final(sys).hardware_control.spec_source_enabled(
                    other,
                ) == old(sys).hardware_control.spec_source_enabled(other)
            &&& forall|other: Interrupt| #[trigger]
                final(sys).hardware_control.spec_source_pending(other) == old(sys).hardware_control.spec_source_pending(other)
            &&& final(sys).hardware_control.interrupts_enabled == old(sys).hardware_control.interrupts_enabled
            &&& spec_sibling_hardware(*old(sys), *final(sys))
        }),
{
    if !sys.get_trap_system_initialized() {
        return ;
    }
    sys.get_hardware_control_mut().enable_interrupt(interrupt);
}

/// Disable one interrupt source in the hardware model.
pub fn disable_specific_interrupt(sys: &mut TrapSystem, interrupt: Interrupt)
    requires
        old(sys).wf(),
    ensures
        final(sys).wf(),
        !old(sys).initialized ==> *final(sys) == *old(sys),
        old(sys).initialized ==> ({
            &&& final(sys).hardware_control.spec_source_enabled(interrupt) == false
            &&& forall|other: Interrupt|
                other != interrupt ==> #[trigger] final(sys).hardware_control.spec_source_enabled(
                    other,
                ) == old(sys).hardware_control.spec_source_enabled(other)
            &&& forall|other: Interrupt| #[trigger]
                final(sys).hardware_control.spec_source_pending(other) == old(sys).hardware_control.spec_source_pending(other)
            &&& final(sys).hardware_control.interrupts_enabled == old(sys).hardware_control.interrupts_enabled
            &&& spec_sibling_hardware(*old(sys), *final(sys))
        }),
{
    if !sys.get_trap_system_initialized() {
        return ;
    }
    sys.get_hardware_control_mut().disable_interrupt(interrupt);
}

/// Everything of the container except the hardware model is unchanged.
pub open spec fn spec_sibling_hardware(pre: TrapSystem, post: TrapSystem) -> bool {
    &&& post.registry == pre.registry
    &&& post.context_manager == pre.context_manager
    &&& post.error_manager == pre.error_manager
    &&& post.initialized == pre.initialized
    &&& post.mode == pre.mode
    &&& post.next_registrar_id == pre.next_registrar_id
    &&& post.next_context_id == pre.next_context_id
}

/// Whether execution is inside a trap context; conservatively `false`
/// before initialization.
pub fn is_in_trap_context(sys: &TrapSystem) -> (r: bool)
    requires
        sys.wf(),
    ensures
        r == (sys.initialized && sys.context_manager.spec_nest_level() > 0),
{
    if !sys.get_trap_system_initialized() {
        return false;
    }
    sys.get_context_manager().is_in_interrupt_context()
}

/// The current interrupt nesting level; 0 before initialization.
pub fn current_trap_nest_level(sys: &TrapSystem) -> (r: usize)
    requires
        sys.wf(),
    ensures
        sys.initialized ==> r == sys.context_manager.spec_nest_level(),
        !sys.initialized ==> r == 0,
{
    if !sys.get_trap_system_initialized() {
        return 0;
    }
    sys.get_context_manager().get_nest_level()
}

/// Whether one interrupt source is enabled in the hardware model;
/// conservatively `false` before initialization.
pub fn is_interrupt_enabled(sys: &TrapSystem, interrupt: Interrupt) -> (r: bool)
    requires
        sys.wf(),
    ensures
        r == (sys.initialized && sys.hardware_control.spec_source_enabled(interrupt)),
{
    if !sys.get_trap_system_initialized() {
        return false;
    }
    sys.get_hardware_control().is_interrupt_enabled(interrupt)
}

/// Whether one interrupt source is pending in the hardware model;
/// conservatively `false` before initialization.
pub fn is_interrupt_pending(sys: &TrapSystem, interrupt: Interrupt) -> (r: bool)
    requires
        sys.wf(),
    ensures
        r == (sys.initialized && sys.hardware_control.spec_source_pending(interrupt)),
{
    if !sys.get_trap_system_initialized() {
        return false;
    }
    sys.get_hardware_control().is_interrupt_pending(interrupt)
}

/// A fresh context identity for associating handlers with a process or
/// other logical context.
pub fn generate_context_id(sys: &mut TrapSystem) -> (r: ContextId)
    requires
        old(sys).wf(),
        old(sys).next_context_id < ContextId::MAX,
    ensures
        final(sys).wf(),
        r == old(sys).next_context_id,
        *final(sys) == (TrapSystem {
            next_context_id: (old(sys).next_context_id + 1) as ContextId,
            ..*old(sys)
        }),
{
    sys.generate_context_id()
}

/// Register an error handler with optional source and severity filters;
/// `RegistrationFailed` when the table is full.
pub fn register_error_handler(
    sys: &mut TrapSystem,
    handler: ErrorHandler,
    priority: u8,
    description: &str,
    source: Option<ErrorSource>,
    level: Option<ErrorLevel>,
) -> (r: Result<(), TrapApiError>)
    requires
        old(sys).wf(),
    ensures
        final(sys).wf(),
        !old(sys).initialized ==> r == Result::<(), TrapApiError>::Err(
            TrapApiError::SystemNotInitialized,
        ) && *final(sys) == *old(sys),
        old(sys).initialized ==> ({
            let hs = old(sys).error_manager.handlers@;
            &&& spec_sibling_errors(*old(sys), *final(sys))
            &&& final(sys).error_manager.log == old(sys).error_manager.log
            &&& final(sys).error_manager.panic_mode == old(sys).error_manager.panic_mode
            &&& if hs.len() >= MAX_ERROR_HANDLERS {
                r == Result::<(), TrapApiError>::Err(TrapApiError::RegistrationFailed) && final(sys).error_manager.handlers@ == hs
            } else {
                let pos = err_insert_pos(hs, priority);
                &&& r == Result::<(), TrapApiError>::Ok(())
                &&& final(sys).error_manager.handlers@.len() == hs.len() + 1
                &&& final(sys).error_manager.handlers@[pos].handler == handler
                &&& final(sys).error_manager.handlers@[pos].priority == priority
                &&& final(sys).error_manager.handlers@[pos].description@ == description@
                &&& final(sys).error_manager.handlers@[pos].source == source
                &&& final(sys).error_manager.handlers@[pos].level == level
                &&& forall|k: int|
                    0 <= k < pos ==> #[trigger] final(sys).error_manager.handlers@[k] == hs[k]
                &&& forall|k: int|
                    pos < k < hs.len() + 1 ==> #[trigger] final(sys).error_manager.handlers@[k]
                        == hs[k - 1]
            }
        }),
{
    if !sys.get_trap_system_initialized() {
        return Err(TrapApiError::SystemNotInitialized);
    }
    let entry = ErrorHandlerEntry::new(handler, priority, description, source, level);
    let ghost hs = sys.error_manager.handlers@;
    let ok = sys.get_error_manager_mut().register_handler(entry);
    proof {
        crate::error_manager::lemma_err_insert_pos(hs, priority);
        hs.insert_ensures(err_insert_pos(hs, priority), entry);
    }
    if ok {
        Ok(())
    } else {
        Err(TrapApiError::RegistrationFailed)
    }
}

/// Everything of the container except the error manager is unchanged.
pub open spec fn spec_sibling_errors(pre: TrapSystem, post: TrapSystem) -> bool {
    &&& post.registry == pre.registry
    &&& post.context_manager == pre.context_manager
    &&& post.hardware_control == pre.hardware_control
    &&& post.initialized == pre.initialized
    &&& post.mode == pre.mode
    &&& post.next_registrar_id == pre.next_registrar_id
    &&& post.next_context_id == pre.next_context_id
}

/// Unregister the first error handler with the given description;
/// `HandlerNotFound` when none matches.
pub fn unregister_error_handler(sys: &mut TrapSystem, description: &str) -> (r: Result<
    (),
    TrapApiError,
>)
    requires
        old(sys).wf(),
    ensures
        final(sys).wf(),
        !old(sys).initialized ==> r == Result::<(), TrapApiError>::Err(
            TrapApiError::SystemNotInitialized,
        ) && *final(sys) == *old(sys),
        old(sys).initialized ==> ({
            let hs = old(sys).error_manager.handlers@;
            &&& spec_sibling_errors(*old(sys), *final(sys))
            &&& final(sys).error_manager.log == old(sys).error_manager.log
            &&& final(sys).error_manager.panic_mode == old(sys).error_manager.panic_mode
            &&& if err_has_description(hs, description@) {
                r == Result::<(), TrapApiError>::Ok(()) && final(sys).error_manager.handlers@
                    == hs.remove(err_find_description(hs, description@))
            } else {
                r == Result::<(), TrapApiError>::Err(TrapApiError::HandlerNotFound) && final(sys).error_manager.handlers@ == hs
            }
        }),
{
    if !sys.get_trap_system_initialized() {
        return Err(TrapApiError::SystemNotInitialized);
    }
    if sys.get_error_manager_mut().unregister_handler(description) {
        Ok(())
    } else {
        Err(TrapApiError::HandlerNotFound)
    }
}

/// Handle a system error through the registered handlers; before
/// initialization nothing runs and the error counts as unhandled. The
/// second component asks the caller to halt the platform: it is set
/// exactly when a fatal error went unhandled.
pub fn handle_system_error(sys: &mut TrapSystem, error: SystemError) -> (r: (ErrorResult, bool))
    requires
        old(sys).wf(),
        old(sys).error_manager.log.count < usize::MAX,
    ensures
        final(sys).wf(),
        !old(sys).initialized ==> r == (ErrorResult::Unhandled, false) && *final(sys) == *old(sys),
        old(sys).initialized ==> ({
            let pre = old(sys).error_manager;
            &&& spec_sibling_errors(*old(sys), *final(sys))
            &&& final(sys).error_manager.handlers@ == pre.handlers@
            &&& if pre.panic_mode {
                &&& r == (ErrorResult::Ignored, false)
                &&& final(sys).error_manager.panic_mode == true
                &&& final(sys).error_manager.log.history@ == pre.log.history@.push(
                    ErrorLogEntry { error, handled: false, result: ErrorResult::Ignored },
                )
            } else {
                let outcome = spec_error_dispatch(
                    pre.handlers@,
                    error,
                    ErrorResult::Unhandled,
                    false,
                );
                &&& r.0 == outcome.0
                &&& r.1 == (error.spec_is_fatal() && !outcome.1)
                &&& final(sys).error_manager.panic_mode == (pre.panic_mode
                    || error.spec_is_fatal())
                &&& final(sys).error_manager.log.history@ == pre.log.history@.push(
                    ErrorLogEntry { error, handled: outcome.1, result: outcome.0 },
                )
            }
        }),
{
    if !sys.get_trap_system_initialized() {
        return (ErrorResult::Unhandled, false);
    }
    sys.get_error_manager_mut().handle_error(error)
}

/// Build a system error from its parts; works before initialization too.
/// The timestamp is supplied by the caller, who reads the platform timer.
pub fn create_system_error(
    sys: &TrapSystem,
    source: ErrorSource,
    level: ErrorLevel,
    code: u16,
    address: Option<usize>,
    ip: usize,
    timestamp: u64,
) -> (r: SystemError)
    ensures
        r.code.value == crate::error::spec_pack_code(source, level, code),
        r.address == address,
        r.instruction_pointer == ip,
        r.timestamp == timestamp,
{
    sys.get_error_manager().create_error(source, level, code, address, ip, timestamp)
}

/// The most recent `n` log records in chronological order, for display;
/// empty before initialization.
pub fn error_log_recent(sys: &TrapSystem, n: usize) -> (r: Vec<ErrorLogEntry>)
    requires
        sys.wf(),
    ensures
        !sys.initialized ==> r@.len() == 0,
        sys.initialized ==> r@ == sys.error_manager.log.history@.subrange(
            sys.error_manager.log.count - crate::error::spec_min_usize(
                n as int,
                sys.error_manager.log.spec_kept(),
            ),
            sys.error_manager.log.count as int,
        ),
{
    if !sys.get_trap_system_initialized() {
        return Vec::new();
    }
    sys.get_error_manager().get_log().recent_entries(n)
}

/// Clear the error log; a no-op before initialization.
pub fn clear_error_log(sys: &mut TrapSystem)
    requires
        old(sys).wf(),
    ensures
        final(sys).wf(),
        !old(sys).initialized ==> *final(sys) == *old(sys),
        old(sys).initialized ==> ({
            &&& spec_sibling_errors(*old(sys), *final(sys))
            &&& final(sys).error_manager.handlers@ == old(sys).error_manager.handlers@
            &&& final(sys).error_manager.panic_mode == old(sys).error_manager.panic_mode
            &&& final(sys).error_manager.log.count == 0
            &&& final(sys).error_manager.log.history@ == Seq::<ErrorLogEntry>::empty()
        }),
{
    if !sys.get_trap_system_initialized() {
        return ;
    }
    sys.get_error_manager_mut().get_log_mut().clear();
}

/// Whether the panic-mode latch is set; conservatively `false` before
/// initialization.
pub fn is_panic_mode(sys: &TrapSystem) -> (r: bool)
    requires
        sys.wf(),
    ensures
        r == (sys.initialized && sys.error_manager.panic_mode),
{
    if !sys.get_trap_system_initialized() {
        return false;
    }
    sys.get_error_manager().is_panic_mode()
}

/// Clear the panic-mode latch; a no-op before initialization.
pub fn reset_panic_mode(sys: &mut TrapSystem)
    requires
        old(sys).wf(),
    ensures
        final(sys).wf(),
        !old(sys).initialized ==> *final(sys) == *old(sys),
        old(sys).initialized ==> ({
            &&& spec_sibling_errors(*old(sys), *final(sys))
            &&& final(sys).error_manager.handlers@ == old(sys).error_manager.handlers@
            &&& final(sys).error_manager.log == old(sys).error_manager.log
            &&& final(sys).error_manager.panic_mode == false
        }),
{
    if !sys.get_trap_system_initialized() {
        return ;
    }
    sys.get_error_manager_mut().reset_panic_mode();
}

} // verus!
