//! The trap-system container: composes the handler registry, the context
//! manager, the hardware-control model and the error registry behind one
//! façade, owns one-time initialization, and hosts the central trap entry
//! point with its built-in fallback behaviour.

use vstd::prelude::*;
use crate::context::{TrapContext, TrapSnap};
use crate::error_manager::ErrorManager;
use crate::handler::{
    spec_advanced_pc, spec_dispatch, HandlerEffects, HandlerEntry, ProtectionLevel, RegistrarId,
    TrapHandler, TrapHandlerResult, SYSTEM_REGISTRAR_ID,
};
use crate::hardware::{spec_trap_vector_value, HardwareControl};
use crate::nesting::{ContextManager, DEFAULT_MAX_NEST_LEVEL};
use crate::registry::{
    spec_has_description, spec_insert_pos, spec_kept, spec_row_handlers, ContextId,
    HandlerRegistration, HandlerRegistry, SecurityError, MAX_HANDLERS_PER_TYPE,
};
use crate::types::{TrapCause, TrapMode, TrapType, TRAP_TYPE_COUNT};

verus! {

/// Priority of the built-in catch-all handlers: numerically high, so any
/// user registration at a lower number runs first.
pub const DEFAULT_HANDLER_PRIORITY: u8 = 100;

/// Whether the kernel installs a built-in default handler for the trap
/// type of index `t`.
pub open spec fn spec_has_default(t: int) -> bool {
    t == 0 || t == 1 || t == 2 || t == 3 || t == 4 || t == 5 || t == 6 || t == 8 || t == 9 || t
        == 15
}

/// The behaviour of the built-in default handler of row `t`: software
/// interrupts clear their pending line, system calls and breakpoints
/// advance the program counter, everything else is acknowledged.
pub open spec fn spec_default_handler(t: int) -> TrapHandler {
    if t == 2 {
        TrapHandler::ClearSoftInterrupt
    } else if t == 3 || t == 9 {
        TrapHandler::AdvancePc
    } else {
        TrapHandler::Acknowledge
    }
}

/// The description of the built-in default handler of row `t`.
pub open spec fn spec_default_description(t: int) -> Seq<char> {
    if t == 0 {
        "Default Timer Handler"@
    } else if t == 1 {
        "Default External Handler"@
    } else if t == 2 {
        "Default Software Handler"@
    } else if t == 3 {
        "Default System Call Handler"@
    } else if t == 4 {
        "Default Instruction Page Fault Handler"@
    } else if t == 5 {
        "Default Load Page Fault Handler"@
    } else if t == 6 {
        "Default Store Page Fault Handler"@
    } else if t == 8 {
        "Default Illegal Instruction Handler"@
    } else if t == 9 {
        "Default Breakpoint Handler"@
    } else {
        "Default Unknown Handler"@
    }
}

/// Row `t` as initialization leaves it: its built-in default alone, or
/// empty for trap types that get none.
pub open spec fn spec_default_row(row: Seq<HandlerRegistration>, t: int) -> bool {
    if spec_has_default(t) {
        &&& row.len() == 1
        &&& row[0].entry.handler == spec_default_handler(t)
        &&& row[0].entry.priority == DEFAULT_HANDLER_PRIORITY
        &&& row[0].entry.description@ == spec_default_description(t)
        &&& row[0].entry.protection_level == ProtectionLevel::System
        &&& row[0].entry.registrar_id == SYSTEM_REGISTRAR_ID
        &&& row[0].context_id is None
    } else {
        row.len() == 0
    }
}

/// The built-in fallback for traps no handler claimed: a system call has
/// its program counter advanced past the trapping instruction; a software
/// interrupt has its pending line cleared; everything else is reported
/// and left as it is. Returns the context it leaves and whether it asks
/// for the software-interrupt line to be cleared.
pub open spec fn spec_fallback(cause: TrapCause, ctx: TrapSnap) -> (TrapSnap, bool) {
    let t = cause.spec_trap_type();
    if cause.spec_is_interrupt() {
        if t == TrapType::SoftwareInterrupt {
            (ctx, true)
        } else {
            (ctx, false)
        }
    } else {
        if t == TrapType::SystemCall {
            (TrapSnap { sepc: spec_advanced_pc(ctx.sepc), ..ctx }, false)
        } else {
            (ctx, false)
        }
    }
}

/// The single composition point of the trap system: the handler registry,
/// context manager, hardware-control model and error registry, the
/// one-time initialization flag, and the counters behind registrar and
/// context identities.
pub struct TrapSystem {
    /// Priority-ordered trap handler registry.
    pub registry: HandlerRegistry,
    /// Interrupt-nesting and task-context manager.
    pub context_manager: ContextManager,
    /// Mirror of the privileged interrupt-control registers.
    pub hardware_control: HardwareControl,
    /// Software-error registry and log.
    pub error_manager: ErrorManager,
    /// Whether `initialize` has run; only the first call takes effect.
    pub initialized: bool,
    /// The trap mode the system was initialized with.
    pub mode: TrapMode,
    /// Next registrar identity to hand out; `0` is reserved for the
    /// kernel, so this starts at 1 and only grows.
    pub next_registrar_id: RegistrarId,
    /// Next context identity to hand out; starts at 1 and only grows.
    pub next_context_id: ContextId,
}

impl TrapSystem {
    /// Container invariant: every component is well formed and the
    /// identity counters stay past their reserved values.
    pub open spec fn wf(&self) -> bool {
        &&& self.registry.wf()
        &&& self.context_manager.wf()
        &&& self.error_manager.wf()
        &&& self.next_registrar_id >= 1
        &&& self.next_context_id >= 1
    }

    /// A fresh, uninitialized container with empty registries.
    pub fn new() -> (r: TrapSystem)
        ensures
            r.wf(),
            r.initialized == false,
            forall|t: int| 0 <= t < TRAP_TYPE_COUNT ==> (#[trigger] r.registry.row(t)).len() == 0,
            r.error_manager.handlers@.len() == 0,
            r.error_manager.log.count == 0,
            r.error_manager.panic_mode == false,
            r.context_manager.spec_nest_level() == 0,
            r.next_registrar_id == 1,
            r.next_context_id == 1,
    {
        TrapSystem {
            registry: HandlerRegistry::new(),
            context_manager: ContextManager::new(),
            hardware_control: HardwareControl::new(),
            error_manager: ErrorManager::new(),
            initialized: false,
            mode: TrapMode::Direct,
            next_registrar_id: 1,
            next_context_id: 1,
        }
    }

    /// Whether the system has been initialized.
    pub fn get_trap_system_initialized(&self) -> (r: bool)
        ensures
            r == self.initialized,
    {
        self.initialized
    }

    /// One-time initialization: the first call points the trap-vector
    /// register of the hardware model at `trap_entry` with the given mode,
    /// records the mode, configures the nesting limit and installs the
    /// built-in default handlers, returning `true`; later calls return
    /// `false` and change nothing. The caller mirrors the recorded
    /// trap-vector value onto the real register.
    pub fn initialize(&mut self, mode: TrapMode, trap_entry: usize) -> (r: bool)
        requires
            old(self).wf(),
            !old(self).initialized ==> forall|t: int|
                0 <= t < TRAP_TYPE_COUNT ==> (#[trigger] old(self).registry.row(t)).len() == 0,
        ensures
            final(self).wf(),
            if old(self).initialized {
                r == false && *final(self) == *old(self)
            } else {
                &&& r == true
                &&& final(self).initialized == true
                &&& final(self).mode == mode
                &&& final(self).context_manager.max_nest_level == DEFAULT_MAX_NEST_LEVEL
                &&& final(self).context_manager.saved@ == old(self).context_manager.saved@
                &&& forall|t: int|
                    0 <= t < TRAP_TYPE_COUNT ==> spec_default_row(
                        #[trigger] final(self).registry.row(t),
                        t,
                    )
                &&& final(self).error_manager == old(self).error_manager
                &&& final(self).hardware_control == (HardwareControl {
                    trap_vector: spec_trap_vector_value(trap_entry, mode),
                    ..old(self).hardware_control
                })
                &&& final(self).next_registrar_id == old(self).next_registrar_id
                &&& final(self).next_context_id == old(self).next_context_id
            },
    {
        if self.initialized {
            return false;
        }
        self.initialized = true;
        self.mode = mode;
        self.hardware_control.init_trap_vector(trap_entry, mode);
        self.context_manager.set_max_nest_level(DEFAULT_MAX_NEST_LEVEL);
        self.register_default(TrapType::TimerInterrupt, TrapHandler::Acknowledge,
            "Default Timer Handler");
        self.register_default(TrapType::SoftwareInterrupt, TrapHandler::ClearSoftInterrupt,
            "Default Software Handler");
        self.register_default(TrapType::ExternalInterrupt, TrapHandler::Acknowledge,
            "Default External Handler");
        self.register_default(TrapType::SystemCall, TrapHandler::AdvancePc,
            "Default System Call Handler");
        self.register_default(TrapType::InstructionPageFault, TrapHandler::Acknowledge,
            "Default Instruction Page Fault Handler");
        self.register_default(TrapType::LoadPageFault, TrapHandler::Acknowledge,
            "Default Load Page Fault Handler");
        self.register_default(TrapType::StorePageFault, TrapHandler::Acknowledge,
            "Default Store Page Fault Handler");
        self.register_default(TrapType::IllegalInstruction, TrapHandler::Acknowledge,
            "Default Illegal Instruction Handler");
        self.register_default(TrapType::Unknown, TrapHandler::Acknowledge,
            "Default Unknown Handler");
        self.register_default(TrapType::Breakpoint, TrapHandler::AdvancePc,
            "Default Breakpoint Handler");
        true
    }

    /// Install one built-in default handler into its empty row.
    fn register_default(&mut self, trap_type: TrapType, handler: TrapHandler, description: &str)
        requires
            old(self).wf(),
            old(self).registry.row(trap_type.spec_index() as int).len() == 0,
        ensures
            final(self).wf(),
            ({
                let t = trap_type.spec_index() as int;
                let row = final(self).registry.row(t);
                &&& row.len() == 1
                &&& row[0].entry.handler == handler
                &&& row[0].entry.priority == DEFAULT_HANDLER_PRIORITY
                &&& row[0].entry.description@ == description@
                &&& row[0].entry.protection_level == ProtectionLevel::System
                &&& row[0].entry.registrar_id == SYSTEM_REGISTRAR_ID
                &&& row[0].context_id is None
            }),
            forall|k: int|
                0 <= k < TRAP_TYPE_COUNT && k != trap_type.spec_index()
                    ==> #[trigger] final(self).registry.row(k) == old(self).registry.row(k),
            final(self).context_manager == old(self).context_manager,
            final(self).hardware_control == old(self).hardware_control,
            final(self).error_manager == old(self).error_manager,
            final(self).initialized == old(self).initialized,
            final(self).mode == old(self).mode,
            final(self).next_registrar_id == old(self).next_registrar_id,
            final(self).next_context_id == old(self).next_context_id,
    {
        let entry = HandlerEntry::new(handler, DEFAULT_HANDLER_PRIORITY, description);
        let registration = HandlerRegistration { entry, context_id: None };
        let ghost t = trap_type.spec_index() as int;
        let ghost row = self.registry.row(t);
        let ok = self.registry.register_entry(trap_type, registration);
        proof {
            assert(!spec_has_description(row, registration.entry.description@));
            assert(spec_insert_pos(row, DEFAULT_HANDLER_PRIORITY) == 0);
            assert(self.registry.row(t) =~= row.insert(0, registration));
        }
    }

    /// Register a system-protected, kernel-owned handler, optionally tied
    /// to a context. Refused (returning `false`) before initialization,
    /// on a duplicate description for the trap type, or on a full row.
    pub fn register_handler(
        &mut self,
        trap_type: TrapType,
        handler: TrapHandler,
        priority: u8,
        description: &str,
        context_id: Option<ContextId>,
    ) -> (r: bool)
        requires
            old(self).wf(),
        ensures
            final(self).wf(),
            !old(self).initialized ==> r == false && *final(self) == *old(self),
            old(self).initialized ==> spec_register_outcome(
                *old(self),
                *final(self),
                r,
                trap_type,
                handler,
                priority,
                description@,
                ProtectionLevel::System,
                SYSTEM_REGISTRAR_ID,
                context_id,
            ),
    {
        if !self.initialized {
            return false;
        }
        self.register_with_owner_inner(
            trap_type,
            handler,
            priority,
            description,
            ProtectionLevel::System,
            SYSTEM_REGISTRAR_ID,
            context_id,
        )
    }

    /// Register a handler with an explicit protection level and owner.
    /// Refused before initialization, on a duplicate description for the
    /// trap type, or on a full row.
    pub fn register_handler_with_owner(
        &mut self,
        trap_type: TrapType,
        handler: TrapHandler,
        priority: u8,
        description: &str,
        protection_level: ProtectionLevel,
        registrar_id: RegistrarId,
        context_id: Option<ContextId>,
    ) -> (r: bool)
        requires
            old(self).wf(),
        ensures
            final(self).wf(),
            !old(self).initialized ==> r == false && *final(self) == *old(self),
            old(self).initialized ==> spec_register_outcome(
                *old(self),
                *final(self),
                r,
                trap_type,
                handler,
                priority,
                description@,
                protection_level,
                registrar_id,
                context_id,
            ),
    {
        if !self.initialized {
            return false;
        }
        self.register_with_owner_inner(
            trap_type,
            handler,
            priority,
            description,
            protection_level,
            registrar_id,
            context_id,
        )
    }

    /// Register a kernel-owned handler tied to no context.
    pub fn register_handler_with_kernel_context(
        &mut self,
        trap_type: TrapType,
        handler: TrapHandler,
        priority: u8,
        description: &str,
    ) -> (r: bool)
        requires
            old(self).wf(),
        ensures
            final(self).wf(),
            !old(self).initialized ==> r == false && *final(self) == *old(self),
            old(self).initialized ==> spec_register_outcome(
                *old(self),
                *final(self),
                r,
                trap_type,
                handler,
                priority,
                description@,
                ProtectionLevel::System,
                SYSTEM_REGISTRAR_ID,
                Option::None,
            ),
    {
        self.register_handler(trap_type, handler, priority, description, None)
    }

    /// The shared registration path.
    fn register_with_owner_inner(
        &mut self,
        trap_type: TrapType,
        handler: TrapHandler,
        priority: u8,
        description: &str,
        protection_level: ProtectionLevel,
        registrar_id: RegistrarId,
        context_id: Option<ContextId>,
    ) -> (r: bool)
        requires
            old(self).wf(),
        ensures
            final(self).wf(),
            spec_register_outcome(
                *old(self),
                *final(self),
                r,
                trap_type,
                handler,
                priority,
                description@,
                protection_level,
                registrar_id,
                context_id,
            ),
    {
        let entry = HandlerEntry::new_with_protection(
            handler,
            priority,
            description,
            protection_level,
            registrar_id,
        );
        let registration = HandlerRegistration { entry, context_id };
        let ghost row = self.registry.row(trap_type.spec_index() as int);
        let ok = self.registry.register_entry(trap_type, registration);
        proof {
            crate::registry::lemma_insert_pos(row, priority);
            row.insert_ensures(spec_insert_pos(row, priority), registration);
        }
        ok
    }

    /// Remove the first handler of the given description under a trap
    /// type, with no ownership check; `false` before initialization or
    /// when none matches.
    pub fn unregister_handler(&mut self, trap_type: TrapType, description: &str) -> (r: bool)
        requires
            old(self).wf(),
        ensures
            final(self).wf(),
            !old(self).initialized ==> r == false && *final(self) == *old(self),
            old(self).initialized ==> ({
                let t = trap_type.spec_index() as int;
                let row = old(self).registry.row(t);
                &&& spec_sibling_state(*old(self), *final(self))
                &&& forall|k: int|
                    0 <= k < TRAP_TYPE_COUNT && k != t ==> #[trigger] final(self).registry.row(k)
                        == old(self).registry.row(k)
                &&& if crate::registry::spec_has_description(row, description@) {
                    r == true && final(self).registry.row(t) == row.remove(
                        crate::registry::spec_find_description(row, description@),
                    )
                } else {
                    r == false && final(self).registry.row(t) == row
                }
            }),
    {
        if !self.initialized {
            return false;
        }
        self.registry.unregister(trap_type, description)
    }

    /// Remove a handler under the ownership model; see the registry's
    /// secure unregistration for the exact refusal rules.
    pub fn unregister_handler_secure(
        &mut self,
        trap_type: TrapType,
        description: &str,
        registrar_id: RegistrarId,
    ) -> (r: Result<bool, SecurityError>)
        requires
            old(self).wf(),
        ensures
            final(self).wf(),
            !old(self).initialized ==> r == Result::<bool, SecurityError>::Ok(false) && *final(self)
                == *old(self),
            old(self).initialized ==> ({
                let t = trap_type.spec_index() as int;
                let row = old(self).registry.row(t);
                let pos = crate::registry::spec_find_description(row, description@);
                &&& spec_sibling_state(*old(self), *final(self))
                &&& forall|k: int|
                    0 <= k < TRAP_TYPE_COUNT && k != t ==> #[trigger] final(self).registry.row(k)
                        == old(self).registry.row(k)
                &&& if !crate::registry::spec_has_description(row, description@) {
                    r == Result::<bool, SecurityError>::Ok(false) && final(self).registry.row(t)
                        == row
                } else if row[pos].entry.protection_level == ProtectionLevel::System
                    && registrar_id != SYSTEM_REGISTRAR_ID {
                    r == Result::<bool, SecurityError>::Err(SecurityError::ProtectedHandler)
                        && final(self).registry.row(t) == row
                } else if row[pos].entry.protection_level == ProtectionLevel::User
                    && row[pos].entry.registrar_id != registrar_id {
                    r == Result::<bool, SecurityError>::Err(SecurityError::InvalidRegistrar)
                        && final(self).registry.row(t) == row
                } else {
                    r == Result::<bool, SecurityError>::Ok(true) && final(self).registry.row(t)
                        == row.remove(pos)
                }
            }),
    {
        if !self.initialized {
            return Ok(false);
        }
        self.registry.unregister_secure(trap_type, description, registrar_id)
    }

    /// Remove every handler owned by a context, with no ownership check;
    /// returns how many went (0 before initialization).
    pub fn unregister_handlers_for_context(&mut self, context_id: ContextId) -> (r: usize)
        requires
            old(self).wf(),
        ensures
            final(self).wf(),
            !old(self).initialized ==> r == 0 && *final(self) == *old(self),
            old(self).initialized ==> ({
                &&& spec_sibling_state(*old(self), *final(self))
                &&& forall|k: int|
                    0 <= k < TRAP_TYPE_COUNT ==> #[trigger] final(self).registry.row(k)
                        == spec_kept(old(self).registry.row(k), context_id, Option::None)
                &&& r == old(self).registry.spec_bulk_removed(
                    context_id,
                    Option::None,
                    TRAP_TYPE_COUNT as int,
                )
            }),
    {
        if !self.initialized {
            return 0;
        }
        self.registry.unregister_handlers_for_context(context_id)
    }

    /// Remove every handler owned by a context that the registrar may
    /// remove; returns how many went (0 before initialization).
    pub fn unregister_handlers_for_context_secure(
        &mut self,
        context_id: ContextId,
        registrar_id: RegistrarId,
    ) -> (r: usize)
        requires
            old(self).wf(),
        ensures
            final(self).wf(),
            !old(self).initialized ==> r == 0 && *final(self) == *old(self),
            old(self).initialized ==> ({
                &&& spec_sibling_state(*old(self), *final(self))
                &&& forall|k: int|
                    0 <= k < TRAP_TYPE_COUNT ==> #[trigger] final(self).registry.row(k)
                        == spec_kept(
                        old(self).registry.row(k),
                        context_id,
                        Option::Some(registrar_id),
                    )
                &&& r == old(self).registry.spec_bulk_removed(
                    context_id,
                    Option::Some(registrar_id),
                    TRAP_TYPE_COUNT as int,
                )
            }),
    {
        if !self.initialized {
            return 0;
        }
        self.registry.unregister_context_secure(context_id, registrar_id)
    }

    /// How many handlers the trap type has.
    pub fn handler_count(&self, trap_type: TrapType) -> (r: usize)
        requires
            self.wf(),
        ensures
            r == self.registry.row(trap_type.spec_index() as int).len(),
    {
        self.registry.handler_count(trap_type)
    }

    /// Total registrations across the rows before `t`.
    pub open spec fn spec_total_handlers(&self, t: int) -> int
        decreases t,
    {
        if t <= 0 {
            0
        } else {
            self.spec_total_handlers(t - 1) + self.registry.row(t - 1).len()
        }
    }

    /// Total number of registered handlers over every trap type.
    pub fn custom_handler_count(&self) -> (r: usize)
        requires
            self.wf(),
        ensures
            r == self.spec_total_handlers(TRAP_TYPE_COUNT as int),
    {
        let mut total: usize = 0;
        let mut t: usize = 0;
        while t < TRAP_TYPE_COUNT
            invariant
                self.wf(),
                t <= TRAP_TYPE_COUNT,
                total == self.spec_total_handlers(t as int),
                total <= t * MAX_HANDLERS_PER_TYPE,
            decreases TRAP_TYPE_COUNT - t,
        {
            let row_len = self.registry.handler_count(TrapType::from_index(t));
            proof {
                crate::types::lemma_trap_type_index_roundtrip(TrapType::spec_from_index(t));
                assert(TrapType::spec_from_index(t as usize).spec_index() == t);
            }
            total = total + row_len;
            t += 1;
        }
        total
    }

    /// Dispatch a trap of the given type to its registered handlers; the
    /// outcome is exactly the registry's dispatch.
    pub fn dispatch_trap(&self, trap_type: TrapType, ctx: &mut TrapContext) -> (r: (
        TrapHandlerResult,
        HandlerEffects,
    ))
        requires
            self.wf(),
        ensures
            ({
                let out = spec_dispatch(
                    spec_row_handlers(self.registry.row(trap_type.spec_index() as int)),
                    old(ctx)@,
                );
                &&& r.0 == out.result
                &&& final(ctx)@ == out.ctx
                &&& r.1 == (HandlerEffects { clear_soft: out.clear_soft, halt: out.halt })
            }),
    {
        self.registry.dispatch(trap_type, ctx)
    }

    /// The built-in default behaviour for traps that no handler claimed:
    /// advance past an unclaimed system call, request the software
    /// interrupt line cleared, report everything else.
    pub fn handle_unhandled_trap(
        &self,
        trap_type: TrapType,
        cause: TrapCause,
        ctx: &mut TrapContext,
    ) -> (r: bool)
        requires
            trap_type == cause.spec_trap_type(),
        ensures
            final(ctx)@ == spec_fallback(cause, old(ctx)@).0,
            r == spec_fallback(cause, old(ctx)@).1,
    {
        if cause.is_interrupt() {
            if matches!(trap_type, TrapType::SoftwareInterrupt) {
                return true;
            }
            false
        } else {
            if matches!(trap_type, TrapType::SystemCall) {
                let pc = ctx.sepc;
                let advanced = if pc <= usize::MAX - 4 {
                    pc + 4
                } else {
                    pc - (usize::MAX - 4) - 1
                };
                ctx.set_return_addr(advanced);
            }
            false
        }
    }

    /// The central trap entry point: decode the recorded cause, dispatch
    /// to the registered handlers, and fall back to the built-in default
    /// behaviour when none claims the trap. The software-interrupt
    /// pending bit of the hardware model is cleared when any handler or
    /// the fallback asked for it; the caller mirrors that and the halt
    /// request on the real hardware.
    pub fn handle_trap(&mut self, ctx: &mut TrapContext) -> (r: (
        TrapHandlerResult,
        HandlerEffects,
    ))
        requires
            old(self).wf(),
        ensures
            final(self).wf(),
            ({
                let cause = TrapCause { bits: old(ctx)@.scause };
                let t = cause.spec_trap_type().spec_index() as int;
                let out = spec_dispatch(
                    spec_row_handlers(old(self).registry.row(t)),
                    old(ctx)@,
                );
                let fb = spec_fallback(cause, out.ctx);
                &&& r.0 == out.result
                &&& (if out.result == TrapHandlerResult::Handled {
                    final(ctx)@ == out.ctx && r.1 == (HandlerEffects {
                        clear_soft: out.clear_soft,
                        halt: out.halt,
                    })
                } else {
                    final(ctx)@ == fb.0 && r.1 == (HandlerEffects {
                        clear_soft: out.clear_soft || fb.1,
                        halt: out.halt,
                    })
                })
                &&& final(self).hardware_control == (HardwareControl {
                    soft_pending: old(self).hardware_control.soft_pending && !r.1.clear_soft,
                    ..old(self).hardware_control
                })
                &&& final(self).registry == old(self).registry
                &&& final(self).error_manager == old(self).error_manager
                &&& final(self).context_manager == old(self).context_manager
                &&& final(self).initialized == old(self).initialized
                &&& final(self).mode == old(self).mode
                &&& final(self).next_registrar_id == old(self).next_registrar_id
                &&& final(self).next_context_id == old(self).next_context_id
            }),
    {
        let cause = ctx.get_cause();
        let trap_type = cause.to_trap_type();
        let (result, effects) = self.registry.dispatch(trap_type, ctx);
        let combined = match result {
            TrapHandlerResult::Handled => effects,
            _ => {
                let fallback_clear = self.handle_unhandled_trap(trap_type, cause, ctx);
                HandlerEffects { clear_soft: effects.clear_soft || fallback_clear, ..effects }
            },
        };
        if combined.clear_soft {
            self.hardware_control.clear_soft_interrupt();
        }
        (result, combined)
    }

    /// Hand out a fresh registrar identity; they only grow, so no two
    /// calls return the same one.
    pub fn generate_registrar_id(&mut self) -> (r: RegistrarId)
        requires
            old(self).wf(),
            old(self).next_registrar_id < RegistrarId::MAX,
        ensures
            final(self).wf(),
            r == old(self).next_registrar_id,
            r != SYSTEM_REGISTRAR_ID,
            *final(self) == (TrapSystem {
                next_registrar_id: (old(self).next_registrar_id + 1) as RegistrarId,
                ..*old(self)
            }),
    {
        let id = self.next_registrar_id;
        self.next_registrar_id = self.next_registrar_id + 1;
        id
    }

    /// Hand out a fresh context identity; they only grow, so no two calls
    /// return the same one.
    pub fn generate_context_id(&mut self) -> (r: ContextId)
        requires
            old(self).wf(),
            old(self).next_context_id < ContextId::MAX,
        ensures
            final(self).wf(),
            r == old(self).next_context_id,
            *final(self) == (TrapSystem {
                next_context_id: (old(self).next_context_id + 1) as ContextId,
                ..*old(self)
            }),
    {
        let id = self.next_context_id;
        self.next_context_id = self.next_context_id + 1;
        id
    }

    /// The context manager.
    pub fn get_context_manager(&self) -> (r: &ContextManager)
        ensures
            r == &self.context_manager,
    {
        &self.context_manager
    }

    /// The context manager, for mutation.
    pub fn get_context_manager_mut(&mut self) -> (r: &mut ContextManager)
        ensures
            *r == old(self).context_manager,
            *final(self) == (TrapSystem { context_manager: *final(r), ..*old(self) }),
    {
        &mut self.context_manager
    }

    /// The hardware-control model.
    pub fn get_hardware_control(&self) -> (r: &HardwareControl)
        ensures
            r == &self.hardware_control,
    {
        &self.hardware_control
    }

    /// The hardware-control model, for mutation.
    pub fn get_hardware_control_mut(&mut self) -> (r: &mut HardwareControl)
        ensures
            *r == old(self).hardware_control,
            *final(self) == (TrapSystem { hardware_control: *final(r), ..*old(self) }),
    {
        &mut self.hardware_control
    }

    /// The error manager.
    pub fn get_error_manager(&self) -> (r: &ErrorManager)
        ensures
            r == &self.error_manager,
    {
        &self.error_manager
    }

    /// The error manager, for mutation.
    pub fn get_error_manager_mut(&mut self) -> (r: &mut ErrorManager)
        ensures
            *r == old(self).error_manager,
            *final(self) == (TrapSystem { error_manager: *final(r), ..*old(self) }),
    {
        &mut self.error_manager
    }
}

/// Everything of the container except the handler registry is unchanged.
pub open spec fn spec_sibling_state(pre: TrapSystem, post: TrapSystem) -> bool {
    &&& post.context_manager == pre.context_manager
    &&& post.hardware_control == pre.hardware_control
    &&& post.error_manager == pre.error_manager
    &&& post.initialized == pre.initialized
    &&& post.mode == pre.mode
    &&& post.next_registrar_id == pre.next_registrar_id
    &&& post.next_context_id == pre.next_context_id
}

/// The exact outcome of a handler registration on an initialized system:
/// a duplicate description or a full row refuses it and changes nothing;
/// otherwise the new registration sits at its priority slot, the other
/// rows and the sibling components untouched.
pub open spec fn spec_register_outcome(
    pre: TrapSystem,
    post: TrapSystem,
    r: bool,
    trap_type: TrapType,
    handler: TrapHandler,
    priority: u8,
    description: Seq<char>,
    protection_level: ProtectionLevel,
    registrar_id: RegistrarId,
    context_id: Option<ContextId>,
) -> bool {
    let t = trap_type.spec_index() as int;
    let row = pre.registry.row(t);
    &&& spec_sibling_state(pre, post)
    &&& forall|k: int|
        0 <= k < TRAP_TYPE_COUNT && k != t ==> #[trigger] post.registry.row(k) == pre.registry.row(
            k,
        )
    &&& if crate::registry::spec_has_description(row, description) || row.len()
        >= MAX_HANDLERS_PER_TYPE {
        r == false && post.registry.row(t) == row
    } else {
        let pos = spec_insert_pos(row, priority);
        &&& r == true
        &&& post.registry.row(t).len() == row.len() + 1
        &&& post.registry.row(t)[pos].entry.handler == handler
        &&& post.registry.row(t)[pos].entry.priority == priority
        &&& post.registry.row(t)[pos].entry.description@ == description
        &&& post.registry.row(t)[pos].entry.protection_level == protection_level
        &&& post.registry.row(t)[pos].entry.registrar_id == registrar_id
        &&& post.registry.row(t)[pos].context_id == context_id
        &&& forall|k: int| 0 <= k < pos ==> #[trigger] post.registry.row(t)[k] == row[k]
        &&& forall|k: int|
            pos < k < row.len() + 1 ==> #[trigger] post.registry.row(t)[k] == row[k - 1]
    }
}

} // verus!
