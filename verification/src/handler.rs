//! Trap handler records: protection levels, registrar identities, handler
//! behaviours, and the exact semantics of running one handler on a trap
//! context.
//!
//! Handlers are a closed set of behaviours dispatched as a tagged union:
//! each variant's effect on the context, its result, and the hardware
//! actions it requests are stated as spec functions, so dispatch is
//! verifiable end to end.

use vstd::prelude::*;
use crate::context::{TrapContext, TrapSnap};
use crate::types::{TrapCause, TrapType};

verus! {

/// Who may remove a registration.
#[derive(Debug, Copy, Clone, PartialEq, Eq, Structural)]
pub enum ProtectionLevel {
    /// Removable only by the reserved system registrar.
    System,
    /// Removable only by the registrar that created it.
    User,
}

/// Identity of the module that created a registration. Monotonically
/// assigned; `0` is reserved for the kernel itself.
pub type RegistrarId = u64;

/// The reserved registrar identity of the kernel core.
pub const SYSTEM_REGISTRAR_ID: RegistrarId = 0;

/// Why a handler, or the whole dispatch, failed.
#[derive(Debug, Copy, Clone, PartialEq, Eq, Structural)]
pub enum TrapError {
    /// No handler claimed the trap.
    NoHandler,
    /// A handler ran and reported failure.
    HandlerFailed,
    /// Unclassified failure.
    Unknown,
}

/// What one handler reports back to the dispatcher.
#[derive(Debug, Copy, Clone, PartialEq, Eq, Structural)]
pub enum TrapHandlerResult {
    /// The trap is fully handled; dispatch stops.
    Handled,
    /// The handler declines; the next one is tried.
    Pass,
    /// The handler failed; dispatch logs and continues.
    Failed(TrapError),
}

/// A trap handler's behaviour. Dispatch interprets the variant on the trap
/// context, so every handler's effect is known exactly.
#[derive(Debug, Copy, Clone, PartialEq, Eq, Structural)]
pub enum TrapHandler {
    /// Acknowledge the trap and report it handled, leaving the context as
    /// it is. The built-in timer, external-interrupt, page-fault, illegal
    /// instruction and unknown-trap defaults behave this way.
    Acknowledge,
    /// Advance the resume address past the trapping instruction (four
    /// bytes, wrapping) and report handled. The built-in system-call and
    /// breakpoint defaults behave this way.
    AdvancePc,
    /// Report handled and ask the hardware layer to clear the pending
    /// supervisor software-interrupt line.
    ClearSoftInterrupt,
    /// Report a fixed result without touching the context.
    Respond(TrapHandlerResult),
    /// Write a value into general register `x[i]` (a no-op when the index
    /// is out of range) and report handled.
    SetRegister(usize, usize),
    /// Report full diagnostics for an unrecoverable exception and ask the
    /// platform to halt; always claims the trap.
    FaultDiagnose,
    /// Diagnose-and-halt, but only for the three misaligned-address
    /// exception types; passes on every other cause.
    MisalignedDiagnose,
    /// Diagnose-and-halt, but only for load and store access faults;
    /// passes on every other cause.
    AccessFaultDiagnose,
}

/// Hardware actions a dispatch run asks its caller to perform.
#[derive(Debug, Copy, Clone, PartialEq, Eq, Structural)]
pub struct HandlerEffects {
    /// Clear the pending supervisor software-interrupt line.
    pub clear_soft: bool,
    /// Halt the platform (unrecoverable diagnostics were reported).
    pub halt: bool,
}

impl HandlerEffects {
    /// No hardware action requested.
    pub fn none() -> (r: HandlerEffects)
        ensures
            r == (HandlerEffects { clear_soft: false, halt: false }),
    {
        HandlerEffects { clear_soft: false, halt: false }
    }
}

/// The resume address advanced past a four-byte instruction, wrapping at
/// the address-space limit as the hardware adder does.
pub open spec fn spec_advanced_pc(pc: usize) -> usize {
    if pc + 4 <= usize::MAX {
        (pc + 4) as usize
    } else {
        (pc + 4 - usize::MAX - 1) as usize
    }
}

/// Whether the recorded cause is one of the three misaligned-address
/// exceptions.
pub open spec fn spec_is_misaligned_cause(ctx: TrapSnap) -> bool {
    let t = (TrapCause { bits: ctx.scause }).spec_trap_type();
    t == TrapType::InstructionMisaligned || t == TrapType::LoadMisaligned || t
        == TrapType::StoreMisaligned
}

/// Whether the recorded cause is a load or store access fault.
pub open spec fn spec_is_access_fault_cause(ctx: TrapSnap) -> bool {
    let t = (TrapCause { bits: ctx.scause }).spec_trap_type();
    t == TrapType::LoadAccessFault || t == TrapType::StoreAccessFault
}

/// The result a handler reports for a given context.
pub open spec fn spec_handler_result(h: TrapHandler, ctx: TrapSnap) -> TrapHandlerResult {
    match h {
        TrapHandler::Acknowledge => TrapHandlerResult::Handled,
        TrapHandler::AdvancePc => TrapHandlerResult::Handled,
        TrapHandler::ClearSoftInterrupt => TrapHandlerResult::Handled,
        TrapHandler::Respond(r) => r,
        TrapHandler::SetRegister(_, _) => TrapHandlerResult::Handled,
        TrapHandler::FaultDiagnose => TrapHandlerResult::Handled,
        TrapHandler::MisalignedDiagnose => if spec_is_misaligned_cause(ctx) {
            TrapHandlerResult::Handled
        } else {
            TrapHandlerResult::Pass
        },
        TrapHandler::AccessFaultDiagnose => if spec_is_access_fault_cause(ctx) {
            TrapHandlerResult::Handled
        } else {
            TrapHandlerResult::Pass
        },
    }
}

/// The context a handler leaves behind.
pub open spec fn spec_handler_update(h: TrapHandler, ctx: TrapSnap) -> TrapSnap {
    match h {
        TrapHandler::AdvancePc => TrapSnap { sepc: spec_advanced_pc(ctx.sepc), ..ctx },
        TrapHandler::SetRegister(i, v) => if i < ctx.x.len() {
            TrapSnap { x: ctx.x.update(i as int, v), ..ctx }
        } else {
            ctx
        },
        _ => ctx,
    }
}

/// Whether a handler asks for the software-interrupt line to be cleared.
pub open spec fn spec_handler_clears_soft(h: TrapHandler) -> bool {
    h == TrapHandler::ClearSoftInterrupt
}

/// Whether a handler asks the platform to halt for the given context.
pub open spec fn spec_handler_halts(h: TrapHandler, ctx: TrapSnap) -> bool {
    match h {
        TrapHandler::FaultDiagnose => true,
        TrapHandler::MisalignedDiagnose => spec_is_misaligned_cause(ctx),
        TrapHandler::AccessFaultDiagnose => spec_is_access_fault_cause(ctx),
        _ => false,
    }
}

/// Run one handler on a trap context: returns its result and the hardware
/// actions it requests, and applies its context update in place.
pub fn run_trap_handler(h: &TrapHandler, ctx: &mut TrapContext) -> (r: (
    TrapHandlerResult,
    HandlerEffects,
))
    ensures
        r.0 == spec_handler_result(*h, old(ctx)@),
        final(ctx)@ == spec_handler_update(*h, old(ctx)@),
        r.1.clear_soft == spec_handler_clears_soft(*h),
        r.1.halt == spec_handler_halts(*h, old(ctx)@),
{
    match h {
        TrapHandler::Acknowledge => (TrapHandlerResult::Handled, HandlerEffects::none()),
        TrapHandler::AdvancePc => {
            let pc = ctx.sepc;
            let advanced = if pc <= usize::MAX - 4 {
                pc + 4
            } else {
                // The addition wraps around the top of the address space.
                pc - (usize::MAX - 4) - 1
            };
            ctx.set_return_addr(advanced);
            (TrapHandlerResult::Handled, HandlerEffects::none())
        },
        TrapHandler::ClearSoftInterrupt => (
            TrapHandlerResult::Handled,
            HandlerEffects { clear_soft: true, halt: false },
        ),
        TrapHandler::Respond(r) => (*r, HandlerEffects::none()),
        TrapHandler::SetRegister(i, v) => {
            if *i < 32 {
                ctx.x[*i] = *v;
            }
            (TrapHandlerResult::Handled, HandlerEffects::none())
        },
        TrapHandler::FaultDiagnose => (
            TrapHandlerResult::Handled,
            HandlerEffects { clear_soft: false, halt: true },
        ),
        TrapHandler::MisalignedDiagnose => {
            let t = ctx.get_cause().to_trap_type();
            if t == TrapType::InstructionMisaligned || t == TrapType::LoadMisaligned || t
                == TrapType::StoreMisaligned {
                (TrapHandlerResult::Handled, HandlerEffects { clear_soft: false, halt: true })
            } else {
                (TrapHandlerResult::Pass, HandlerEffects::none())
            }
        },
        TrapHandler::AccessFaultDiagnose => {
            let t = ctx.get_cause().to_trap_type();
            if t == TrapType::LoadAccessFault || t == TrapType::StoreAccessFault {
                (TrapHandlerResult::Handled, HandlerEffects { clear_soft: false, halt: true })
            } else {
                (TrapHandlerResult::Pass, HandlerEffects::none())
            }
        },
    }
}

/// What a whole dispatch run produces: the propagated result, the context
/// it leaves behind, and the union of the hardware actions requested.
pub ghost struct DispatchOutcome {
    pub result: TrapHandlerResult,
    pub ctx: TrapSnap,
    pub clear_soft: bool,
    pub halt: bool,
}

/// The dispatch algorithm over a priority-ordered handler sequence: run
/// each handler in turn; `Handled` stops the walk, `Pass` and `Failed`
/// continue with the (possibly updated) context; exhaustion yields
/// `Failed(NoHandler)`. Hardware-action requests accumulate across every
/// handler that ran.
pub open spec fn spec_dispatch(hs: Seq<TrapHandler>, ctx: TrapSnap) -> DispatchOutcome
    decreases hs.len(),
{
    if hs.len() == 0 {
        DispatchOutcome {
            result: TrapHandlerResult::Failed(TrapError::NoHandler),
            ctx,
            clear_soft: false,
            halt: false,
        }
    } else {
        let h = hs[0];
        let r = spec_handler_result(h, ctx);
        let updated = spec_handler_update(h, ctx);
        let cs = spec_handler_clears_soft(h);
        let hl = spec_handler_halts(h, ctx);
        if r == TrapHandlerResult::Handled {
            DispatchOutcome { result: r, ctx: updated, clear_soft: cs, halt: hl }
        } else {
            let rest = spec_dispatch(hs.skip(1), updated);
            DispatchOutcome {
                result: rest.result,
                ctx: rest.ctx,
                clear_soft: cs || rest.clear_soft,
                halt: hl || rest.halt,
            }
        }
    }
}

/// Dispatch short-circuits: as soon as one handler reports `Handled`, the
/// handlers after it do not run — the outcome over the whole sequence
/// equals the outcome over the prefix ending at the first handling entry,
/// and the suffix leaves no trace in the context or the requests.
pub proof fn lemma_dispatch_short_circuit(hs: Seq<TrapHandler>, ctx: TrapSnap, i: int)
    requires
        0 <= i < hs.len(),
        spec_handler_result(hs[i], spec_dispatch(hs.take(i), ctx).ctx)
            == TrapHandlerResult::Handled,
        forall|j: int| 0 <= j < i ==> spec_dispatch(hs.take(j), ctx).result
            != TrapHandlerResult::Handled && spec_handler_result(
            hs[j],
            #[trigger] spec_dispatch(hs.take(j), ctx).ctx,
        ) != TrapHandlerResult::Handled,
    ensures
        spec_dispatch(hs, ctx) == spec_dispatch(hs.take(i + 1), ctx),
        spec_dispatch(hs, ctx).result == TrapHandlerResult::Handled,
    decreases i,
{
    if i == 0 {
        assert(hs.take(1)[0] == hs[0]);
        assert(spec_dispatch(hs.take(0), ctx).ctx == ctx);
        assert(spec_handler_result(hs[0], ctx) == TrapHandlerResult::Handled);
        assert(spec_dispatch(hs.take(1), ctx) == spec_dispatch(hs, ctx));
    } else {
        let h = hs[0];
        assert(spec_dispatch(hs.take(0), ctx).ctx == ctx);
        assert(spec_handler_result(h, ctx) != TrapHandlerResult::Handled) by {
            assert(hs.take(0).len() == 0);
        }
        let updated = spec_handler_update(h, ctx);
        let tail = hs.skip(1);
        assert forall|j: int| 0 <= j < i - 1 implies spec_dispatch(
            tail.take(j),
            updated,
        ).result != TrapHandlerResult::Handled && spec_handler_result(
            tail[j],
            #[trigger] spec_dispatch(tail.take(j), updated).ctx,
        ) != TrapHandlerResult::Handled by {
            lemma_dispatch_take_shift(hs, ctx, j + 1);
            assert(hs.take(j + 1)[0] == hs[0]);
            assert(tail[j] == hs[j + 1]);
        }
        lemma_dispatch_take_shift(hs, ctx, i);
        assert(tail[i - 1] == hs[i]);
        lemma_dispatch_short_circuit(tail, updated, i - 1);
        lemma_dispatch_take_shift(hs, ctx, i + 1);
        assert(spec_dispatch(hs, ctx) == spec_dispatch(hs.take(i + 1), ctx));
    }
}

/// Unfolding helper: dispatching a non-empty prefix `take(i)` (whose head
/// does not handle the trap) equals the head's effects combined with
/// dispatching the shifted prefix of the tail.
pub proof fn lemma_dispatch_take_shift(hs: Seq<TrapHandler>, ctx: TrapSnap, i: int)
    requires
        1 <= i <= hs.len(),
        spec_handler_result(hs[0], ctx) != TrapHandlerResult::Handled,
    ensures
        ({
            let rest = spec_dispatch(hs.skip(1).take(i - 1), spec_handler_update(hs[0], ctx));
            spec_dispatch(hs.take(i), ctx) == (DispatchOutcome {
                result: rest.result,
                ctx: rest.ctx,
                clear_soft: spec_handler_clears_soft(hs[0]) || rest.clear_soft,
                halt: spec_handler_halts(hs[0], ctx) || rest.halt,
            })
        }),
{
    assert(hs.take(i)[0] == hs[0]);
    assert(hs.take(i).skip(1) =~= hs.skip(1).take(i - 1));
}

/// One registration in the handler table: the behaviour, its priority
/// (lower runs earlier), a description used for lookup and display, its
/// protection level, and the identity of its creator.
#[derive(Debug, Clone)]
pub struct HandlerEntry {
    /// The handler behaviour run on dispatch.
    pub handler: TrapHandler,
    /// Priority; numerically smaller values run first.
    pub priority: u8,
    /// Description: identifies the entry for unregistration and display.
    pub description: String,
    /// Protection level governing who may remove the entry.
    pub protection_level: ProtectionLevel,
    /// Identity of the registering module.
    pub registrar_id: RegistrarId,
}

impl HandlerEntry {
    /// A kernel-owned, system-protected entry.
    pub fn new(handler: TrapHandler, priority: u8, description: &str) -> (r: HandlerEntry)
        ensures
            r.handler == handler,
            r.priority == priority,
            r.description@ == description@,
            r.protection_level == ProtectionLevel::System,
            r.registrar_id == SYSTEM_REGISTRAR_ID,
    {
        HandlerEntry {
            handler,
            priority,
            description: description.to_owned(),
            protection_level: ProtectionLevel::System,
            registrar_id: SYSTEM_REGISTRAR_ID,
        }
    }

    /// An entry with an explicit protection level and creator.
    pub fn new_with_protection(
        handler: TrapHandler,
        priority: u8,
        description: &str,
        protection_level: ProtectionLevel,
        registrar_id: RegistrarId,
    ) -> (r: HandlerEntry)
        ensures
            r.handler == handler,
            r.priority == priority,
            r.description@ == description@,
            r.protection_level == protection_level,
            r.registrar_id == registrar_id,
    {
        HandlerEntry {
            handler,
            priority,
            description: description.to_owned(),
            protection_level,
            registrar_id,
        }
    }

    /// An equal copy of the entry.
    pub fn clone_entry(&self) -> (r: HandlerEntry)
        ensures
            r == *self,
    {
        HandlerEntry {
            handler: self.handler,
            priority: self.priority,
            description: self.description.clone(),
            protection_level: self.protection_level,
            registrar_id: self.registrar_id,
        }
    }

    /// Whether the entry is system-protected.
    pub fn is_system(&self) -> (r: bool)
        ensures
            r == (self.protection_level == ProtectionLevel::System),
    {
        self.protection_level == ProtectionLevel::System
    }

    /// Whether `id` may remove this entry: a system entry answers only to
    /// the reserved system registrar, a user entry only to its creator.
    pub fn verify_registrar(&self, id: RegistrarId) -> (r: bool)
        ensures
            r == self.spec_verify_registrar(id),
    {
        if self.is_system() {
            id == SYSTEM_REGISTRAR_ID
        } else {
            self.registrar_id == id
        }
    }

    /// The removal-permission rule of the ownership model.
    pub open spec fn spec_verify_registrar(&self, id: RegistrarId) -> bool {
        if self.protection_level == ProtectionLevel::System {
            id == SYSTEM_REGISTRAR_ID
        } else {
            self.registrar_id == id
        }
    }
}

} // verus!
