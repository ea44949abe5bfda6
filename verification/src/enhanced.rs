//! Enhanced exception handlers: high-priority diagnostics for
//! unrecoverable exceptions. Each reports full details and asks the
//! platform to halt; the breakpoint handler instead advances past the
//! trapping instruction so execution can continue.

use vstd::prelude::*;
use crate::container::{spec_default_description, spec_default_row, spec_has_default, TrapSystem};
use crate::context::TrapContext;
use crate::handler::{
    run_trap_handler, spec_handler_halts, spec_handler_result, spec_handler_update,
    HandlerEffects, HandlerEntry, ProtectionLevel, TrapHandler, TrapHandlerResult,
    SYSTEM_REGISTRAR_ID,
};
use crate::registry::{
    spec_has_description, spec_insert_pos, HandlerRegistration,
};
use crate::types::{TrapType, TRAP_TYPE_COUNT};

verus! {

/// Priority of the enhanced diagnostics handlers: numerically low, so
/// they run before the built-in defaults.
pub const ENHANCED_HANDLER_PRIORITY: u8 = 10;

/// Diagnose an instruction page fault and ask the platform to halt.
pub fn enhanced_instruction_page_fault_handler(ctx: &mut TrapContext) -> (r: (
    TrapHandlerResult,
    HandlerEffects,
))
    ensures
        r.0 == TrapHandlerResult::Handled,
        r.1.halt == true,
        final(ctx)@ == old(ctx)@,
{
    run_trap_handler(&TrapHandler::FaultDiagnose, ctx)
}

/// Diagnose a load page fault and ask the platform to halt.
pub fn enhanced_load_page_fault_handler(ctx: &mut TrapContext) -> (r: (
    TrapHandlerResult,
    HandlerEffects,
))
    ensures
        r.0 == TrapHandlerResult::Handled,
        r.1.halt == true,
        final(ctx)@ == old(ctx)@,
{
    run_trap_handler(&TrapHandler::FaultDiagnose, ctx)
}

/// Diagnose a store page fault and ask the platform to halt.
pub fn enhanced_store_page_fault_handler(ctx: &mut TrapContext) -> (r: (
    TrapHandlerResult,
    HandlerEffects,
))
    ensures
        r.0 == TrapHandlerResult::Handled,
        r.1.halt == true,
        final(ctx)@ == old(ctx)@,
{
    run_trap_handler(&TrapHandler::FaultDiagnose, ctx)
}

/// Diagnose an illegal instruction and ask the platform to halt.
pub fn enhanced_illegal_instruction_handler(ctx: &mut TrapContext) -> (r: (
    TrapHandlerResult,
    HandlerEffects,
))
    ensures
        r.0 == TrapHandlerResult::Handled,
        r.1.halt == true,
        final(ctx)@ == old(ctx)@,
{
    run_trap_handler(&TrapHandler::FaultDiagnose, ctx)
}

/// Diagnose an instruction access fault and ask the platform to halt.
pub fn enhanced_instruction_access_fault_handler(ctx: &mut TrapContext) -> (r: (
    TrapHandlerResult,
    HandlerEffects,
))
    ensures
        r.0 == TrapHandlerResult::Handled,
        r.1.halt == true,
        final(ctx)@ == old(ctx)@,
{
    run_trap_handler(&TrapHandler::FaultDiagnose, ctx)
}

/// Diagnose a load access fault; halts only when the recorded cause
/// really is an access fault, and passes otherwise.
pub fn enhanced_load_access_fault_handler(ctx: &mut TrapContext) -> (r: (
    TrapHandlerResult,
    HandlerEffects,
))
    ensures
        r.0 == spec_handler_result(TrapHandler::AccessFaultDiagnose, old(ctx)@),
        r.1.halt == spec_handler_halts(TrapHandler::AccessFaultDiagnose, old(ctx)@),
        final(ctx)@ == old(ctx)@,
{
    run_trap_handler(&TrapHandler::AccessFaultDiagnose, ctx)
}

/// Diagnose a store access fault; halts only when the recorded cause
/// really is an access fault, and passes otherwise.
pub fn enhanced_store_access_fault_handler(ctx: &mut TrapContext) -> (r: (
    TrapHandlerResult,
    HandlerEffects,
))
    ensures
        r.0 == spec_handler_result(TrapHandler::AccessFaultDiagnose, old(ctx)@),
        r.1.halt == spec_handler_halts(TrapHandler::AccessFaultDiagnose, old(ctx)@),
        final(ctx)@ == old(ctx)@,
{
    run_trap_handler(&TrapHandler::AccessFaultDiagnose, ctx)
}

/// Diagnose a misaligned-address exception; halts only when the recorded
/// cause is one of the three misaligned types, and passes otherwise.
pub fn enhanced_misaligned_handler(ctx: &mut TrapContext) -> (r: (
    TrapHandlerResult,
    HandlerEffects,
))
    ensures
        r.0 == spec_handler_result(TrapHandler::MisalignedDiagnose, old(ctx)@),
        r.1.halt == spec_handler_halts(TrapHandler::MisalignedDiagnose, old(ctx)@),
        final(ctx)@ == old(ctx)@,
{
    run_trap_handler(&TrapHandler::MisalignedDiagnose, ctx)
}

/// Diagnose an unknown trap and ask the platform to halt.
pub fn enhanced_unknown_handler(ctx: &mut TrapContext) -> (r: (TrapHandlerResult, HandlerEffects))
    ensures
        r.0 == TrapHandlerResult::Handled,
        r.1.halt == true,
        final(ctx)@ == old(ctx)@,
{
    run_trap_handler(&TrapHandler::FaultDiagnose, ctx)
}

/// Handle a breakpoint with diagnostics: report, advance the program
/// counter past the trapping instruction, and continue without halting.
pub fn enhanced_breakpoint_handler(ctx: &mut TrapContext) -> (r: (
    TrapHandlerResult,
    HandlerEffects,
))
    ensures
        r.0 == TrapHandlerResult::Handled,
        r.1.halt == false,
        final(ctx)@ == spec_handler_update(TrapHandler::AdvancePc, old(ctx)@),
{
    run_trap_handler(&TrapHandler::AdvancePc, ctx)
}

/// The enhanced-diagnostics entry for registry row `t`, when there is
/// one: page faults, access faults, the illegal instruction and the
/// unknown trap get diagnose-and-halt; breakpoints advance the program
/// counter; misaligned causes get the type-checked diagnosis.
pub open spec fn spec_enhanced_handler(t: int) -> TrapHandler {
    if t == 9 {
        TrapHandler::AdvancePc
    } else if t == 10 || t == 11 || t == 12 {
        TrapHandler::MisalignedDiagnose
    } else if t == 13 || t == 14 {
        TrapHandler::AccessFaultDiagnose
    } else {
        TrapHandler::FaultDiagnose
    }
}

/// Whether row `t` receives an enhanced handler.
pub open spec fn spec_has_enhanced(t: int) -> bool {
    4 <= t <= 15
}

/// The description of the enhanced handler of row `t`.
pub open spec fn spec_enhanced_description(t: int) -> Seq<char> {
    if t == 4 {
        "Enhanced Instruction Page Fault Handler"@
    } else if t == 5 {
        "Enhanced Load Page Fault Handler"@
    } else if t == 6 {
        "Enhanced Store Page Fault Handler"@
    } else if t == 7 {
        "Enhanced Instruction Access Fault Handler"@
    } else if t == 8 {
        "Enhanced Illegal Instruction Handler"@
    } else if t == 9 {
        "Enhanced Breakpoint Handler"@
    } else if t == 10 {
        "Enhanced Instruction Misaligned Handler"@
    } else if t == 11 {
        "Enhanced Load Misaligned Handler"@
    } else if t == 12 {
        "Enhanced Store Misaligned Handler"@
    } else if t == 13 {
        "Enhanced Load Access Fault Handler"@
    } else if t == 14 {
        "Enhanced Store Access Fault Handler"@
    } else {
        "Enhanced Unknown Exception Handler"@
    }
}

/// Row `t` as enhanced registration leaves it when starting from the
/// state initialization produced: the enhanced entry first (its priority
/// outranks the default), then the built-in default where the row has
/// one.
pub open spec fn spec_enhanced_row(row: Seq<HandlerRegistration>, t: int) -> bool {
    if spec_has_enhanced(t) {
        &&& row.len() == (if spec_has_default(t) {
            2int
        } else {
            1int
        })
        &&& row[0].entry.handler == spec_enhanced_handler(t)
        &&& row[0].entry.priority == ENHANCED_HANDLER_PRIORITY
        &&& row[0].entry.description@ == spec_enhanced_description(t)
        &&& row[0].entry.protection_level == ProtectionLevel::System
        &&& row[0].entry.registrar_id == SYSTEM_REGISTRAR_ID
        &&& row[0].context_id is None
        &&& spec_has_default(t) ==> row[1].entry.description@ == spec_default_description(t)
            && row[1].entry.handler == crate::container::spec_default_handler(t)
            && row[1].entry.priority == crate::container::DEFAULT_HANDLER_PRIORITY
    } else {
        spec_default_row(row, t)
    }
}

/// Register the full set of enhanced exception handlers at high priority,
/// on top of the built-in defaults initialization installed. Returns how
/// many were registered.
pub fn register_enhanced_handlers(sys: &mut TrapSystem) -> (r: usize)
    requires
        old(sys).wf(),
        forall|t: int|
            0 <= t < TRAP_TYPE_COUNT ==> spec_default_row(#[trigger] old(sys).registry.row(t), t),
    ensures
        final(sys).wf(),
        r == 12,
        forall|t: int|
            0 <= t < TRAP_TYPE_COUNT ==> spec_enhanced_row(#[trigger] final(sys).registry.row(t), t),
        crate::container::spec_sibling_state(*old(sys), *final(sys)),
    {
    proof {
        reveal_strlit("Default Instruction Page Fault Handler");
        reveal_strlit("Enhanced Instruction Page Fault Handler");
        assert("Default Instruction Page Fault Handler"@.len() != "Enhanced Instruction Page Fault Handler"@.len());
        assert("Default Instruction Page Fault Handler"@ != "Enhanced Instruction Page Fault Handler"@);
        reveal_strlit("Default Load Page Fault Handler");
        reveal_strlit("Enhanced Load Page Fault Handler");
        assert("Default Load Page Fault Handler"@.len() != "Enhanced Load Page Fault Handler"@.len());
        assert("Default Load Page Fault Handler"@ != "Enhanced Load Page Fault Handler"@);
        reveal_strlit("Default Store Page Fault Handler");
        reveal_strlit("Enhanced Store Page Fault Handler");
        assert("Default Store Page Fault Handler"@.len() != "Enhanced Store Page Fault Handler"@.len());
        assert("Default Store Page Fault Handler"@ != "Enhanced Store Page Fault Handler"@);
        reveal_strlit("Default Illegal Instruction Handler");
        reveal_strlit("Enhanced Illegal Instruction Handler");
        assert("Default Illegal Instruction Handler"@.len() != "Enhanced Illegal Instruction Handler"@.len());
        assert("Default Illegal Instruction Handler"@ != "Enhanced Illegal Instruction Handler"@);
        reveal_strlit("Default Breakpoint Handler");
        reveal_strlit("Enhanced Breakpoint Handler");
        assert("Default Breakpoint Handler"@.len() != "Enhanced Breakpoint Handler"@.len());
        assert("Default Breakpoint Handler"@ != "Enhanced Breakpoint Handler"@);
        reveal_strlit("Default Unknown Handler");
        reveal_strlit("Enhanced Unknown Exception Handler");
        assert("Default Unknown Handler"@.len() != "Enhanced Unknown Exception Handler"@.len());
        assert("Default Unknown Handler"@ != "Enhanced Unknown Exception Handler"@);
    }
    let mut count: usize = 0;
    count = count + register_enhanced(sys, TrapType::InstructionPageFault,
        TrapHandler::FaultDiagnose, "Enhanced Instruction Page Fault Handler");
    count = count + register_enhanced(sys, TrapType::LoadPageFault, TrapHandler::FaultDiagnose,
        "Enhanced Load Page Fault Handler");
    count = count + register_enhanced(sys, TrapType::StorePageFault, TrapHandler::FaultDiagnose,
        "Enhanced Store Page Fault Handler");
    count = count + register_enhanced(sys, TrapType::IllegalInstruction,
        TrapHandler::FaultDiagnose, "Enhanced Illegal Instruction Handler");
    count = count + register_enhanced(sys, TrapType::InstructionAccessFault,
        TrapHandler::FaultDiagnose, "Enhanced Instruction Access Fault Handler");
    count = count + register_enhanced(sys, TrapType::Breakpoint, TrapHandler::AdvancePc,
        "Enhanced Breakpoint Handler");
    count = count + register_enhanced(sys, TrapType::Unknown, TrapHandler::FaultDiagnose,
        "Enhanced Unknown Exception Handler");
    count = count + register_enhanced(sys, TrapType::InstructionMisaligned,
        TrapHandler::MisalignedDiagnose, "Enhanced Instruction Misaligned Handler");
    count = count + register_enhanced(sys, TrapType::LoadMisaligned,
        TrapHandler::MisalignedDiagnose, "Enhanced Load Misaligned Handler");
    count = count + register_enhanced(sys, TrapType::StoreMisaligned,
        TrapHandler::MisalignedDiagnose, "Enhanced Store Misaligned Handler");
    count = count + register_enhanced(sys, TrapType::LoadAccessFault,
        TrapHandler::AccessFaultDiagnose, "Enhanced Load Access Fault Handler");
    count = count + register_enhanced(sys, TrapType::StoreAccessFault,
        TrapHandler::AccessFaultDiagnose, "Enhanced Store Access Fault Handler");
    count
}

/// Install one enhanced handler at the front of its row, which holds at
/// most the built-in default (whose description differs).
fn register_enhanced(
    sys: &mut TrapSystem,
    trap_type: TrapType,
    handler: TrapHandler,
    description: &str,
) -> (r: usize)
    requires
        old(sys).wf(),
        ({
            let row = old(sys).registry.row(trap_type.spec_index() as int);
            &&& row.len() <= 1
            &&& row.len() == 1 ==> row[0].entry.description@ != description@ && row[0].entry.priority
                > ENHANCED_HANDLER_PRIORITY
        }),
    ensures
        final(sys).wf(),
        r == 1,
        ({
            let t = trap_type.spec_index() as int;
            let old_row = old(sys).registry.row(t);
            let row = final(sys).registry.row(t);
            &&& row.len() == old_row.len() + 1
            &&& row[0].entry.handler == handler
            &&& row[0].entry.priority == ENHANCED_HANDLER_PRIORITY
            &&& row[0].entry.description@ == description@
            &&& row[0].entry.protection_level == ProtectionLevel::System
            &&& row[0].entry.registrar_id == SYSTEM_REGISTRAR_ID
            &&& row[0].context_id is None
            &&& forall|k: int| 1 <= k < row.len() ==> #[trigger] row[k] == old_row[k - 1]
        }),
        forall|k: int|
            0 <= k < TRAP_TYPE_COUNT && k != trap_type.spec_index()
                ==> #[trigger] final(sys).registry.row(k) == old(sys).registry.row(k),
        crate::container::spec_sibling_state(*old(sys), *final(sys)),
{
    let entry = HandlerEntry::new(handler, ENHANCED_HANDLER_PRIORITY, description);
    let registration = HandlerRegistration { entry, context_id: None };
    let ghost t = trap_type.spec_index() as int;
    let ghost row = sys.registry.row(t);
    proof {
        assert(spec_insert_pos(row, ENHANCED_HANDLER_PRIORITY) == 0);
        if row.len() == 1 {
            assert(crate::registry::spec_find_description(row.skip(1), description@) == 0);
        }
        assert(!spec_has_description(row, description@));
    }
    let ok = sys.registry.register_entry(trap_type, registration);
    proof {
        row.insert_ensures(0, registration);
    }
    if ok {
        1
    } else {
        0
    }
}

} // verus!
