//! Context lifecycle management: the interrupt-nesting counter, the fixed
//! interrupt stack of saved trap contexts, and task-context construction.
//!
//! Nesting must unwind in strict last-in-first-out order: each save pushes
//! one saved context and raises the nesting level, each restore pops one
//! and lowers it, and restoring at level zero is a stack underflow.

use vstd::prelude::*;
use crate::context::{prepare_task_context, spec_task_entry_status, spec_zeroed_context, TrapContext};

verus! {

/// Context-management failures. Overflow and underflow of the nesting
/// stack are programming-logic errors, not user-recoverable faults.
#[derive(Debug, Copy, Clone, PartialEq, Eq, Structural)]
pub enum ContextError {
    /// The nesting limit, or the interrupt stack, is exhausted.
    StackOverflow,
    /// A restore arrived without a matching save.
    StackUnderflow,
    /// The supplied context is not usable.
    InvalidContext,
    /// No memory is available.
    OutOfMemory,
    /// The operation is not allowed in the current state.
    OperationNotAllowed,
}

/// The two context layouts.
#[derive(Debug, Copy, Clone, PartialEq, Eq, Structural)]
pub enum ContextType {
    /// Minimal callee-saved snapshot.
    Task,
    /// Full privileged snapshot.
    Trap,
}

/// Lifecycle states of a logical context.
#[derive(Debug, Copy, Clone, PartialEq, Eq, Structural)]
pub enum ContextState {
    Active,
    Suspended,
    Waiting,
    Terminated,
}

/// Size of the fixed interrupt stack, in bytes.
pub const INTERRUPT_STACK_SIZE: usize = 16384;

/// Bytes one full trap context occupies on the interrupt stack: 36
/// eight-byte registers (32 general plus 4 privileged).
pub const TRAP_CONTEXT_BYTES: usize = 288;

/// Bytes one task context occupies: 14 eight-byte registers (return
/// address, stack pointer, and 12 callee-saved).
pub const TASK_CONTEXT_BYTES: usize = 112;

/// Default cap on re-entrant trap depth.
pub const DEFAULT_MAX_NEST_LEVEL: usize = 8;

/// The deepest nesting level the interrupt stack itself can hold: the
/// save at level `n` writes the slot at byte offset `n` times the context
/// size, which must end within the stack.
pub const STACK_NEST_LIMIT: usize = 55;

/// Manager of trap-context nesting and task-context construction. Holds
/// the interrupt stack as the saved contexts themselves, newest on top.
pub struct ContextManager {
    /// Saved contexts of the nested traps in progress, oldest first; its
    /// length is the current nesting level.
    pub saved: Vec<TrapContext>,
    /// Maximum allowed nesting level.
    pub max_nest_level: usize,
}

impl ContextManager {
    /// Manager invariant: the nesting depth always fits the interrupt
    /// stack.
    pub open spec fn wf(&self) -> bool {
        self.saved@.len() <= STACK_NEST_LIMIT
    }

    /// The current nesting level.
    pub open spec fn spec_nest_level(&self) -> int {
        self.saved@.len() as int
    }

    /// A manager at nesting level zero with the default depth limit.
    pub fn new() -> (r: ContextManager)
        ensures
            r.wf(),
            r.spec_nest_level() == 0,
            r.max_nest_level == DEFAULT_MAX_NEST_LEVEL,
    {
        ContextManager { saved: Vec::new(), max_nest_level: DEFAULT_MAX_NEST_LEVEL }
    }

    /// The current interrupt nesting level.
    pub fn get_nest_level(&self) -> (r: usize)
        ensures
            r == self.spec_nest_level(),
    {
        self.saved.len()
    }

    /// Whether a trap is currently being handled.
    pub fn is_in_interrupt_context(&self) -> (r: bool)
        ensures
            r == (self.spec_nest_level() > 0),
    {
        self.saved.len() > 0
    }

    /// Replace the maximum allowed nesting level.
    pub fn set_max_nest_level(&mut self, level: usize)
        ensures
            *final(self) == (ContextManager { max_nest_level: level, ..*old(self) }),
    {
        self.max_nest_level = level;
    }

    /// Enter one nesting level: push a fresh saved context and return the
    /// new level. Fails with `StackOverflow`, changing nothing, when the
    /// configured limit or the interrupt stack itself is exhausted.
    pub fn save_context_for_interrupt(&mut self) -> (r: Result<usize, ContextError>)
        requires
            old(self).wf(),
        ensures
            final(self).wf(),
            final(self).max_nest_level == old(self).max_nest_level,
            if old(self).spec_nest_level() >= old(self).max_nest_level || old(
                self,
            ).spec_nest_level() >= STACK_NEST_LIMIT {
                &&& r == Result::<usize, ContextError>::Err(ContextError::StackOverflow)
                &&& final(self).saved@ == old(self).saved@
            } else {
                &&& r == Result::<usize, ContextError>::Ok(
                    (old(self).spec_nest_level() + 1) as usize,
                )
                &&& final(self).saved@.len() == old(self).saved@.len() + 1
                &&& final(self).saved@.last()@ == spec_zeroed_context()
                &&& forall|k: int|
                    0 <= k < old(self).saved@.len() ==> final(self).saved@[k] == #[trigger] old(
                        self,
                    ).saved@[k]
            },
    {
        let level = self.saved.len();
        if level >= self.max_nest_level {
            return Err(ContextError::StackOverflow);
        }
        if level >= STACK_NEST_LIMIT {
            return Err(ContextError::StackOverflow);
        }
        self.saved.push(TrapContext::new());
        Ok(self.saved.len())
    }

    /// Leave one nesting level: pop the most recent saved context and hand
    /// it back for the hardware restore. Fails with `StackUnderflow` when
    /// no save is outstanding.
    pub fn restore_context_from_interrupt(&mut self) -> (r: Result<TrapContext, ContextError>)
        requires
            old(self).wf(),
        ensures
            final(self).wf(),
            final(self).max_nest_level == old(self).max_nest_level,
            if old(self).spec_nest_level() == 0 {
                &&& r == Result::<TrapContext, ContextError>::Err(ContextError::StackUnderflow)
                &&& final(self).saved@ == old(self).saved@
            } else {
                &&& r matches Ok(ctx) && ctx == old(self).saved@.last()
                &&& final(self).saved@ == old(self).saved@.drop_last()
            },
    {
        match self.saved.pop() {
            Some(ctx) => Ok(ctx),
            None => Err(ContextError::StackUnderflow),
        }
    }

    /// Bytes a context of the given layout occupies.
    pub fn get_context_size(&self, context_type: ContextType) -> (r: usize)
        ensures
            r == (match context_type {
                ContextType::Task => TASK_CONTEXT_BYTES,
                ContextType::Trap => TRAP_CONTEXT_BYTES,
            }),
    {
        match context_type {
            ContextType::Task => TASK_CONTEXT_BYTES,
            ContextType::Trap => TRAP_CONTEXT_BYTES,
        }
    }

    /// Bytes of the interrupt stack in use, and its total size.
    pub fn get_interrupt_stack_usage(&self) -> (r: (usize, usize))
        requires
            self.wf(),
        ensures
            r.0 == self.spec_nest_level() * TRAP_CONTEXT_BYTES,
            r.1 == INTERRUPT_STACK_SIZE,
    {
        let level = self.saved.len();
        proof {
            assert(level * TRAP_CONTEXT_BYTES <= STACK_NEST_LIMIT * TRAP_CONTEXT_BYTES)
                by (nonlinear_arith)
                requires
                    level <= STACK_NEST_LIMIT,
            ;
        }
        (level * TRAP_CONTEXT_BYTES, INTERRUPT_STACK_SIZE)
    }

    /// Build a trap context primed to start a task; see
    /// `prepare_task_context`.
    pub fn create_task_context(
        &self,
        entry: usize,
        user_stack: usize,
        kernel_stack: usize,
        satp: usize,
        current_status: usize,
    ) -> (r: TrapContext)
        ensures
            r.x@ == Seq::<usize>::new(32, |i: int| 0usize).update(2, user_stack).update(1, entry),
            r.sepc == entry,
            r.sstatus == spec_task_entry_status(current_status),
            r.scause == 0,
            r.stval == 0,
    {
        prepare_task_context(entry, user_stack, kernel_stack, satp, current_status)
    }
}

} // verus!
