//! Register-snapshot layouts: the full trap context saved on every trap and
//! the minimal callee-saved task context used for cooperative switching.

use vstd::prelude::*;
use crate::types::TrapCause;

verus! {

/// The `SPP` bit of the status register: previous privilege level.
pub const STATUS_SPP_BIT: usize = 1usize << 8;

/// The `SPIE` bit of the status register: previous interrupt-enable state.
pub const STATUS_SPIE_BIT: usize = 1usize << 5;

/// Full privileged snapshot: all 32 general registers plus the status,
/// exception-program-counter, cause and faulting-value registers. One is
/// saved at trap entry, may be edited by handlers (for instance to advance
/// the program counter past a system call), and is consumed by the restore
/// path.
#[derive(Debug, Clone)]
pub struct TrapContext {
    /// General-purpose registers `x0` .. `x31`.
    pub x: [usize; 32],
    /// Status register at the time of the trap.
    pub sstatus: usize,
    /// Exception program counter: where execution resumes.
    pub sepc: usize,
    /// Raw trap cause value.
    pub scause: usize,
    /// Faulting address or value, when the cause provides one.
    pub stval: usize,
}

/// Mathematical model of a `TrapContext`: the register file as a sequence
/// plus the four privileged registers.
pub ghost struct TrapSnap {
    pub x: Seq<usize>,
    pub sstatus: usize,
    pub sepc: usize,
    pub scause: usize,
    pub stval: usize,
}

impl View for TrapContext {
    type V = TrapSnap;

    open spec fn view(&self) -> TrapSnap {
        TrapSnap {
            x: self.x@,
            sstatus: self.sstatus,
            sepc: self.sepc,
            scause: self.scause,
            stval: self.stval,
        }
    }
}

/// The model of a freshly zeroed snapshot: every register zero.
pub open spec fn spec_zeroed_context() -> TrapSnap {
    TrapSnap { x: Seq::new(32, |i: int| 0usize), sstatus: 0, sepc: 0, scause: 0, stval: 0 }
}

impl TrapContext {
    /// A zeroed snapshot.
    pub fn new() -> (r: TrapContext)
        ensures
            r@ == spec_zeroed_context(),
    {
        let ctx = TrapContext { x: [0; 32], sstatus: 0, sepc: 0, scause: 0, stval: 0 };
        proof {
            assert(ctx.x@ =~= Seq::<usize>::new(32, |i: int| 0usize));
        }
        ctx
    }

    /// The trap cause recorded in this snapshot.
    pub fn get_cause(&self) -> (r: TrapCause)
        ensures
            r.spec_bits() == self.scause,
    {
        TrapCause::from_bits(self.scause)
    }

    /// Point the resume address at `addr`.
    pub fn set_return_addr(&mut self, addr: usize)
        ensures
            final(self)@ == (TrapSnap { sepc: addr, ..old(self)@ }),
    {
        self.sepc = addr;
    }
}

/// Minimal snapshot for cooperative task switching: return address, stack
/// pointer, and the twelve callee-saved registers. Only the context-switch
/// primitive mutates one.
#[derive(Debug, Clone)]
pub struct TaskContext {
    /// Return address used when the task is next switched to.
    pub ra: usize,
    /// Stack pointer.
    pub sp: usize,
    /// Callee-saved registers `s0` .. `s11`.
    pub s: [usize; 12],
}

impl TaskContext {
    /// A zeroed task context.
    pub fn new() -> (r: TaskContext)
        ensures
            r.ra == 0,
            r.sp == 0,
            r.s@ == Seq::<usize>::new(12, |i: int| 0usize),
    {
        let ctx = TaskContext { ra: 0, sp: 0, s: [0; 12] };
        proof {
            assert(ctx.s@ =~= Seq::<usize>::new(12, |i: int| 0usize));
        }
        ctx
    }

    /// A context that starts the task at `entry_point` on the given stack.
    pub fn new_for_task(entry_point: usize, stack_top: usize) -> (r: TaskContext)
        ensures
            r.ra == entry_point,
            r.sp == stack_top,
            r.s@ == Seq::<usize>::new(12, |i: int| 0usize),
    {
        let mut ctx = TaskContext::new();
        ctx.ra = entry_point;
        ctx.sp = stack_top;
        ctx
    }

    /// The stack pointer.
    pub fn get_sp(&self) -> (r: usize)
        ensures
            r == self.sp,
    {
        self.sp
    }

    /// Replace the stack pointer.
    pub fn set_sp(&mut self, sp: usize)
        ensures
            *final(self) == (TaskContext { sp, ..*old(self) }),
    {
        self.sp = sp;
    }

    /// The return address.
    pub fn get_ra(&self) -> (r: usize)
        ensures
            r == self.ra,
    {
        self.ra
    }

    /// Replace the return address.
    pub fn set_ra(&mut self, ra: usize)
        ensures
            *final(self) == (TaskContext { ra, ..*old(self) }),
    {
        self.ra = ra;
    }
}

/// The status-register value a fresh task starts with: previous privilege
/// forced to user (`SPP` cleared) and interrupts enabled on entry (`SPIE`
/// set), starting from the caller's current status value.
pub open spec fn spec_task_entry_status(current_status: usize) -> usize {
    (current_status & !STATUS_SPP_BIT) | STATUS_SPIE_BIT
}

/// Build a trap context primed to begin executing `entry` on `user_stack`
/// in user mode with interrupts enabled. `current_status` is the caller's
/// live status-register value, from which the privilege and interrupt bits
/// are derived. The kernel stack and page-table base accompany the snapshot
/// for the switch path; this layout leaves them to the restore code, as the
/// snapshot itself has no slot for them.
pub fn prepare_task_context(
    entry: usize,
    user_stack: usize,
    kernel_stack: usize,
    satp: usize,
    current_status: usize,
) -> (r: TrapContext)
    ensures
        r.x@ == Seq::<usize>::new(32, |i: int| 0usize).update(2, user_stack).update(1, entry),
        r.sepc == entry,
        r.sstatus == spec_task_entry_status(current_status),
        r.scause == 0,
        r.stval == 0,
{
    let mut ctx = TrapContext::new();
    // x2 is the stack pointer, x1 the return address.
    ctx.x[2] = user_stack;
    ctx.x[1] = entry;
    ctx.sstatus = (current_status & !STATUS_SPP_BIT) | STATUS_SPIE_BIT;
    ctx.sepc = entry;
    ctx.scause = 0;
    ctx.stval = 0;
    ctx
}

} // verus!
