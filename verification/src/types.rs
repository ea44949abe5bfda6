//! Trap classification: modes, interrupt and exception numbers, and the
//! decoding of a raw cause value into a `TrapType`.

use vstd::prelude::*;

verus! {

/// How the trap-vector base register routes traps.
#[derive(Debug, Copy, Clone, PartialEq, Eq, Structural)]
pub enum TrapMode {
    /// All traps enter through one shared handler.
    Direct,
    /// Reserved: distinct entry per cause (not required to differ here).
    Vectored,
}

impl TrapMode {
    /// The two-bit mode selector written into the trap-vector register.
    pub fn selector(&self) -> (r: usize)
        ensures
            r == self.spec_selector(),
    {
        match self {
            TrapMode::Direct => 0,
            TrapMode::Vectored => 1,
        }
    }

    /// Mode selector value: `Direct` is 0, `Vectored` is 1.
    pub open spec fn spec_selector(&self) -> usize {
        match self {
            TrapMode::Direct => 0,
            TrapMode::Vectored => 1,
        }
    }
}

/// Supervisor-level interrupt sources.
#[derive(Debug, Copy, Clone, PartialEq, Eq, Structural)]
pub enum Interrupt {
    SupervisorSoft,
    SupervisorTimer,
    SupervisorExternal,
}

impl Interrupt {
    /// The interrupt cause number as the hardware reports it.
    pub fn number(&self) -> (r: usize)
        ensures
            r == self.spec_number(),
    {
        match self {
            Interrupt::SupervisorSoft => 1,
            Interrupt::SupervisorTimer => 5,
            Interrupt::SupervisorExternal => 9,
        }
    }

    /// Cause numbers: soft is 1, timer is 5, external is 9.
    pub open spec fn spec_number(&self) -> usize {
        match self {
            Interrupt::SupervisorSoft => 1,
            Interrupt::SupervisorTimer => 5,
            Interrupt::SupervisorExternal => 9,
        }
    }
}

/// Synchronous exception causes.
#[derive(Debug, Copy, Clone, PartialEq, Eq, Structural)]
pub enum Exception {
    InstructionMisaligned,
    InstructionFault,
    IllegalInstruction,
    Breakpoint,
    LoadMisaligned,
    LoadFault,
    StoreMisaligned,
    StoreFault,
    UserEnvCall,
    SupervisorEnvCall,
    InstructionPageFault,
    LoadPageFault,
    StorePageFault,
}

impl Exception {
    /// The exception cause number as the hardware reports it.
    pub fn number(&self) -> (r: usize)
        ensures
            r == self.spec_number(),
    {
        match self {
            Exception::InstructionMisaligned => 0,
            Exception::InstructionFault => 1,
            Exception::IllegalInstruction => 2,
            Exception::Breakpoint => 3,
            Exception::LoadMisaligned => 4,
            Exception::LoadFault => 5,
            Exception::StoreMisaligned => 6,
            Exception::StoreFault => 7,
            Exception::UserEnvCall => 8,
            Exception::SupervisorEnvCall => 9,
            Exception::InstructionPageFault => 12,
            Exception::LoadPageFault => 13,
            Exception::StorePageFault => 15,
        }
    }

    /// Cause numbers of the exceptions, per the privileged specification.
    pub open spec fn spec_number(&self) -> usize {
        match self {
            Exception::InstructionMisaligned => 0,
            Exception::InstructionFault => 1,
            Exception::IllegalInstruction => 2,
            Exception::Breakpoint => 3,
            Exception::LoadMisaligned => 4,
            Exception::LoadFault => 5,
            Exception::StoreMisaligned => 6,
            Exception::StoreFault => 7,
            Exception::UserEnvCall => 8,
            Exception::SupervisorEnvCall => 9,
            Exception::InstructionPageFault => 12,
            Exception::LoadPageFault => 13,
            Exception::StorePageFault => 15,
        }
    }
}

/// Every kind of trap the dispatcher distinguishes. Unmapped cause values
/// decode to `Unknown`.
#[derive(Debug, Copy, Clone, PartialEq, Eq, Structural)]
pub enum TrapType {
    TimerInterrupt,
    ExternalInterrupt,
    SoftwareInterrupt,
    SystemCall,
    InstructionPageFault,
    LoadPageFault,
    StorePageFault,
    InstructionAccessFault,
    IllegalInstruction,
    Breakpoint,
    InstructionMisaligned,
    LoadMisaligned,
    StoreMisaligned,
    LoadAccessFault,
    StoreAccessFault,
    Unknown,
}

/// Number of distinct trap types, `Unknown` included; each owns one row of
/// the handler registry.
pub const TRAP_TYPE_COUNT: usize = 16;

impl TrapType {
    /// The registry row this trap type owns.
    pub fn index(&self) -> (r: usize)
        ensures
            r == self.spec_index(),
            r < TRAP_TYPE_COUNT,
    {
        match self {
            TrapType::TimerInterrupt => 0,
            TrapType::ExternalInterrupt => 1,
            TrapType::SoftwareInterrupt => 2,
            TrapType::SystemCall => 3,
            TrapType::InstructionPageFault => 4,
            TrapType::LoadPageFault => 5,
            TrapType::StorePageFault => 6,
            TrapType::InstructionAccessFault => 7,
            TrapType::IllegalInstruction => 8,
            TrapType::Breakpoint => 9,
            TrapType::InstructionMisaligned => 10,
            TrapType::LoadMisaligned => 11,
            TrapType::StoreMisaligned => 12,
            TrapType::LoadAccessFault => 13,
            TrapType::StoreAccessFault => 14,
            TrapType::Unknown => 15,
        }
    }

    /// Each trap type's registry row, a bijection onto `0 .. TRAP_TYPE_COUNT`.
    pub open spec fn spec_index(&self) -> usize {
        match self {
            TrapType::TimerInterrupt => 0,
            TrapType::ExternalInterrupt => 1,
            TrapType::SoftwareInterrupt => 2,
            TrapType::SystemCall => 3,
            TrapType::InstructionPageFault => 4,
            TrapType::LoadPageFault => 5,
            TrapType::StorePageFault => 6,
            TrapType::InstructionAccessFault => 7,
            TrapType::IllegalInstruction => 8,
            TrapType::Breakpoint => 9,
            TrapType::InstructionMisaligned => 10,
            TrapType::LoadMisaligned => 11,
            TrapType::StoreMisaligned => 12,
            TrapType::LoadAccessFault => 13,
            TrapType::StoreAccessFault => 14,
            TrapType::Unknown => 15,
        }
    }

    /// Inverse of `index`; indices at or past `TRAP_TYPE_COUNT` give `Unknown`.
    pub fn from_index(index: usize) -> (r: TrapType)
        ensures
            r == TrapType::spec_from_index(index),
    {
        match index {
            0 => TrapType::TimerInterrupt,
            1 => TrapType::ExternalInterrupt,
            2 => TrapType::SoftwareInterrupt,
            3 => TrapType::SystemCall,
            4 => TrapType::InstructionPageFault,
            5 => TrapType::LoadPageFault,
            6 => TrapType::StorePageFault,
            7 => TrapType::InstructionAccessFault,
            8 => TrapType::IllegalInstruction,
            9 => TrapType::Breakpoint,
            10 => TrapType::InstructionMisaligned,
            11 => TrapType::LoadMisaligned,
            12 => TrapType::StoreMisaligned,
            13 => TrapType::LoadAccessFault,
            14 => TrapType::StoreAccessFault,
            _ => TrapType::Unknown,
        }
    }

    /// Decoding of a registry row back to its trap type.
    pub open spec fn spec_from_index(index: usize) -> TrapType {
        if index == 0 {
            TrapType::TimerInterrupt
        } else if index == 1 {
            TrapType::ExternalInterrupt
        } else if index == 2 {
            TrapType::SoftwareInterrupt
        } else if index == 3 {
            TrapType::SystemCall
        } else if index == 4 {
            TrapType::InstructionPageFault
        } else if index == 5 {
            TrapType::LoadPageFault
        } else if index == 6 {
            TrapType::StorePageFault
        } else if index == 7 {
            TrapType::InstructionAccessFault
        } else if index == 8 {
            TrapType::IllegalInstruction
        } else if index == 9 {
            TrapType::Breakpoint
        } else if index == 10 {
            TrapType::InstructionMisaligned
        } else if index == 11 {
            TrapType::LoadMisaligned
        } else if index == 12 {
            TrapType::StoreMisaligned
        } else if index == 13 {
            TrapType::LoadAccessFault
        } else if index == 14 {
            TrapType::StoreAccessFault
        } else {
            TrapType::Unknown
        }
    }
}

/// `index` and `from_index` invert each other on the trap types.
pub proof fn lemma_trap_type_index_roundtrip(t: TrapType)
    ensures
        TrapType::spec_from_index(t.spec_index()) == t,
{
}

/// The most significant bit of a raw cause value, which distinguishes an
/// interrupt from an exception.
pub const CAUSE_INTERRUPT_BIT: usize = 1usize << (usize::BITS - 1);

/// A raw trap cause value as read from the cause register: the top bit marks
/// an interrupt, the remaining bits carry the cause number.
#[derive(Debug, Copy, Clone, PartialEq, Eq, Structural)]
pub struct TrapCause {
    pub bits: usize,
}

impl TrapCause {
    /// Wrap a raw cause register value.
    pub fn from_bits(bits: usize) -> (r: TrapCause)
        ensures
            r.spec_bits() == bits,
    {
        TrapCause { bits }
    }

    /// The raw cause value.
    pub fn bits(&self) -> (r: usize)
        ensures
            r == self.spec_bits(),
    {
        self.bits
    }

    /// The raw cause value.
    pub open spec fn spec_bits(&self) -> usize {
        self.bits
    }

    /// Whether the cause reports an interrupt rather than an exception.
    pub fn is_interrupt(&self) -> (r: bool)
        ensures
            r == self.spec_is_interrupt(),
    {
        self.bits & CAUSE_INTERRUPT_BIT != 0
    }

    /// An interrupt has the top bit of the cause value set.
    pub open spec fn spec_is_interrupt(&self) -> bool {
        self.bits & CAUSE_INTERRUPT_BIT != 0
    }

    /// The cause number with the interrupt bit masked off.
    pub fn code(&self) -> (r: usize)
        ensures
            r == self.spec_code(),
    {
        self.bits & !CAUSE_INTERRUPT_BIT
    }

    /// The cause number: the raw value without its top bit.
    pub open spec fn spec_code(&self) -> usize {
        self.bits & !CAUSE_INTERRUPT_BIT
    }

    /// Decode the cause into a `TrapType`. The mapping is total and pure:
    /// the same raw cause always yields the same trap type.
    pub fn to_trap_type(&self) -> (r: TrapType)
        ensures
            r == self.spec_trap_type(),
    {
        if self.is_interrupt() {
            let code = self.code();
            if code == 5 {
                TrapType::TimerInterrupt
            } else if code == 9 {
                TrapType::ExternalInterrupt
            } else if code == 1 {
                TrapType::SoftwareInterrupt
            } else {
                TrapType::Unknown
            }
        } else {
            let code = self.code();
            if code == 8 {
                TrapType::SystemCall
            } else if code == 12 {
                TrapType::InstructionPageFault
            } else if code == 13 {
                TrapType::LoadPageFault
            } else if code == 15 {
                TrapType::StorePageFault
            } else if code == 0 {
                TrapType::InstructionMisaligned
            } else if code == 1 {
                TrapType::InstructionAccessFault
            } else if code == 2 {
                TrapType::IllegalInstruction
            } else if code == 3 {
                TrapType::Breakpoint
            } else if code == 4 {
                TrapType::LoadMisaligned
            } else if code == 5 {
                TrapType::LoadAccessFault
            } else if code == 6 {
                TrapType::StoreMisaligned
            } else if code == 7 {
                TrapType::StoreAccessFault
            } else {
                TrapType::Unknown
            }
        }
    }

    /// The fixed cause table: interrupts 1, 5, 9 map to the three interrupt
    /// types; exception codes map per the privileged specification; anything
    /// else is `Unknown`.
    pub open spec fn spec_trap_type(&self) -> TrapType {
        if self.spec_is_interrupt() {
            let code = self.spec_code();
            if code == 5 {
                TrapType::TimerInterrupt
            } else if code == 9 {
                TrapType::ExternalInterrupt
            } else if code == 1 {
                TrapType::SoftwareInterrupt
            } else {
                TrapType::Unknown
            }
        } else {
            let code = self.spec_code();
            if code == 8 {
                TrapType::SystemCall
            } else if code == 12 {
                TrapType::InstructionPageFault
            } else if code == 13 {
                TrapType::LoadPageFault
            } else if code == 15 {
                TrapType::StorePageFault
            } else if code == 0 {
                TrapType::InstructionMisaligned
            } else if code == 1 {
                TrapType::InstructionAccessFault
            } else if code == 2 {
                TrapType::IllegalInstruction
            } else if code == 3 {
                TrapType::Breakpoint
            } else if code == 4 {
                TrapType::LoadMisaligned
            } else if code == 5 {
                TrapType::LoadAccessFault
            } else if code == 6 {
                TrapType::StoreMisaligned
            } else if code == 7 {
                TrapType::StoreAccessFault
            } else {
                TrapType::Unknown
            }
        }
    }
}

} // verus!
