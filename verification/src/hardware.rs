//! Model of the privileged interrupt-control state: the global
//! interrupt-enable bit, the per-source enable and pending bits, and the
//! trap-vector base register.
//!
//! The kernel tracks this state as plain values and proves every
//! transition; the surrounding binary applies each transition to the real
//! control registers. The save/restore idiom for the global enable bit —
//! each toggle returns the previous state, and restore re-enables only if
//! the saved flag was true — is stated exactly here.

use vstd::prelude::*;
use crate::types::{Interrupt, TrapMode};

verus! {

/// The interrupt-control register state the kernel mirrors.
#[derive(Debug, Copy, Clone, PartialEq, Eq, Structural)]
pub struct HardwareControl {
    /// Global supervisor interrupt-enable bit.
    pub interrupts_enabled: bool,
    /// Software-interrupt enable bit.
    pub soft_enabled: bool,
    /// Timer-interrupt enable bit.
    pub timer_enabled: bool,
    /// External-interrupt enable bit.
    pub external_enabled: bool,
    /// Software-interrupt pending bit.
    pub soft_pending: bool,
    /// Timer-interrupt pending bit.
    pub timer_pending: bool,
    /// External-interrupt pending bit.
    pub external_pending: bool,
    /// Trap-vector base register: entry address with the mode selector in
    /// its low two bits.
    pub trap_vector: usize,
}

/// The value written into the trap-vector register: the entry address
/// aligned down to a four-byte boundary, with the mode selector in the
/// low two bits.
pub open spec fn spec_trap_vector_value(entry: usize, mode: TrapMode) -> usize {
    (entry & !3usize) | mode.spec_selector()
}

impl HardwareControl {
    /// The reset state: everything disabled, nothing pending, no vector.
    pub fn new() -> (r: HardwareControl)
        ensures
            r == (HardwareControl {
                interrupts_enabled: false,
                soft_enabled: false,
                timer_enabled: false,
                external_enabled: false,
                soft_pending: false,
                timer_pending: false,
                external_pending: false,
                trap_vector: 0,
            }),
    {
        HardwareControl {
            interrupts_enabled: false,
            soft_enabled: false,
            timer_enabled: false,
            external_enabled: false,
            soft_pending: false,
            timer_pending: false,
            external_pending: false,
            trap_vector: 0,
        }
    }

    /// Point the trap-vector register at `entry` with the given mode: the
    /// address is aligned down to four bytes and the mode selector takes
    /// the low two bits.
    pub fn init_trap_vector(&mut self, entry: usize, mode: TrapMode)
        ensures
            *final(self) == (HardwareControl {
                trap_vector: spec_trap_vector_value(entry, mode),
                ..*old(self)
            }),
    {
        self.trap_vector = (entry & !3usize) | mode.selector();
    }

    /// Set the global interrupt-enable bit; returns its previous state so
    /// the caller can later restore it.
    pub fn enable_interrupts(&mut self) -> (r: bool)
        ensures
            r == old(self).interrupts_enabled,
            *final(self) == (HardwareControl { interrupts_enabled: true, ..*old(self) }),
    {
        let was = self.interrupts_enabled;
        self.interrupts_enabled = true;
        was
    }

    /// Clear the global interrupt-enable bit; returns its previous state.
    pub fn disable_interrupts(&mut self) -> (r: bool)
        ensures
            r == old(self).interrupts_enabled,
            *final(self) == (HardwareControl { interrupts_enabled: false, ..*old(self) }),
    {
        let was = self.interrupts_enabled;
        self.interrupts_enabled = false;
        was
    }

    /// Re-enable interrupts only if the saved flag says they were enabled;
    /// never toggles them off, and never turns them on unasked.
    pub fn restore_interrupts(&mut self, was_enabled: bool)
        ensures
            *final(self) == (HardwareControl {
                interrupts_enabled: old(self).interrupts_enabled || was_enabled,
                ..*old(self)
            }),
    {
        if was_enabled {
            self.interrupts_enabled = true;
        }
    }

    /// Which enable bit an interrupt source owns.
    pub open spec fn spec_source_enabled(&self, interrupt: Interrupt) -> bool {
        match interrupt {
            Interrupt::SupervisorSoft => self.soft_enabled,
            Interrupt::SupervisorTimer => self.timer_enabled,
            Interrupt::SupervisorExternal => self.external_enabled,
        }
    }

    /// Which pending bit an interrupt source owns.
    pub open spec fn spec_source_pending(&self, interrupt: Interrupt) -> bool {
        match interrupt {
            Interrupt::SupervisorSoft => self.soft_pending,
            Interrupt::SupervisorTimer => self.timer_pending,
            Interrupt::SupervisorExternal => self.external_pending,
        }
    }

    /// Set one source's enable bit.
    pub fn enable_interrupt(&mut self, interrupt: Interrupt)
        ensures
            final(self).spec_source_enabled(interrupt) == true,
            final(self).interrupts_enabled == old(self).interrupts_enabled,
            final(self).trap_vector == old(self).trap_vector,
            forall|other: Interrupt|
                other != interrupt ==> #[trigger] final(self).spec_source_enabled(other) == old(
                    self,
                ).spec_source_enabled(other),
            forall|other: Interrupt| #[trigger]
                final(self).spec_source_pending(other) == old(self).spec_source_pending(other),
    {
        match interrupt {
            Interrupt::SupervisorSoft => self.soft_enabled = true,
            Interrupt::SupervisorTimer => self.timer_enabled = true,
            Interrupt::SupervisorExternal => self.external_enabled = true,
        }
    }

    /// Clear one source's enable bit.
    pub fn disable_interrupt(&mut self, interrupt: Interrupt)
        ensures
            final(self).spec_source_enabled(interrupt) == false,
            final(self).interrupts_enabled == old(self).interrupts_enabled,
            final(self).trap_vector == old(self).trap_vector,
            forall|other: Interrupt|
                other != interrupt ==> #[trigger] final(self).spec_source_enabled(other) == old(
                    self,
                ).spec_source_enabled(other),
            forall|other: Interrupt| #[trigger]
                final(self).spec_source_pending(other) == old(self).spec_source_pending(other),
    {
        match interrupt {
            Interrupt::SupervisorSoft => self.soft_enabled = false,
            Interrupt::SupervisorTimer => self.timer_enabled = false,
            Interrupt::SupervisorExternal => self.external_enabled = false,
        }
    }

    /// Whether one source's enable bit is set.
    pub fn is_interrupt_enabled(&self, interrupt: Interrupt) -> (r: bool)
        ensures
            r == self.spec_source_enabled(interrupt),
    {
        match interrupt {
            Interrupt::SupervisorSoft => self.soft_enabled,
            Interrupt::SupervisorTimer => self.timer_enabled,
            Interrupt::SupervisorExternal => self.external_enabled,
        }
    }

    /// Whether one source's pending bit is set.
    pub fn is_interrupt_pending(&self, interrupt: Interrupt) -> (r: bool)
        ensures
            r == self.spec_source_pending(interrupt),
    {
        match interrupt {
            Interrupt::SupervisorSoft => self.soft_pending,
            Interrupt::SupervisorTimer => self.timer_pending,
            Interrupt::SupervisorExternal => self.external_pending,
        }
    }

    /// Raise the software-interrupt pending bit (inter-context signal).
    pub fn set_soft_interrupt(&mut self)
        ensures
            *final(self) == (HardwareControl { soft_pending: true, ..*old(self) }),
    {
        self.soft_pending = true;
    }

    /// Clear the software-interrupt pending bit.
    pub fn clear_soft_interrupt(&mut self)
        ensures
            *final(self) == (HardwareControl { soft_pending: false, ..*old(self) }),
    {
        self.soft_pending = false;
    }
}

/// Disable then restore returns the enable bit to its starting state: the
/// classic save/restore idiom is an identity on the model.
pub proof fn lemma_interrupt_save_restore(hw: HardwareControl)
    ensures
        ({
            let disabled = HardwareControl { interrupts_enabled: false, ..hw };
            let restored = HardwareControl {
                interrupts_enabled: disabled.interrupts_enabled || hw.interrupts_enabled,
                ..disabled
            };
            restored == hw
        }),
{
}

} // verus!
