use trap_core::types::{TrapCause, TrapMode, TrapType, Interrupt, Exception, TRAP_TYPE_COUNT};

const INTERRUPT_BIT: usize = 1usize << (usize::BITS - 1);

#[test]
fn interrupt_causes_decode() {
    assert_eq!(TrapCause::from_bits(INTERRUPT_BIT | 5).to_trap_type(), TrapType::TimerInterrupt);
    assert_eq!(TrapCause::from_bits(INTERRUPT_BIT | 9).to_trap_type(), TrapType::ExternalInterrupt);
    assert_eq!(TrapCause::from_bits(INTERRUPT_BIT | 1).to_trap_type(), TrapType::SoftwareInterrupt);
    assert_eq!(TrapCause::from_bits(INTERRUPT_BIT | 2).to_trap_type(), TrapType::Unknown);
}

#[test]
fn exception_causes_decode() {
    assert_eq!(TrapCause::from_bits(8).to_trap_type(), TrapType::SystemCall);
    assert_eq!(TrapCause::from_bits(12).to_trap_type(), TrapType::InstructionPageFault);
    assert_eq!(TrapCause::from_bits(13).to_trap_type(), TrapType::LoadPageFault);
    assert_eq!(TrapCause::from_bits(15).to_trap_type(), TrapType::StorePageFault);
    assert_eq!(TrapCause::from_bits(0).to_trap_type(), TrapType::InstructionMisaligned);
    assert_eq!(TrapCause::from_bits(1).to_trap_type(), TrapType::InstructionAccessFault);
    assert_eq!(TrapCause::from_bits(2).to_trap_type(), TrapType::IllegalInstruction);
    assert_eq!(TrapCause::from_bits(3).to_trap_type(), TrapType::Breakpoint);
    assert_eq!(TrapCause::from_bits(4).to_trap_type(), TrapType::LoadMisaligned);
    assert_eq!(TrapCause::from_bits(5).to_trap_type(), TrapType::LoadAccessFault);
    assert_eq!(TrapCause::from_bits(6).to_trap_type(), TrapType::StoreMisaligned);
    assert_eq!(TrapCause::from_bits(7).to_trap_type(), TrapType::StoreAccessFault);
    assert_eq!(TrapCause::from_bits(11).to_trap_type(), TrapType::Unknown);
}

#[test]
fn cause_fields() {
    let c = TrapCause::from_bits(INTERRUPT_BIT | 5);
    assert!(c.is_interrupt());
    assert_eq!(c.code(), 5);
    assert_eq!(c.bits(), INTERRUPT_BIT | 5);
    let e = TrapCause::from_bits(8);
    assert!(!e.is_interrupt());
    assert_eq!(e.code(), 8);
}

#[test]
fn decoding_is_pure() {
    // The mapping is total and pure: the same raw cause twice gives the
    // same trap type.
    for bits in [0usize, 1, 5, 8, 100, INTERRUPT_BIT | 1, INTERRUPT_BIT | 7] {
        let a = TrapCause::from_bits(bits).to_trap_type();
        let b = TrapCause::from_bits(bits).to_trap_type();
        assert_eq!(a, b);
    }
}

#[test]
fn index_roundtrip() {
    for i in 0..TRAP_TYPE_COUNT {
        let t = TrapType::from_index(i);
        assert_eq!(t.index(), i);
    }
    assert_eq!(TrapType::from_index(99), TrapType::Unknown);
}

#[test]
fn selectors_and_numbers() {
    assert_eq!(TrapMode::Direct.selector(), 0);
    assert_eq!(TrapMode::Vectored.selector(), 1);
    assert_eq!(Interrupt::SupervisorSoft.number(), 1);
    assert_eq!(Interrupt::SupervisorTimer.number(), 5);
    assert_eq!(Interrupt::SupervisorExternal.number(), 9);
    assert_eq!(Exception::UserEnvCall.number(), 8);
    assert_eq!(Exception::StorePageFault.number(), 15);
}
