use arm_psr::psr::{CpuMode, CpuState, RegPSR};

const RESERVED_BIT_MASK: u32 = 0x0fffff00;

#[test]
fn reset_state() {
    let psr = RegPSR::new();
    assert!(psr.irq_disabled());
    assert!(psr.fiq_disabled());
    assert_eq!(psr.mode(), CpuMode::Supervisor);
    assert_eq!(psr.state(), CpuState::ARM);
    assert!(!psr.N());
    assert!(!psr.Z());
    assert!(!psr.C());
    assert!(!psr.V());
    assert_eq!(psr.get() & RESERVED_BIT_MASK, 0);
    assert_eq!(psr.get(), 0xd3);
}

#[test]
fn state_write_read_round_trip() {
    for &(flag, state) in &[(false, CpuState::ARM), (true, CpuState::THUMB)] {
        let mut psr = RegPSR::new();
        psr.set_state(CpuState::from(flag));
        assert_eq!(psr.state(), state);
        let once = psr.get();
        psr.set_state(CpuState::from(flag));
        assert_eq!(psr.get(), once);
        assert_eq!(psr.state(), state);
    }
}

#[test]
fn state_bool_conversions() {
    assert_eq!(CpuState::from(false), CpuState::ARM);
    assert_eq!(CpuState::from(true), CpuState::THUMB);
    assert_eq!(bool::from(CpuState::ARM), false);
    assert_eq!(bool::from(CpuState::THUMB), true);
}

#[test]
fn set_mode_after_clear_decodes_each_mode() {
    let modes = [
        (CpuMode::User, 0b10000u32),
        (CpuMode::Fiq, 0b10001),
        (CpuMode::Irq, 0b10010),
        (CpuMode::Supervisor, 0b10011),
        (CpuMode::Abort, 0b10111),
        (CpuMode::Undefined, 0b11011),
        (CpuMode::System, 0b11111),
    ];
    for &(mode, bits) in &modes {
        let mut psr = RegPSR::new();
        let cleared = psr.get() & !0x1f;
        psr.set(cleared);
        psr.set_mode(mode);
        assert_eq!(psr.mode(), mode);
        assert_eq!(psr.get() & 0x1f, bits);
    }
}

#[test]
fn set_mode_without_clear_corrupts_the_field() {
    // The OR-based write does not replace an incompatible prior mode:
    // FIQ (0b10001) ORed with IRQ (0b10010) reads back as Supervisor
    // (0b10011), a different legal mode.
    let mut psr = RegPSR::new();
    psr.set(psr.get() & !0x1f);
    psr.set_mode(CpuMode::Fiq);
    psr.set_mode(CpuMode::Irq);
    assert_eq!(psr.get() & 0x1f, 0b10011);
    assert_eq!(psr.mode(), CpuMode::Supervisor);
}

#[test]
fn bulk_write_masks_reserved_bits() {
    let cases = [
        0xffff_ffffu32,
        0x0000_0000,
        0x0fff_ff00,
        0xa5a5_a5a5,
        0xf000_00d3,
    ];
    for &v in &cases {
        let mut psr = RegPSR::new();
        psr.set(v);
        assert_eq!(psr.get(), v & !RESERVED_BIT_MASK);
    }
}

#[test]
fn bulk_write_all_ones() {
    let mut psr = RegPSR::new();
    psr.set(0xffff_ffff);
    assert_eq!(psr.get(), 0xffff_ffff & !RESERVED_BIT_MASK);
    assert_eq!(psr.get(), 0xf000_00ff);
    // The mode field happens to end up 0b11111, the legal System code.
    assert_eq!(psr.try_mode(), Some(CpuMode::System));
}

#[test]
fn bulk_write_illegal_mode_fails_to_decode() {
    let mut psr = RegPSR::new();
    psr.set(0x0000_000a);
    assert_eq!(psr.get(), 0x0000_000a);
    assert_eq!(psr.try_mode(), None);
}

#[test]
fn flag_round_trips_all_sixteen_combinations() {
    for combo in 0u32..16 {
        let n = combo & 1 != 0;
        let z = combo & 2 != 0;
        let c = combo & 4 != 0;
        let v = combo & 8 != 0;
        let mut psr = RegPSR::new();
        psr.set_N(n);
        psr.set_Z(z);
        psr.set_C(c);
        psr.set_V(v);
        assert_eq!(psr.N(), n);
        assert_eq!(psr.Z(), z);
        assert_eq!(psr.C(), c);
        assert_eq!(psr.V(), v);
        // Everything outside bits 28-31 is still the reset value.
        assert_eq!(psr.get() & 0x0fff_ffff, 0xd3);

        // Toggling each flag there and back leaves the word as it was.
        let before = psr.get();
        psr.set_N(!n);
        assert_eq!(psr.N(), !n);
        psr.set_N(n);
        psr.set_Z(!z);
        assert_eq!(psr.Z(), !z);
        psr.set_Z(z);
        psr.set_C(!c);
        assert_eq!(psr.C(), !c);
        psr.set_C(c);
        psr.set_V(!v);
        assert_eq!(psr.V(), !v);
        psr.set_V(v);
        assert_eq!(psr.get(), before);
    }
}

#[test]
fn flag_writes_leave_other_fields_alone() {
    let mut psr = RegPSR::new();
    psr.set_N(true);
    psr.set_C(true);
    assert_eq!(psr.get(), 0xd3 | (1 << 31) | (1 << 29));
    assert_eq!(psr.mode(), CpuMode::Supervisor);
    assert_eq!(psr.state(), CpuState::ARM);
    assert!(psr.irq_disabled());
    assert!(psr.fiq_disabled());
    assert!(!psr.Z());
    assert!(!psr.V());
}

#[test]
fn interrupt_mask_round_trips() {
    let mut psr = RegPSR::new();
    psr.set_irq_disabled(false);
    assert!(!psr.irq_disabled());
    assert!(psr.fiq_disabled());
    psr.set_fiq_disabled(false);
    assert!(!psr.fiq_disabled());
    assert_eq!(psr.get(), 0x13);
    psr.set_irq_disabled(true);
    psr.set_fiq_disabled(true);
    assert_eq!(psr.get(), 0xd3);
}

#[test]
fn mode_codes_to_u32() {
    assert_eq!(CpuMode::User.to_u32(), 0b10000);
    assert_eq!(CpuMode::Fiq.to_u32(), 0b10001);
    assert_eq!(CpuMode::Irq.to_u32(), 0b10010);
    assert_eq!(CpuMode::Supervisor.to_u32(), 0b10011);
    assert_eq!(CpuMode::Abort.to_u32(), 0b10111);
    assert_eq!(CpuMode::Undefined.to_u32(), 0b11011);
    assert_eq!(CpuMode::System.to_u32(), 0b11111);
}

#[test]
fn mode_decode_is_checked() {
    assert_eq!(CpuMode::from_u32(0b10000), Some(CpuMode::User));
    assert_eq!(CpuMode::from_u32(0b10001), Some(CpuMode::Fiq));
    assert_eq!(CpuMode::from_u32(0b10010), Some(CpuMode::Irq));
    assert_eq!(CpuMode::from_u32(0b10011), Some(CpuMode::Supervisor));
    assert_eq!(CpuMode::from_u32(0b10111), Some(CpuMode::Abort));
    assert_eq!(CpuMode::from_u32(0b11011), Some(CpuMode::Undefined));
    assert_eq!(CpuMode::from_u32(0b11111), Some(CpuMode::System));
    assert_eq!(CpuMode::from_u32(0b01010), None);
    assert_eq!(CpuMode::from_u32(0b00000), None);
    assert_eq!(CpuMode::from_u32(0b10100), None);
    assert_eq!(CpuMode::from_u32(0x20), None);
    assert_eq!(CpuMode::from_u32(0xffff_ffff), None);
}

#[test]
fn set_then_accessors_agree_with_bits() {
    let mut psr = RegPSR::new();
    psr.set(0xf000_0073);
    assert!(psr.N());
    assert!(psr.Z());
    assert!(psr.C());
    assert!(psr.V());
    assert!(!psr.irq_disabled());
    assert!(psr.fiq_disabled());
    assert_eq!(psr.state(), CpuState::THUMB);
    assert_eq!(psr.mode(), CpuMode::Supervisor);
}
