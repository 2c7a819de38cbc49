use arm_psr::psr::{CpuMode, CpuState, RegPSR};
use arm_psr::render::{disabled_name, flag_digit};

#[test]
fn mode_mnemonics() {
    assert_eq!(CpuMode::User.name(), "USR");
    assert_eq!(CpuMode::Fiq.name(), "FIQ");
    assert_eq!(CpuMode::Irq.name(), "IRQ");
    assert_eq!(CpuMode::Supervisor.name(), "SVC");
    assert_eq!(CpuMode::Abort.name(), "ABT");
    assert_eq!(CpuMode::Undefined.name(), "UND");
    assert_eq!(CpuMode::System.name(), "SYS");
}

#[test]
fn state_names() {
    assert_eq!(CpuState::ARM.name(), "ARM");
    assert_eq!(CpuState::THUMB.name(), "THUMB");
}

#[test]
fn interrupt_mask_names() {
    assert_eq!(disabled_name(true), "disabled");
    assert_eq!(disabled_name(false), "enabled");
}

#[test]
fn flag_digits() {
    assert_eq!(flag_digit(true), "1");
    assert_eq!(flag_digit(false), "0");
}

#[test]
fn render_reset_register() {
    let psr = RegPSR::new();
    assert_eq!(
        psr.render(),
        "{ mode: SVC, state: ARM, irq: disabled, fiq: disabled, condition_flags: (N=0 Z=0 C=0 V=0) }"
    );
}

#[test]
fn render_shows_flags_set() {
    let mut psr = RegPSR::new();
    psr.set_N(true);
    psr.set_C(true);
    assert_eq!(psr.get(), 0xd3 | (1 << 31) | (1 << 29));
    let line = psr.render();
    assert!(line.contains("condition_flags: (N=1 Z=0 C=1 V=0)"));
}

#[test]
fn render_follows_every_field() {
    let mut psr = RegPSR::new();
    psr.set(0xf000_0070);
    assert_eq!(
        psr.render(),
        "{ mode: USR, state: THUMB, irq: enabled, fiq: disabled, condition_flags: (N=1 Z=1 C=1 V=1) }"
    );
}
