//! Plain-text rendering of the register for logs and debuggers.
//!
//! The summary lists the mode mnemonic, the instruction-set state, the
//! two interrupt masks as "enabled"/"disabled", and the four condition
//! flags as single bits, in that order. It is a diagnostic aid, not a
//! machine-parseable serialization.

use vstd::prelude::*;
use vstd::string::StringExecFns;

use crate::psr::CpuMode;
use crate::psr::CpuState;
use crate::psr::RegPSR;
use crate::psr::MODE_MASK;
use crate::psr::spec_mode_from_bits;

verus! {

/// The three-letter architectural mnemonic of a mode.
pub open spec fn spec_mode_name(m: CpuMode) -> Seq<char> {
    match m {
        CpuMode::User => "USR"@,
        CpuMode::Fiq => "FIQ"@,
        CpuMode::Irq => "IRQ"@,
        CpuMode::Supervisor => "SVC"@,
        CpuMode::Abort => "ABT"@,
        CpuMode::Undefined => "UND"@,
        CpuMode::System => "SYS"@,
    }
}

/// The name of an instruction-set state.
pub open spec fn spec_state_name(s: CpuState) -> Seq<char> {
    match s {
        CpuState::ARM => "ARM"@,
        CpuState::THUMB => "THUMB"@,
    }
}

/// How an interrupt mask reads: "disabled" when the mask bit is set.
pub open spec fn spec_disabled_name(disabled: bool) -> Seq<char> {
    if disabled {
        "disabled"@
    } else {
        "enabled"@
    }
}

/// A condition flag as the single bit it holds.
pub open spec fn spec_flag_digit(flag: bool) -> Seq<char> {
    if flag {
        "1"@
    } else {
        "0"@
    }
}

/// The whole summary line for a register word whose mode field decodes.
pub open spec fn spec_render(raw: u32) -> Seq<char>
    recommends
        spec_mode_from_bits(raw & MODE_MASK) is Some,
{
    "{ mode: "@ + spec_mode_name(spec_mode_from_bits(raw & MODE_MASK).unwrap()) + ", state: "@
        + spec_state_name(crate::psr::spec_state(raw)) + ", irq: "@
        + spec_disabled_name(crate::psr::spec_irq_disabled(raw)) + ", fiq: "@
        + spec_disabled_name(crate::psr::spec_fiq_disabled(raw)) + ", condition_flags: (N="@
        + spec_flag_digit(crate::psr::spec_n(raw)) + " Z="@
        + spec_flag_digit(crate::psr::spec_z(raw)) + " C="@
        + spec_flag_digit(crate::psr::spec_c(raw)) + " V="@
        + spec_flag_digit(crate::psr::spec_v(raw)) + ") }"@
}

impl CpuMode {
    /// The three-letter architectural mnemonic of this mode.
    pub fn name(&self) -> (r: &'static str)
        ensures
            r@ == spec_mode_name(*self),
    {
        match self {
            CpuMode::User => "USR",
            CpuMode::Fiq => "FIQ",
            CpuMode::Irq => "IRQ",
            CpuMode::Supervisor => "SVC",
            CpuMode::Abort => "ABT",
            CpuMode::Undefined => "UND",
            CpuMode::System => "SYS",
        }
    }
}

impl CpuState {
    /// The name of this instruction-set state.
    pub fn name(&self) -> (r: &'static str)
        ensures
            r@ == spec_state_name(*self),
    {
        match self {
            CpuState::ARM => "ARM",
            CpuState::THUMB => "THUMB",
        }
    }
}

/// How an interrupt mask reads in the summary line.
pub fn disabled_name(disabled: bool) -> (r: &'static str)
    ensures
        r@ == spec_disabled_name(disabled),
{
    if disabled {
        "disabled"
    } else {
        "enabled"
    }
}

/// A condition flag as the single bit it holds.
pub fn flag_digit(flag: bool) -> (r: &'static str)
    ensures
        r@ == spec_flag_digit(flag),
{
    if flag {
        "1"
    } else {
        "0"
    }
}

impl RegPSR {
    /// The human-readable summary of every field of this register.
    /// The mode field must decode: a register whose field may be corrupt
    /// is checked with `try_mode` before it is rendered.
    pub fn render(&self) -> (r: String)
        requires
            spec_mode_from_bits(self@ & MODE_MASK) is Some,
        ensures
            r@ == spec_render(self@),
    {
        let mode = self.mode();
        let state = self.state();
        let mut s = String::new();
        s.append("{ mode: ");
        s.append(mode.name());
        s.append(", state: ");
        s.append(state.name());
        s.append(", irq: ");
        s.append(disabled_name(self.irq_disabled()));
        s.append(", fiq: ");
        s.append(disabled_name(self.fiq_disabled()));
        s.append(", condition_flags: (N=");
        s.append(flag_digit(self.N()));
        s.append(" Z=");
        s.append(flag_digit(self.Z()));
        s.append(" C=");
        s.append(flag_digit(self.C()));
        s.append(" V=");
        s.append(flag_digit(self.V()));
        s.append(") }");
        proof {
            assert(s@ =~= spec_render(self@));
        }
        s
    }
}

} // verus!
