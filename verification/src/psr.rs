//! The program status register and its two field enumerations.

use vstd::prelude::*;

verus! {

/// Which instruction set the core is decoding (bit 5 of the PSR).
#[derive(Debug, Clone, Copy, PartialEq, Eq)]
pub enum CpuState {
    ARM,
    THUMB,
}

/// The processor mode held in bits 0-4 of the PSR. Exactly these seven
/// five-bit patterns are architecturally defined; any other pattern in
/// the mode field is an invalid state when decoded back from raw bits.
#[derive(Debug, Clone, Copy, PartialEq, Eq)]
pub enum CpuMode {
    User,
    Fiq,
    Irq,
    Supervisor,
    Abort,
    Undefined,
    System,
}

/// Bits 8-27 of the PSR: architecturally undefined, always stored as zero.
pub const RESERVED_BIT_MASK: u32 = 0x0fffff00;

/// Bits 0-4: the processor mode field.
pub const MODE_MASK: u32 = 0x1f;

/// Bit 5: instruction-set state (0 = ARM, 1 = THUMB).
pub const STATE_BIT: u32 = 0x20;

/// Bit 6: FIQ disable (1 = disabled).
pub const FIQ_DISABLE_BIT: u32 = 0x40;

/// Bit 7: IRQ disable (1 = disabled).
pub const IRQ_DISABLE_BIT: u32 = 0x80;

/// Bit 28: overflow (V) condition flag.
pub const V_BIT: u32 = 0x1000_0000;

/// Bit 29: carry (C) condition flag.
pub const C_BIT: u32 = 0x2000_0000;

/// Bit 30: zero (Z) condition flag.
pub const Z_BIT: u32 = 0x4000_0000;

/// Bit 31: negative (N) condition flag.
pub const N_BIT: u32 = 0x8000_0000;

/// True when some bit selected by `mask` is set in `raw`.
pub open spec fn bit_is_set(raw: u32, mask: u32) -> bool {
    raw & mask != 0
}

/// `raw` with the bits selected by `mask` all set (`on`) or all cleared.
pub open spec fn with_bit(raw: u32, mask: u32, on: bool) -> u32 {
    if on {
        raw | mask
    } else {
        raw & !mask
    }
}

/// The five-bit pattern the architecture assigns to each mode.
pub open spec fn mode_bits(m: CpuMode) -> u32 {
    match m {
        CpuMode::User => 0b10000,
        CpuMode::Fiq => 0b10001,
        CpuMode::Irq => 0b10010,
        CpuMode::Supervisor => 0b10011,
        CpuMode::Abort => 0b10111,
        CpuMode::Undefined => 0b11011,
        CpuMode::System => 0b11111,
    }
}

/// Checked decode of a mode pattern: `Some` exactly on the seven legal codes.
pub open spec fn spec_mode_from_bits(bits: u32) -> Option<CpuMode> {
    if bits == 0b10000 {
        Some(CpuMode::User)
    } else if bits == 0b10001 {
        Some(CpuMode::Fiq)
    } else if bits == 0b10010 {
        Some(CpuMode::Irq)
    } else if bits == 0b10011 {
        Some(CpuMode::Supervisor)
    } else if bits == 0b10111 {
        Some(CpuMode::Abort)
    } else if bits == 0b11011 {
        Some(CpuMode::Undefined)
    } else if bits == 0b11111 {
        Some(CpuMode::System)
    } else {
        None
    }
}

/// The boolean stored in the state bit for each instruction-set state.
pub open spec fn bool_of_state(s: CpuState) -> bool {
    match s {
        CpuState::ARM => false,
        CpuState::THUMB => true,
    }
}

/// The instruction-set state named by a state-bit value.
pub open spec fn state_of_bool(b: bool) -> CpuState {
    if b {
        CpuState::THUMB
    } else {
        CpuState::ARM
    }
}

/// The instruction-set state encoded in bit 5 of `raw`.
pub open spec fn spec_state(raw: u32) -> CpuState {
    state_of_bool(bit_is_set(raw, STATE_BIT))
}

pub open spec fn spec_irq_disabled(raw: u32) -> bool {
    bit_is_set(raw, IRQ_DISABLE_BIT)
}

pub open spec fn spec_fiq_disabled(raw: u32) -> bool {
    bit_is_set(raw, FIQ_DISABLE_BIT)
}

pub open spec fn spec_n(raw: u32) -> bool {
    bit_is_set(raw, N_BIT)
}

pub open spec fn spec_z(raw: u32) -> bool {
    bit_is_set(raw, Z_BIT)
}

pub open spec fn spec_c(raw: u32) -> bool {
    bit_is_set(raw, C_BIT)
}

pub open spec fn spec_v(raw: u32) -> bool {
    bit_is_set(raw, V_BIT)
}

impl CpuMode {
    /// The five-bit pattern of this mode, as stored in the mode field.
    pub fn to_u32(&self) -> (r: u32)
        ensures
            r == mode_bits(*self),
    {
        match self {
            CpuMode::User => 0b10000,
            CpuMode::Fiq => 0b10001,
            CpuMode::Irq => 0b10010,
            CpuMode::Supervisor => 0b10011,
            CpuMode::Abort => 0b10111,
            CpuMode::Undefined => 0b11011,
            CpuMode::System => 0b11111,
        }
    }

    /// Checked decode from a raw pattern; `None` on the twenty-five
    /// five-bit patterns (and every wider value) the architecture leaves
    /// undefined.
    pub fn from_u32(bits: u32) -> (r: Option<CpuMode>)
        ensures
            r == spec_mode_from_bits(bits),
    {
        if bits == 0b10000 {
            Some(CpuMode::User)
        } else if bits == 0b10001 {
            Some(CpuMode::Fiq)
        } else if bits == 0b10010 {
            Some(CpuMode::Irq)
        } else if bits == 0b10011 {
            Some(CpuMode::Supervisor)
        } else if bits == 0b10111 {
            Some(CpuMode::Abort)
        } else if bits == 0b11011 {
            Some(CpuMode::Undefined)
        } else if bits == 0b11111 {
            Some(CpuMode::System)
        } else {
            None
        }
    }
}

/// The program status register: one 32-bit word whose view is the raw value.
#[derive(Debug, Clone, Copy)]
pub struct RegPSR {
    raw: u32,
}

impl View for RegPSR {
    type V = u32;

    closed spec fn view(&self) -> u32 {
        self.raw
    }
}

/// `n` with the reserved bits 8-27 forced to zero.
fn clear_reserved(n: u32) -> (r: u32)
    ensures
        r == n & !RESERVED_BIT_MASK,
{
    n & !RESERVED_BIT_MASK
}

impl RegPSR {
    /// The reset state: interrupts masked, Supervisor mode, ARM state,
    /// condition flags and reserved bits all zero.
    pub fn new() -> (r: RegPSR)
        ensures
            r@ == 0xd3u32,
            spec_irq_disabled(r@),
            spec_fiq_disabled(r@),
            r@ & MODE_MASK == mode_bits(CpuMode::Supervisor),
            spec_state(r@) == CpuState::ARM,
            !spec_n(r@) && !spec_z(r@) && !spec_c(r@) && !spec_v(r@),
            r@ & RESERVED_BIT_MASK == 0,
    {
        let mut psr = RegPSR { raw: 0 };

        psr.set_irq_disabled(true);
        psr.set_fiq_disabled(true);
        psr.set_mode(CpuMode::Supervisor);
        psr.set_state(CpuState::ARM);

        proof {
            assert(with_bit(((0u32 | 0x80) | 0x40) | 0b10011, 0x20, false) == 0xd3)
                by (bit_vector);
            assert(0xd3u32 & 0x80 != 0 && 0xd3u32 & 0x40 != 0 && 0xd3u32 & 0x1f == 0b10011
                && 0xd3u32 & 0x20 == 0 && 0xd3u32 & 0x8000_0000 == 0 && 0xd3u32 & 0x4000_0000 == 0
                && 0xd3u32 & 0x2000_0000 == 0 && 0xd3u32 & 0x1000_0000 == 0
                && 0xd3u32 & 0x0fffff00 == 0) by (bit_vector);
        }
        psr
    }

    /// The raw word exactly as stored.
    pub fn get(&self) -> (r: u32)
        ensures
            r == self@,
    {
        self.raw
    }

    /// Bulk write: stores `psr` with the reserved bits forced to zero and
    /// every other bit passed through unchanged, including a mode field
    /// that is not one of the seven legal codes.
    pub fn set(&mut self, psr: u32)
        ensures
            final(self)@ == psr & !RESERVED_BIT_MASK,
    {
        self.raw = clear_reserved(psr);
    }

    /// The instruction-set state read from bit 5.
    pub fn state(&self) -> (r: CpuState)
        ensures
            r == spec_state(self@),
    {
        if self.raw & STATE_BIT != 0 {
            CpuState::THUMB
        } else {
            CpuState::ARM
        }
    }

    /// Writes bit 5 from the given state; no other bit changes.
    pub fn set_state(&mut self, state: CpuState)
        ensures
            final(self)@ == with_bit(old(self)@, STATE_BIT, bool_of_state(state)),
    {
        match state {
            CpuState::ARM => {
                self.raw = self.raw & !STATE_BIT;
            },
            CpuState::THUMB => {
                self.raw = self.raw | STATE_BIT;
            },
        }
    }

    /// Decodes the mode field, assuming it holds one of the seven legal
    /// codes; a caller that cannot guarantee that must use `try_mode`.
    pub fn mode(&self) -> (r: CpuMode)
        requires
            spec_mode_from_bits(self@ & MODE_MASK) is Some,
        ensures
            Some(r) == spec_mode_from_bits(self@ & MODE_MASK),
    {
        let bits = self.raw & MODE_MASK;
        match CpuMode::from_u32(bits) {
            Some(m) => m,
            None => vstd::pervasive::unreached(),
        }
    }

    /// Checked decode of the mode field: `None` exactly when the stored
    /// five-bit pattern is not one of the seven legal codes, so a corrupt
    /// field is surfaced to the caller rather than papered over.
    pub fn try_mode(&self) -> (r: Option<CpuMode>)
        ensures
            r == spec_mode_from_bits(self@ & MODE_MASK),
    {
        CpuMode::from_u32(self.raw & MODE_MASK)
    }

    /// ORs the mode's pattern into the word without clearing the field
    /// first, so the result replaces the old mode only when the old bits
    /// are a subset of the new ones; clear bits 0-4 beforehand (for
    /// example through `set`) to install an arbitrary mode reliably.
    pub fn set_mode(&mut self, mode: CpuMode)
        ensures
            final(self)@ == old(self)@ | mode_bits(mode),
    {
        let bits = mode.to_u32();
        self.raw = self.raw | bits;
    }

    pub fn irq_disabled(&self) -> (r: bool)
        ensures
            r == spec_irq_disabled(self@),
    {
        self.raw & IRQ_DISABLE_BIT != 0
    }

    /// Writes bit 7; no other bit changes.
    pub fn set_irq_disabled(&mut self, disabled: bool)
        ensures
            final(self)@ == with_bit(old(self)@, IRQ_DISABLE_BIT, disabled),
    {
        if disabled {
            self.raw = self.raw | IRQ_DISABLE_BIT;
        } else {
            self.raw = self.raw & !IRQ_DISABLE_BIT;
        }
    }

    pub fn fiq_disabled(&self) -> (r: bool)
        ensures
            r == spec_fiq_disabled(self@),
    {
        self.raw & FIQ_DISABLE_BIT != 0
    }

    /// Writes bit 6; no other bit changes.
    pub fn set_fiq_disabled(&mut self, disabled: bool)
        ensures
            final(self)@ == with_bit(old(self)@, FIQ_DISABLE_BIT, disabled),
    {
        if disabled {
            self.raw = self.raw | FIQ_DISABLE_BIT;
        } else {
            self.raw = self.raw & !FIQ_DISABLE_BIT;
        }
    }

    #[allow(non_snake_case)]
    pub fn N(&self) -> (r: bool)
        ensures
            r == spec_n(self@),
    {
        self.raw & N_BIT != 0
    }

    /// Writes bit 31; no other bit changes.
    #[allow(non_snake_case)]
    pub fn set_N(&mut self, flag: bool)
        ensures
            final(self)@ == with_bit(old(self)@, N_BIT, flag),
    {
        if flag {
            self.raw = self.raw | N_BIT;
        } else {
            self.raw = self.raw & !N_BIT;
        }
    }

    #[allow(non_snake_case)]
    pub fn Z(&self) -> (r: bool)
        ensures
            r == spec_z(self@),
    {
        self.raw & Z_BIT != 0
    }

    /// Writes bit 30; no other bit changes.
    #[allow(non_snake_case)]
    pub fn set_Z(&mut self, flag: bool)
        ensures
            final(self)@ == with_bit(old(self)@, Z_BIT, flag),
    {
        if flag {
            self.raw = self.raw | Z_BIT;
        } else {
            self.raw = self.raw & !Z_BIT;
        }
    }

    #[allow(non_snake_case)]
    pub fn C(&self) -> (r: bool)
        ensures
            r == spec_c(self@),
    {
        self.raw & C_BIT != 0
    }

    /// Writes bit 29; no other bit changes.
    #[allow(non_snake_case)]
    pub fn set_C(&mut self, flag: bool)
        ensures
            final(self)@ == with_bit(old(self)@, C_BIT, flag),
    {
        if flag {
            self.raw = self.raw | C_BIT;
        } else {
            self.raw = self.raw & !C_BIT;
        }
    }

    #[allow(non_snake_case)]
    pub fn V(&self) -> (r: bool)
        ensures
            r == spec_v(self@),
    {
        self.raw & V_BIT != 0
    }

    /// Writes bit 28; no other bit changes.
    #[allow(non_snake_case)]
    pub fn set_V(&mut self, flag: bool)
        ensures
            final(self)@ == with_bit(old(self)@, V_BIT, flag),
    {
        if flag {
            self.raw = self.raw | V_BIT;
        } else {
            self.raw = self.raw & !V_BIT;
        }
    }
}

/// Law: writing the state bit reads back as the state written, writing
/// it twice with the same state equals writing it once, and every bit
/// outside bit 5 is unchanged.
pub proof fn lemma_state_round_trip(raw: u32, s: CpuState)
    ensures
        spec_state(with_bit(raw, STATE_BIT, bool_of_state(s))) == s,
        with_bit(with_bit(raw, STATE_BIT, bool_of_state(s)), STATE_BIT, bool_of_state(s))
            == with_bit(raw, STATE_BIT, bool_of_state(s)),
        with_bit(raw, STATE_BIT, bool_of_state(s)) & !STATE_BIT == raw & !STATE_BIT,
{
    let b = bool_of_state(s);
    assert(bit_is_set(with_bit(raw, STATE_BIT, b), STATE_BIT) == b
        && with_bit(with_bit(raw, STATE_BIT, b), STATE_BIT, b) == with_bit(raw, STATE_BIT, b)
        && with_bit(raw, STATE_BIT, b) & !STATE_BIT == raw & !STATE_BIT) by (bit_vector);
}

/// Law: ORing a legal mode code into a word whose mode field is clear
/// makes the field decode to exactly that mode.
pub proof fn lemma_set_mode_after_clear(raw: u32, m: CpuMode)
    requires
        raw & MODE_MASK == 0,
    ensures
        spec_mode_from_bits((raw | mode_bits(m)) & MODE_MASK) == Some(m),
{
    let mb = mode_bits(m);
    assert(mb <= 0x1f);
    assert((raw & MODE_MASK == 0 && mb <= 0x1fu32) ==> (raw | mb) & MODE_MASK == mb)
        by (bit_vector);
}

/// Law: a bulk write stores the given word with bits 8-27 forced to
/// zero, which a bulk read then returns; every named field of the
/// stored word reads as it did in the word written.
pub proof fn lemma_set_get_round_trip(v: u32)
    ensures
        (v & !RESERVED_BIT_MASK) & RESERVED_BIT_MASK == 0,
        spec_n(v & !RESERVED_BIT_MASK) == spec_n(v),
        spec_z(v & !RESERVED_BIT_MASK) == spec_z(v),
        spec_c(v & !RESERVED_BIT_MASK) == spec_c(v),
        spec_v(v & !RESERVED_BIT_MASK) == spec_v(v),
        spec_irq_disabled(v & !RESERVED_BIT_MASK) == spec_irq_disabled(v),
        spec_fiq_disabled(v & !RESERVED_BIT_MASK) == spec_fiq_disabled(v),
        spec_state(v & !RESERVED_BIT_MASK) == spec_state(v),
        (v & !RESERVED_BIT_MASK) & MODE_MASK == v & MODE_MASK,
{
    assert((v & !RESERVED_BIT_MASK) & RESERVED_BIT_MASK == 0
        && bit_is_set(v & !RESERVED_BIT_MASK, N_BIT) == bit_is_set(v, N_BIT)
        && bit_is_set(v & !RESERVED_BIT_MASK, Z_BIT) == bit_is_set(v, Z_BIT)
        && bit_is_set(v & !RESERVED_BIT_MASK, C_BIT) == bit_is_set(v, C_BIT)
        && bit_is_set(v & !RESERVED_BIT_MASK, V_BIT) == bit_is_set(v, V_BIT)
        && bit_is_set(v & !RESERVED_BIT_MASK, IRQ_DISABLE_BIT) == bit_is_set(v, IRQ_DISABLE_BIT)
        && bit_is_set(v & !RESERVED_BIT_MASK, FIQ_DISABLE_BIT) == bit_is_set(v, FIQ_DISABLE_BIT)
        && bit_is_set(v & !RESERVED_BIT_MASK, STATE_BIT) == bit_is_set(v, STATE_BIT)
        && (v & !RESERVED_BIT_MASK) & MODE_MASK == v & MODE_MASK) by (bit_vector);
}

/// Law: writing the N flag reads back as written, the last write wins,
/// and every bit outside bit 31 is unchanged.
pub proof fn lemma_n_round_trip(raw: u32, a: bool, b: bool)
    by (bit_vector)
    ensures
        spec_n(with_bit(raw, N_BIT, a)) == a,
        with_bit(with_bit(raw, N_BIT, a), N_BIT, b) == with_bit(raw, N_BIT, b),
        with_bit(raw, N_BIT, a) & !N_BIT == raw & !N_BIT,
{
}

/// Law: writing the Z flag reads back as written, the last write wins,
/// and every bit outside bit 30 is unchanged.
pub proof fn lemma_z_round_trip(raw: u32, a: bool, b: bool)
    by (bit_vector)
    ensures
        spec_z(with_bit(raw, Z_BIT, a)) == a,
        with_bit(with_bit(raw, Z_BIT, a), Z_BIT, b) == with_bit(raw, Z_BIT, b),
        with_bit(raw, Z_BIT, a) & !Z_BIT == raw & !Z_BIT,
{
}

/// Law: writing the C flag reads back as written, the last write wins,
/// and every bit outside bit 29 is unchanged.
pub proof fn lemma_c_round_trip(raw: u32, a: bool, b: bool)
    by (bit_vector)
    ensures
        spec_c(with_bit(raw, C_BIT, a)) == a,
        with_bit(with_bit(raw, C_BIT, a), C_BIT, b) == with_bit(raw, C_BIT, b),
        with_bit(raw, C_BIT, a) & !C_BIT == raw & !C_BIT,
{
}

/// Law: writing the V flag reads back as written, the last write wins,
/// and every bit outside bit 28 is unchanged.
pub proof fn lemma_v_round_trip(raw: u32, a: bool, b: bool)
    by (bit_vector)
    ensures
        spec_v(with_bit(raw, V_BIT, a)) == a,
        with_bit(with_bit(raw, V_BIT, a), V_BIT, b) == with_bit(raw, V_BIT, b),
        with_bit(raw, V_BIT, a) & !V_BIT == raw & !V_BIT,
{
}

impl From<CpuState> for bool {
    /// The state bit stored for a state: `false` for ARM, `true` for THUMB.
    fn from(state: CpuState) -> (r: bool) {
        match state {
            CpuState::ARM => false,
            CpuState::THUMB => true,
        }
    }
}

impl vstd::std_specs::convert::FromSpecImpl<CpuState> for bool {
    open spec fn obeys_from_spec() -> bool {
        true
    }

    open spec fn from_spec(state: CpuState) -> bool {
        bool_of_state(state)
    }
}

impl From<bool> for CpuState {
    /// The state a state-bit value names: ARM for `false`, THUMB for `true`.
    fn from(flag: bool) -> (r: CpuState) {
        if flag {
            CpuState::THUMB
        } else {
            CpuState::ARM
        }
    }
}

impl vstd::std_specs::convert::FromSpecImpl<bool> for CpuState {
    open spec fn obeys_from_spec() -> bool {
        true
    }

    open spec fn from_spec(flag: bool) -> CpuState {
        state_of_bool(flag)
    }
}

} // verus!
