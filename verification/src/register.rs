//! The sixteen registers of the chip.
use vstd::prelude::*;
use crate::audio::AudioChannel;
use crate::io::IoPort;

verus! {

/// Human readable names of the sixteen registers, by register number.
pub const READABLE_REG_NAMES: [&'static str; 16] = [
    "Frequency of channel A, 8 bit fine tone adjustment",
    "Frequency of channel A, 4 bit rough tone adjustment",
    "Frequency of channel B, 8 bit fine tone adjustment",
    "Frequency of channel B, 4 bit rough tone adjustment",
    "Frequency of channel C, 8 bit fine tone adjustment",
    "Frequency of channel C, 4 bit rough tone adjustment",
    "Frequency of noise, 5 bit noise frequency",
    "I/O port and mixer settings",
    "Level of channel A",
    "Level of channel B",
    "Level of channel C",
    "Frequency of envelope, 8 bit fine adjustment",
    "Frequency of envelope, 8 bit rough adjustment",
    "Shape of envelope",
    "Data of I/O port A",
    "Data of I/O port B",
];

/// The readable name of register `register`.
pub fn readable_name(register: u8) -> (r: &'static str)
    requires
        register < 16,
    ensures
        r == READABLE_REG_NAMES[register as int],
{
    READABLE_REG_NAMES[register as usize]
}

/// One of the 16 registers (0-15) of an AY-3-8910.
///
/// Used to select which register to write / read.
/// Each register controls different aspects of tone generation, noise, mixing,
/// amplitude, and envelope.
#[derive(Debug, Clone, Copy, PartialEq, Eq, Structural)]
pub enum Register {
    /// Frequency of channel A: 8 bit fine tone adjustment
    AFreq8bitFinetone,
    /// Frequency of channel A: 4 bit rough tone adjustment
    ///
    /// `Mask: 0x0F`
    AFreq4bitRoughtone,
    /// Frequency of channel B: 8 bit fine tone adjustment
    BFreq8bitFinetone,
    /// Frequency of channel B: 4 bit rough tone adjustment
    ///
    /// `Mask: 0x0F`
    BFreq4bitRoughtone,
    /// Frequency of channel C: 8 bit fine tone adjustment
    CFreq8bitFinetone,
    /// Frequency of channel C: 4 bit rough tone adjustment
    ///
    /// `Mask: 0x0F`
    CFreq4bitRoughtone,
    /// Frequency of noise: 5 bit noise frequency
    ///
    /// `Mask: 0x1F`
    NoiseFreq5bit,
    /// **I/O Port and mixer settings**
    ///
    /// - Sound is output when '0' is written to the register.
    /// - Selection of input/output for the I/O ports is determined by bits B7 and B6 of register R7.
    /// - Input is selected when '0' is written to the register bits.
    ///
    /// Bit:    | B7  | B6  | B5  | B4  | B3  | B2  | B1  | B0  |
    /// --------|-----|-----|-----|-----|-----|-----|-----|-----|
    /// Type:   | I/O | I/O |Noise|Noise|Noise|Tone |Tone |Tone |
    /// Channel:| IOB | IOA |  C  |  B  |  A  |  C  |  B  |  A  |
    IoPortMixerSettings,
    /// **Level of channel A**
    ///
    /// - Mode M selects whether the level is fixed (when M = 0) or variable (M = 1).
    /// - When M = 0, the level is one of 16 given by L3, L2, L1 and L0, the lower four bits.
    /// - When M = 1, the level is the 5 bit output E4 ~ E0 of the envelope generator.
    ///
    /// | B7 (MSB)  | B6  | B5  | B4  | B3  | B2  | B1  | B0  |
    /// |-----------|-----|-----|-----|-----|-----|-----|-----|
    /// | N/A       | N/A | N/A |  M  | L3  | L2  | L1  | L0  |
    ALevel,
    /// **Level of channel B**
    ///
    /// Same bit layout as [`Register::ALevel`]
    BLevel,
    /// **Level of channel C**
    ///
    /// Same bit layout as [`Register::ALevel`]
    CLevel,
    /// Frequency of envelope: 8 bit fine adjustment
    EFreq8bitFineAdj,
    /// Frequency of envelope: 8 bit rough adjustment
    EFreq8bitRoughAdj,
    /// Shape of envelope
    EShape,
    /// Data of I/O port A
    DataIoA,
    /// Data of I/O port B
    DataIoB,
}

impl Register {
    /// The register number, 0 to 15.
    pub open spec fn spec_number(self) -> u8 {
        match self {
            Register::AFreq8bitFinetone => 0,
            Register::AFreq4bitRoughtone => 1,
            Register::BFreq8bitFinetone => 2,
            Register::BFreq4bitRoughtone => 3,
            Register::CFreq8bitFinetone => 4,
            Register::CFreq4bitRoughtone => 5,
            Register::NoiseFreq5bit => 6,
            Register::IoPortMixerSettings => 7,
            Register::ALevel => 8,
            Register::BLevel => 9,
            Register::CLevel => 10,
            Register::EFreq8bitFineAdj => 11,
            Register::EFreq8bitRoughAdj => 12,
            Register::EShape => 13,
            Register::DataIoA => 14,
            Register::DataIoB => 15,
        }
    }

    /// The register number, 0 to 15.
    pub fn number(self) -> (r: u8)
        ensures
            r == self.spec_number(),
            r <= 15,
    {
        match self {
            Register::AFreq8bitFinetone => 0,
            Register::AFreq4bitRoughtone => 1,
            Register::BFreq8bitFinetone => 2,
            Register::BFreq4bitRoughtone => 3,
            Register::CFreq8bitFinetone => 4,
            Register::CFreq4bitRoughtone => 5,
            Register::NoiseFreq5bit => 6,
            Register::IoPortMixerSettings => 7,
            Register::ALevel => 8,
            Register::BLevel => 9,
            Register::CLevel => 10,
            Register::EFreq8bitFineAdj => 11,
            Register::EFreq8bitRoughAdj => 12,
            Register::EShape => 13,
            Register::DataIoA => 14,
            Register::DataIoB => 15,
        }
    }

    /// The readable name of the register.
    pub fn name(self) -> (r: &'static str)
        ensures
            r == READABLE_REG_NAMES[self.spec_number() as int],
    {
        readable_name(self.number())
    }
}

/// Helper const, used to get a level register from an index in range 0..2.
pub const LEVEL_REGS: [Register; 3] = [Register::ALevel, Register::BLevel, Register::CLevel];

/// Helper trait implemented for u8 and [`Register`] to make writing to registers easier.
pub trait RegisterIndex {
    /// The register address that `address` gives.
    spec fn spec_address(self) -> u8;

    fn address(self) -> (r: u8)
        ensures
            r == self.spec_address(),
    ;
}

/// The largest register address.
pub const MAX_REGISTER: u8 = 15;

impl RegisterIndex for u8 {
    /// A number is clamped into the register range 0..=15.
    open spec fn spec_address(self) -> u8 {
        if self > MAX_REGISTER { MAX_REGISTER } else { self }
    }

    fn address(self) -> (r: u8) {
        if self > MAX_REGISTER { MAX_REGISTER } else { self }
    }
}

impl RegisterIndex for Register {
    open spec fn spec_address(self) -> u8 {
        self.spec_number()
    }

    fn address(self) -> (r: u8) {
        self.number()
    }
}

/// The address of any register index is a valid register, 0 to 15.
pub proof fn lemma_address_in_range_u8(x: u8)
    ensures
        x.spec_address() <= MAX_REGISTER,
{
}

/// Addressing is idempotent: an address, taken again as an index, names itself.
pub proof fn lemma_address_idempotent(x: u8)
    ensures
        x.spec_address().spec_address() == x.spec_address(),
{
}

/// A register number, used as a plain index, addresses that same register.
pub proof fn lemma_register_number_address(r: Register)
    ensures
        r.spec_number().spec_address() == r.spec_address(),
        r.spec_address() <= MAX_REGISTER,
{
}

/// The fine tone register of a channel.
pub open spec fn fine_tone_register(c: AudioChannel) -> Register {
    match c {
        AudioChannel::A => Register::AFreq8bitFinetone,
        AudioChannel::B => Register::BFreq8bitFinetone,
        AudioChannel::C => Register::CFreq8bitFinetone,
    }
}

/// The rough tone register of a channel.
pub open spec fn rough_tone_register(c: AudioChannel) -> Register {
    match c {
        AudioChannel::A => Register::AFreq4bitRoughtone,
        AudioChannel::B => Register::BFreq4bitRoughtone,
        AudioChannel::C => Register::CFreq4bitRoughtone,
    }
}

/// Register numbers are the datasheet's: distinct registers have distinct numbers,
/// all below 16; each channel's fine and rough tone registers are `2 * channel`
/// and `2 * channel + 1`, its level register `8 + channel`; the I/O data registers
/// are the ports' registers, 14 for A and 15 for B; noise is 6, the mixer 7, the envelope fine and rough
/// periods 11 and 12, and the envelope shape 13.
pub proof fn lemma_register_numbers_match_datasheet()
    ensures
        forall|a: Register, b: Register|
            #[trigger] a.spec_number() == #[trigger] b.spec_number() ==> a == b,
        forall|r: Register| #[trigger] r.spec_number() <= MAX_REGISTER,
        forall|c: AudioChannel|
            #[trigger] fine_tone_register(c).spec_number() == 2 * c.spec_index()
                && rough_tone_register(c).spec_number() == 2 * c.spec_index() + 1
                && LEVEL_REGS[c.spec_index() as int].spec_number() == 8 + c.spec_index(),
        Register::DataIoA.spec_number() == IoPort::A.spec_register(),
        Register::DataIoB.spec_number() == IoPort::B.spec_register(),
        Register::DataIoA.spec_number() == 14,
        Register::DataIoB.spec_number() == 15,
        Register::NoiseFreq5bit.spec_number() == 6,
        Register::IoPortMixerSettings.spec_number() == 7,
        Register::EFreq8bitFineAdj.spec_number() == 11,
        Register::EFreq8bitRoughAdj.spec_number() == 12,
        Register::EShape.spec_number() == 13,
{
}

} // verus!
