//! Elements critical for I/O operations to the chip.
use vstd::prelude::*;
use crate::audio::AudioChannel;
use crate::errors::Error;
use crate::register::RegisterIndex;

verus! {

/// The Read trait is used for reading register values from the PSG.
///
/// A reader states, through `may_read`, which results a read of a register can
/// give; it may allow several (the chip's registers change under it). The
/// implementation decides what `may_read` holds of.
pub trait Read {
    /// Whether reading register `register` may give `result`.
    spec fn may_read(&self, register: u8, result: Result<u8, Error>) -> bool;

    /// Reads the register that `register` addresses.
    fn read<R: RegisterIndex>(&self, register: R) -> (r: Result<u8, Error>)
        ensures
            self.may_read(register.spec_address(), r),
    ;
}

/// Holds whatever reads registers back from the chip.
#[derive(Debug)]
pub struct ReadDriver<R>(pub R);

/// One of the two modes of the IO ports.
#[derive(Debug, Clone, Copy, PartialEq, Eq, Structural)]
pub enum IoPortMode {
    Input,
    Output,
}

/// One of the two GPIO ports of the AY-3-8910.
#[derive(Debug, Clone, Copy, PartialEq, Eq, Structural)]
pub enum IoPort {
    /// Port A, data register 0xE
    A,
    /// Port B, data register 0xF
    B,
}

impl IoPort {
    /// The number of the data register of the port.
    pub open spec fn spec_register(self) -> u8 {
        match self {
            IoPort::A => 0xE,
            IoPort::B => 0xF,
        }
    }

    /// The number of the data register of the port.
    pub fn register(self) -> (r: u8)
        ensures
            r == self.spec_register(),
    {
        match self {
            IoPort::A => 0xE,
            IoPort::B => 0xF,
        }
    }
}

/// IO port and mixer settings.
///
/// Note: Whereas the chips enable tone / noise generators when the register stores
/// a value of 0 (false), the fields that take a `bool` enable a generator when
/// their value is `true`.
#[derive(Debug, Clone, Copy, PartialEq, Eq, Structural)]
pub struct IoPortMixerSettings {
    pub io_port_a_mode: IoPortMode,
    pub io_port_b_mode: IoPortMode,
    pub noise_ch_c: bool,
    pub noise_ch_b: bool,
    pub noise_ch_a: bool,
    pub tone_ch_c: bool,
    pub tone_ch_b: bool,
    pub tone_ch_a: bool,
}

/// `weight` where `set` holds, else 0.
pub open spec fn bit_if(set: bool, weight: u8) -> int {
    if set { weight as int } else { 0 }
}

impl IoPortMixerSettings {
    /// The byte for register 7: B7 is set when port B is an output, B6 when port A
    /// is an output, and B5 ~ B0 are set for the noise (C, B, A) and tone (C, B, A)
    /// generators that are disabled.
    pub open spec fn spec_byte(self) -> u8 {
        (bit_if(self.io_port_b_mode == IoPortMode::Output, 0x80)
            + bit_if(self.io_port_a_mode == IoPortMode::Output, 0x40)
            + bit_if(!self.noise_ch_c, 0x20)
            + bit_if(!self.noise_ch_b, 0x10)
            + bit_if(!self.noise_ch_a, 0x08)
            + bit_if(!self.tone_ch_c, 0x04)
            + bit_if(!self.tone_ch_b, 0x02)
            + bit_if(!self.tone_ch_a, 0x01)) as u8
    }

    /// Returns a byte containing the settings that can be written directly to register 7.
    pub fn as_u8(self) -> (r: u8)
        ensures
            r == self.spec_byte(),
    {
        // Register 7, from B7 down to B0; a bit is written as 1 for an output
        // port and for a disabled generator.
        let bits: [bool; 8] = [
            self.io_port_b_mode == IoPortMode::Output,
            self.io_port_a_mode == IoPortMode::Output,
            !self.noise_ch_c,
            !self.noise_ch_b,
            !self.noise_ch_a,
            !self.tone_ch_c,
            !self.tone_ch_b,
            !self.tone_ch_a,
        ];
        let mut byte: u8 = 0;
        let mut i: usize = 0;
        while i < 8
            invariant
                i <= 8,
                bits@ == seq![
                    self.io_port_b_mode == IoPortMode::Output,
                    self.io_port_a_mode == IoPortMode::Output,
                    !self.noise_ch_c,
                    !self.noise_ch_b,
                    !self.noise_ch_a,
                    !self.tone_ch_c,
                    !self.tone_ch_b,
                    !self.tone_ch_a,
                ],
                byte == spec_bits_value(bits@, i as int),
            decreases 8 - i,
        {
            proof {
                lemma_bits_value_bound(bits@, i as int + 1);
            }
            byte = byte * 2 + if bits[i] { 1 } else { 0 };
            i = i + 1;
        }
        proof {
            reveal_with_fuel(spec_bits_value, 9);
        }
        byte
    }
}

/// The number whose binary digits, most significant first, are the first `n` entries of `bits`.
pub open spec fn spec_bits_value(bits: Seq<bool>, n: int) -> int
    decreases n,
{
    if n <= 0 {
        0
    } else {
        spec_bits_value(bits, n - 1) * 2 + if bits[n - 1] { 1int } else { 0 }
    }
}

impl IoPortMixerSettings {
    /// Enables or disables the tone and noise generators of `channel`; the other
    /// channels and the port modes stay as they were. Returns the new settings.
    pub fn channel_setup(&mut self, channel: AudioChannel, tone: bool, noise: bool) -> (r: Self)
        ensures
            *final(self) == (match channel {
                AudioChannel::A => IoPortMixerSettings { noise_ch_a: noise, tone_ch_a: tone, ..*old(self) },
                AudioChannel::B => IoPortMixerSettings { noise_ch_b: noise, tone_ch_b: tone, ..*old(self) },
                AudioChannel::C => IoPortMixerSettings { noise_ch_c: noise, tone_ch_c: tone, ..*old(self) },
            }),
            r == *final(self),
    {
        match channel {
            AudioChannel::A => {
                self.noise_ch_a = noise;
                self.tone_ch_a = tone;
            },
            AudioChannel::B => {
                self.noise_ch_b = noise;
                self.tone_ch_b = tone;
            },
            AudioChannel::C => {
                self.noise_ch_c = noise;
                self.tone_ch_c = tone;
            },
        }
        *self
    }

    /// Sets the mode of `port`; everything else stays as it was. Returns the new settings.
    pub fn io_port_mode(&mut self, port: IoPort, mode: IoPortMode) -> (r: Self)
        ensures
            *final(self) == (match port {
                IoPort::A => IoPortMixerSettings { io_port_a_mode: mode, ..*old(self) },
                IoPort::B => IoPortMixerSettings { io_port_b_mode: mode, ..*old(self) },
            }),
            r == *final(self),
    {
        match port {
            IoPort::A => self.io_port_a_mode = mode,
            IoPort::B => self.io_port_b_mode = mode,
        };
        *self
    }
}

impl Default for IoPortMixerSettings {
    /// Both ports are outputs and every generator is disabled.
    fn default() -> (r: Self)
        ensures
            r == (IoPortMixerSettings {
                io_port_a_mode: IoPortMode::Output,
                io_port_b_mode: IoPortMode::Output,
                noise_ch_c: false,
                noise_ch_b: false,
                noise_ch_a: false,
                tone_ch_c: false,
                tone_ch_b: false,
                tone_ch_a: false,
            }),
    {
        IoPortMixerSettings {
            io_port_a_mode: IoPortMode::Output,
            io_port_b_mode: IoPortMode::Output,
            noise_ch_c: false,
            noise_ch_b: false,
            noise_ch_a: false,
            tone_ch_c: false,
            tone_ch_b: false,
            tone_ch_a: false,
        }
    }
}

/// The register 7 byte determines the settings: distinct settings never share a byte.
pub proof fn lemma_as_u8_injective(a: IoPortMixerSettings, b: IoPortMixerSettings)
    requires
        a.spec_byte() == b.spec_byte(),
    ensures
        a == b,
{
    lemma_byte_bits(a);
    lemma_byte_bits(b);
}

/// Each bit of the register 7 byte reads back one field of the settings.
pub proof fn lemma_byte_bits(s: IoPortMixerSettings)
    ensures
        (s.spec_byte() / 0x80) % 2 == 1 <==> s.io_port_b_mode == IoPortMode::Output,
        (s.spec_byte() / 0x40) % 2 == 1 <==> s.io_port_a_mode == IoPortMode::Output,
        (s.spec_byte() / 0x20) % 2 == 1 <==> !s.noise_ch_c,
        (s.spec_byte() / 0x10) % 2 == 1 <==> !s.noise_ch_b,
        (s.spec_byte() / 0x08) % 2 == 1 <==> !s.noise_ch_a,
        (s.spec_byte() / 0x04) % 2 == 1 <==> !s.tone_ch_c,
        (s.spec_byte() / 0x02) % 2 == 1 <==> !s.tone_ch_b,
        s.spec_byte() % 2 == 1 <==> !s.tone_ch_a,
{
}

/// The default settings (both ports outputs, every generator off) are written as 0xFF.
pub proof fn lemma_default_byte()
    ensures
        (IoPortMixerSettings {
            io_port_a_mode: IoPortMode::Output,
            io_port_b_mode: IoPortMode::Output,
            noise_ch_c: false,
            noise_ch_b: false,
            noise_ch_a: false,
            tone_ch_c: false,
            tone_ch_b: false,
            tone_ch_a: false,
        }).spec_byte() == 0xFF,
{
}

/// The four modes of the bus control decoder.
///
/// | Mode         | BDIR | BC2 | BC1 |
/// | ------------ | ---- | --- | --- |
/// | **INACTIVE** |  0   |  1  |  0  |
/// | **READ**     |  0   |  1  |  1  |
/// | **WRITE**    |  1   |  1  |  0  |
/// | **ADDRESS**  |  1   |  1  |  1  |
#[derive(Debug, Clone, Copy, PartialEq, Eq, Structural)]
pub enum ChipMode {
    /// DA7~DA0 has high impedance.
    INACTIVE,
    /// DA7~DA0 set to output mode, and contents of register currently being addressed are output.
    ///
    /// ``ChipMode::READ`` makes the chip output 5V to the data bus.
    READ,
    /// DA7~DA0 set to input mode, and data is written to register currently being addressed.
    WRITE,
    /// DA7~DA0 set to input mode, and address is fetched from register array.
    ADDRESS,
}

impl ChipMode {
    /// The mode's code: BDIR is bit 1 and BC1 bit 0.
    pub open spec fn spec_code(self) -> u8 {
        match self {
            ChipMode::INACTIVE => 0,
            ChipMode::READ => 1,
            ChipMode::WRITE => 2,
            ChipMode::ADDRESS => 3,
        }
    }

    /// The mode's code: BDIR is bit 1 and BC1 bit 0.
    pub fn code(self) -> (r: u8)
        ensures
            r == self.spec_code(),
    {
        match self {
            ChipMode::INACTIVE => 0,
            ChipMode::READ => 1,
            ChipMode::WRITE => 2,
            ChipMode::ADDRESS => 3,
        }
    }
}

/// The levels of the three bus control pins.
#[derive(Debug, Clone, Copy, PartialEq, Eq, Structural)]
pub struct ChipModePinStates {
    pub bc1: bool,
    pub bc2: bool,
    pub bdir: bool,
}

impl From<ChipMode> for ChipModePinStates {
    fn from(value: ChipMode) -> (r: Self) {
        let i = value.code();
        let bc1 = i & 1 == 1;
        let bdir = i & 2 == 2;
        proof {
            assert(i <= 3 ==> ((i & 1 == 1) == (i == 1 || i == 3))) by (bit_vector);
            assert(i <= 3 ==> ((i & 2 == 2) == (i == 2 || i == 3))) by (bit_vector);
        }
        Self { bc1, bc2: true, bdir }
    }
}

impl vstd::std_specs::convert::FromSpecImpl<ChipMode> for ChipModePinStates {
    open spec fn obeys_from_spec() -> bool {
        true
    }

    /// The pin levels of the decoder table.
    open spec fn from_spec(value: ChipMode) -> Self {
        ChipModePinStates {
            bc1: value == ChipMode::READ || value == ChipMode::ADDRESS,
            bc2: true,
            bdir: value == ChipMode::WRITE || value == ChipMode::ADDRESS,
        }
    }
}

/// `2` to the power `n`.
pub open spec fn spec_pow2(n: int) -> int
    decreases n,
{
    if n <= 0 {
        1
    } else {
        2 * spec_pow2(n - 1)
    }
}

/// A number of `n` binary digits is below `2^n`.
proof fn lemma_bits_value_bound(bits: Seq<bool>, n: int)
    requires
        0 <= n <= 8,
    ensures
        0 <= spec_bits_value(bits, n) < spec_pow2(n),
        spec_pow2(n) <= 256,
    decreases n,
{
    reveal_with_fuel(spec_pow2, 9);
    if n > 0 {
        lemma_bits_value_bound(bits, n - 1);
    }
}

} // verus!
