use vstd::prelude::*;
use crate::errors::Error;

verus! {

/// One of the 3 audio channels available on PSG chips supported by the crate.
#[derive(Debug, Clone, Copy, PartialEq, Eq, Structural)]
pub enum AudioChannel {
    /// Audio Channel A
    A,
    /// Audio Channel B
    B,
    /// Audio Channel C
    C,
}

impl AudioChannel {
    /// The position of the channel: 0 for A, 1 for B, 2 for C.
    pub open spec fn spec_index(self) -> nat {
        match self {
            AudioChannel::A => 0,
            AudioChannel::B => 1,
            AudioChannel::C => 2,
        }
    }

    pub fn index(&self) -> (r: usize)
        ensures
            r == self.spec_index(),
            r < 3,
    {
        match self {
            AudioChannel::A => 0,
            AudioChannel::B => 1,
            AudioChannel::C => 2,
        }
    }
}

/// This enum covers all envelope shapes written to the envelope shape register (R13).
///
/// Register 13 layout: `| N/A | N/A | N/A | N/A | CONT | ATT | ALT | HOLD |`.
#[derive(Debug, Clone, Copy, PartialEq, Eq, Structural)]
pub enum Envelope {
    /// One of the five builtin envelope shapes.
    Shape(BuiltinEnvelopeShape),
    /// One of the five builtin envelope shapes, inverted (the ATT bit flipped).
    InvertedShape(BuiltinEnvelopeShape),
    /// A byte to be written to register 0xD of the chip.
    Raw(u8),
}

/// The ATT (attack) bit of the envelope shape register.
pub const ATTACK_BIT: u8 = 0b0100;

impl Envelope {
    /// The byte that stands for this envelope in register 13.
    pub open spec fn spec_byte(self) -> u8 {
        match self {
            Envelope::Shape(s) => s.spec_bits(),
            Envelope::InvertedShape(s) => s.spec_bits() ^ ATTACK_BIT,
            Envelope::Raw(n) => n,
        }
    }

    /// The byte that stands for this envelope in register 13.
    pub fn to_byte(&self) -> (r: u8)
        ensures
            r == self.spec_byte(),
    {
        match self {
            Envelope::Shape(s) => s.bits(),
            Envelope::InvertedShape(s) => s.bits() ^ ATTACK_BIT,
            Envelope::Raw(n) => *n,
        }
    }
}

impl From<&Envelope> for u8 {
    fn from(value: &Envelope) -> (r: u8) {
        value.to_byte()
    }
}

impl vstd::std_specs::convert::FromSpecImpl<&Envelope> for u8 {
    open spec fn obeys_from_spec() -> bool {
        true
    }

    open spec fn from_spec(value: &Envelope) -> u8 {
        value.spec_byte()
    }
}

/// One of the five main builtin envelope shapes.
///
/// To invert the shape use [`Envelope::InvertedShape`].
#[derive(Debug, Clone, Copy, PartialEq, Eq, Structural)]
pub enum BuiltinEnvelopeShape {
    /// Fade out and hold low (`0b1001`)
    FadeOut,
    /// Fade in and hold high (`0b1101`)
    FadeIn,
    /// Fade in then hold low (`0b1111`)
    Tooth,
    /// Fade in every repetition (`0b1100`)
    Saw,
    /// Alternate between fade out and fade in (`0b1110`)
    Triangle,
}

impl BuiltinEnvelopeShape {
    /// The CONT/ATT/ALT/HOLD bits of the shape.
    pub open spec fn spec_bits(self) -> u8 {
        match self {
            BuiltinEnvelopeShape::FadeOut => 0b1001,
            BuiltinEnvelopeShape::FadeIn => 0b1101,
            BuiltinEnvelopeShape::Tooth => 0b1111,
            BuiltinEnvelopeShape::Saw => 0b1100,
            BuiltinEnvelopeShape::Triangle => 0b1110,
        }
    }

    /// The CONT/ATT/ALT/HOLD bits of the shape.
    pub fn bits(self) -> (r: u8)
        ensures
            r == self.spec_bits(),
    {
        match self {
            BuiltinEnvelopeShape::FadeOut => 0b1001,
            BuiltinEnvelopeShape::FadeIn => 0b1101,
            BuiltinEnvelopeShape::Tooth => 0b1111,
            BuiltinEnvelopeShape::Saw => 0b1100,
            BuiltinEnvelopeShape::Triangle => 0b1110,
        }
    }
}

/// A helper enum for setting the envelope repetition frequency (f_e).
#[derive(Debug, Clone, Copy, PartialEq, Eq, Structural)]
pub enum EnvelopeFrequency {
    /// Frequency in Hertz
    Hertz(u16),
    /// Frequency in beats per minute
    BeatsPerMinute(u16),
    /// Raw envelope frequency value to be written to the chip
    Integer(u16),
}

/// The envelope period `EP = f_Master / (256 * f_E)` for a frequency of `hz` Hertz,
/// or the error that the conversion reports.
pub open spec fn spec_hertz_period(hz: u16, clock_frequency: u32) -> Result<u16, Error> {
    if hz == 0 {
        Err(Error::DivisionByZero)
    } else {
        let period = clock_frequency as int / (256 * hz as int);
        if period <= u16::MAX {
            Ok(period as u16)
        } else {
            Err(Error::TonePeriodOutOfRange((period % 0x1_0000) as u16))
        }
    }
}

impl EnvelopeFrequency {
    /// What `as_ep` returns.
    pub open spec fn spec_ep(self, clock_frequency: u32) -> Result<u16, Error> {
        match self {
            EnvelopeFrequency::Hertz(f_e) => spec_hertz_period(f_e, clock_frequency),
            EnvelopeFrequency::BeatsPerMinute(bpm) => match spec_hertz_period(bpm, clock_frequency) {
                Ok(hz) => Ok((60 * hz) as u16),
                Err(e) => Err(e),
            },
            EnvelopeFrequency::Integer(x) => Ok(x),
        }
    }

    /// The conversion multiplies the period of a beats-per-minute value by 60 in
    /// 16 bits; this holds where that product fits.
    pub open spec fn fits(self, clock_frequency: u32) -> bool {
        match self {
            EnvelopeFrequency::BeatsPerMinute(bpm) => match spec_hertz_period(bpm, clock_frequency) {
                Ok(hz) => 60 * hz <= u16::MAX,
                Err(_) => true,
            },
            _ => true,
        }
    }

    /// Returns the EnvelopeFrequency as a u16 value for registers 11 (LSB) and 12 (MSB).
    pub fn as_ep(self, clock_frequency: u32) -> (r: Result<u16, Error>)
        requires
            self.fits(clock_frequency),
        ensures
            r == self.spec_ep(clock_frequency),
    {
        match self {
            EnvelopeFrequency::Hertz(f_e) => hertz_period(f_e, clock_frequency),
            EnvelopeFrequency::BeatsPerMinute(bpm) => {
                let hz = hertz_period(bpm, clock_frequency)?;
                Ok(60 * hz)
            },
            EnvelopeFrequency::Integer(x) => Ok(x),
        }
    }
}

fn hertz_period(f_e: u16, clock_frequency: u32) -> (r: Result<u16, Error>)
    ensures
        r == spec_hertz_period(f_e, clock_frequency),
{
    if f_e == 0 {
        return Err(Error::DivisionByZero);
    }
    let period: u32 = clock_frequency / (256 * f_e as u32);
    if period <= 0xFFFF {
        Ok(period as u16)
    } else {
        Err(Error::TonePeriodOutOfRange((period % 0x1_0000) as u16))
    }
}

/// Inverting a builtin shape flips exactly the ATT bit of its register 13 byte,
/// and inverting the byte again gives the plain shape back.
pub proof fn lemma_inverted_shape_flips_attack(s: BuiltinEnvelopeShape)
    ensures
        Envelope::InvertedShape(s).spec_byte() & !ATTACK_BIT == Envelope::Shape(s).spec_byte() & !ATTACK_BIT,
        Envelope::InvertedShape(s).spec_byte() & ATTACK_BIT != Envelope::Shape(s).spec_byte() & ATTACK_BIT,
        Envelope::InvertedShape(s).spec_byte() ^ ATTACK_BIT == Envelope::Shape(s).spec_byte(),
{
    let b = s.spec_bits();
    assert((b ^ 4u8) & !4u8 == b & !4u8) by (bit_vector);
    assert((b ^ 4u8) & 4u8 != b & 4u8) by (bit_vector);
    assert((b ^ 4u8) ^ 4u8 == b) by (bit_vector);
}

/// A beats-per-minute frequency converts to sixty times the period of the same
/// number taken as Hertz, and fails exactly where that conversion fails.
pub proof fn lemma_bpm_is_sixty_times_hertz(n: u16, clock_frequency: u32)
    requires
        EnvelopeFrequency::BeatsPerMinute(n).fits(clock_frequency),
    ensures
        EnvelopeFrequency::Hertz(n).spec_ep(clock_frequency) is Err ==> EnvelopeFrequency::BeatsPerMinute(
            n,
        ).spec_ep(clock_frequency) == EnvelopeFrequency::Hertz(n).spec_ep(clock_frequency),
        EnvelopeFrequency::Hertz(n).spec_ep(clock_frequency) is Ok ==> EnvelopeFrequency::BeatsPerMinute(
            n,
        ).spec_ep(clock_frequency)->Ok_0 == 60 * EnvelopeFrequency::Hertz(n).spec_ep(
            clock_frequency,
        )->Ok_0,
{
}

/// The register 13 bytes follow the datasheet's CONT/ATT/ALT/HOLD patterns for every
/// builtin shape, plain and inverted, and a raw envelope is written as given.
pub proof fn lemma_envelope_bytes_match_datasheet(n: u8)
    ensures
        Envelope::Shape(BuiltinEnvelopeShape::FadeOut).spec_byte() == 0b1001,
        Envelope::Shape(BuiltinEnvelopeShape::FadeIn).spec_byte() == 0b1101,
        Envelope::Shape(BuiltinEnvelopeShape::Tooth).spec_byte() == 0b1111,
        Envelope::Shape(BuiltinEnvelopeShape::Saw).spec_byte() == 0b1100,
        Envelope::Shape(BuiltinEnvelopeShape::Triangle).spec_byte() == 0b1110,
        Envelope::InvertedShape(BuiltinEnvelopeShape::FadeOut).spec_byte() == 0b1101,
        Envelope::InvertedShape(BuiltinEnvelopeShape::FadeIn).spec_byte() == 0b1001,
        Envelope::InvertedShape(BuiltinEnvelopeShape::Tooth).spec_byte() == 0b1011,
        Envelope::InvertedShape(BuiltinEnvelopeShape::Saw).spec_byte() == 0b1000,
        Envelope::InvertedShape(BuiltinEnvelopeShape::Triangle).spec_byte() == 0b1010,
        Envelope::Raw(n).spec_byte() == n,
        forall|s: BuiltinEnvelopeShape| #[trigger] Envelope::Shape(s).spec_byte() == s.spec_bits(),
        forall|a: BuiltinEnvelopeShape, b: BuiltinEnvelopeShape|
            #[trigger] Envelope::Shape(a).spec_byte() == #[trigger] Envelope::Shape(b).spec_byte() ==> a == b,
{
    assert(0b1001u8 ^ 4u8 == 0b1101u8) by (bit_vector);
    assert(0b1101u8 ^ 4u8 == 0b1001u8) by (bit_vector);
    assert(0b1111u8 ^ 4u8 == 0b1011u8) by (bit_vector);
    assert(0b1100u8 ^ 4u8 == 0b1000u8) by (bit_vector);
    assert(0b1110u8 ^ 4u8 == 0b1010u8) by (bit_vector);
}

/// For a frequency `f != 0` the Hertz conversion is the floor of
/// `clock / (256 * f)` on the whole 16-bit `f`: where it fits in 16 bits it is
/// the period `p` with `p * 256 * f <= clock < (p + 1) * 256 * f`; otherwise the
/// error carries that quotient modulo 2^16. A zero frequency is a division by zero.
pub proof fn lemma_hertz_period_is_floor(f: u16, clock_frequency: u32)
    ensures
        f == 0 ==> EnvelopeFrequency::Hertz(f).spec_ep(clock_frequency) == Err::<u16, Error>(
            Error::DivisionByZero,
        ),
        f != 0 ==> match EnvelopeFrequency::Hertz(f).spec_ep(clock_frequency) {
            Ok(p) => p * 256 * f <= clock_frequency < (p + 1) * 256 * f,
            Err(Error::TonePeriodOutOfRange(x)) => 0x1_0000 * 256 * f <= clock_frequency && exists|q: int|
                #![trigger q % 0x1_0000]
                q * 256 * f <= clock_frequency < (q + 1) * 256 * f && x == q % 0x1_0000,
            Err(_) => false,
        },
{
    if f != 0 {
        let d: int = 256 * f as int;
        let c: int = clock_frequency as int;
        let q: int = c / d;
        assert(q * 256 * f <= c < (q + 1) * 256 * f && q >= 0) by (nonlinear_arith)
            requires
                d == 256 * f,
                f > 0,
                c >= 0,
                q == c / d,
        ;
        if q > u16::MAX {
            assert(0x1_0000 * 256 * f <= c) by (nonlinear_arith)
                requires
                    q * 256 * f <= c,
                    q >= 0x1_0000,
                    f > 0,
            ;
            assert(q % 0x1_0000 == q % 0x1_0000);
        }
    }
}

/// The period never grows when the frequency grows.
pub proof fn lemma_hertz_period_antitone(f1: u16, f2: u16, clock_frequency: u32)
    requires
        0 < f1 <= f2,
        EnvelopeFrequency::Hertz(f1).spec_ep(clock_frequency) is Ok,
        EnvelopeFrequency::Hertz(f2).spec_ep(clock_frequency) is Ok,
    ensures
        EnvelopeFrequency::Hertz(f2).spec_ep(clock_frequency)->Ok_0 <= EnvelopeFrequency::Hertz(
            f1,
        ).spec_ep(clock_frequency)->Ok_0,
{
    lemma_hertz_period_is_floor(f1, clock_frequency);
    lemma_hertz_period_is_floor(f2, clock_frequency);
    let p1 = EnvelopeFrequency::Hertz(f1).spec_ep(clock_frequency)->Ok_0;
    let p2 = EnvelopeFrequency::Hertz(f2).spec_ep(clock_frequency)->Ok_0;
    let c = clock_frequency as int;
    assert(p2 <= p1) by (nonlinear_arith)
        requires
            p2 * 256 * f2 <= c,
            c < (p1 + 1) * 256 * f1,
            0 < f1 <= f2,
            p1 >= 0,
            p2 >= 0,
    ;
}

} // verus!
