use vstd::prelude::*;

verus! {

/// PSG-related errors related to invalid parameters and chip state.
///
/// The variants that report a rejected frequency carry the IEEE-754 bit
/// pattern of that frequency (`f32::to_bits`), so the value is kept exactly.
#[derive(Debug, Clone, Copy, PartialEq, Eq, Structural)]
pub enum Error {
    InvalidClockFrequency(u32),
    ToneFrequencyOutOfRange(u32),
    TonePeriodOutOfRange(u16),
    NoisePeriodOutOfRange(u8),
    NoiseFrequencyOutOfRange(u32),
    LevelOutOfRange(u8),
    OctaveOutOfRange(u8),
    RegisterOutOfRange(u8),
    DivisionByZero,
    ReadError,
}

} // verus!
