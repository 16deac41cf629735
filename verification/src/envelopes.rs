//! Envelope shapes, including a sampled level envelope.
use vstd::prelude::*;
pub use crate::audio::{BuiltinEnvelopeShape, EnvelopeFrequency};

verus! {

/// An enum for all envelope shape types.
#[derive(Debug, Clone, Copy)]
pub enum Envelope {
    Builtin(BuiltinEnvelopeShape),
    InvertedBuiltin(BuiltinEnvelopeShape),
    CustomBuiltin(u8),
    RawEnvelope(RawEnvelope),
}

impl Envelope {
    /// The byte for register 13; a raw envelope has none.
    pub open spec fn spec_byte(self) -> u8
        recommends
            !(self is RawEnvelope),
    {
        match self {
            Envelope::Builtin(s) => s.spec_bits(),
            Envelope::InvertedBuiltin(s) => s.spec_bits() ^ 0b00000100u8,
            Envelope::CustomBuiltin(n) => n,
            Envelope::RawEnvelope(_) => 0,
        }
    }

    /// The byte for register 13. A raw envelope is not written through register 13.
    pub fn to_byte(&self) -> (r: u8)
        requires
            !(self is RawEnvelope),
        ensures
            r == self.spec_byte(),
    {
        match self {
            Envelope::Builtin(builtin) => builtin.bits(),
            Envelope::InvertedBuiltin(builtin) => builtin.bits() ^ 0b00000100,
            Envelope::CustomBuiltin(n) => *n,
            // excluded by the precondition
            Envelope::RawEnvelope(_) => 0,
        }
    }
}

/// The register 13 byte of each envelope is that of the corresponding
/// [`crate::audio::Envelope`]: a builtin shape gives its datasheet bits, an
/// inverted one the same bits with exactly the ATT bit (0b0100) flipped, and a
/// custom byte is written as given.
pub proof fn lemma_envelope_bytes(s: BuiltinEnvelopeShape, n: u8)
    ensures
        Envelope::Builtin(s).spec_byte() == crate::audio::Envelope::Shape(s).spec_byte(),
        Envelope::InvertedBuiltin(s).spec_byte() == crate::audio::Envelope::InvertedShape(s).spec_byte(),
        Envelope::CustomBuiltin(n).spec_byte() == crate::audio::Envelope::Raw(n).spec_byte(),
        Envelope::CustomBuiltin(n).spec_byte() == n,
        Envelope::InvertedBuiltin(s).spec_byte() ^ 0b0100u8 == Envelope::Builtin(s).spec_byte(),
        Envelope::InvertedBuiltin(s).spec_byte() & 0b0100u8 != Envelope::Builtin(s).spec_byte() & 0b0100u8,
        Envelope::InvertedBuiltin(s).spec_byte() & !0b0100u8 == Envelope::Builtin(s).spec_byte() & !0b0100u8,
{
    crate::audio::lemma_envelope_bytes_match_datasheet(n);
    crate::audio::lemma_inverted_shape_flips_attack(s);
}

/// The number of samples of a raw envelope.
pub const RAW_ENVELOPE_LEN: usize = 4096;

/// A raw envelope for more precise control of channel levels.
///
/// It consists of a `data` field - which is an array of u8 values with length 4096,
/// and a length given in beats.
#[derive(Debug, Clone, Copy)]
pub struct RawEnvelope {
    data: [u8; 4096],
    length_beats: u8,
}

/// The byte that an `i8` offset is reinterpreted as (two's complement).
pub open spec fn offset_byte(offset: i8) -> u8 {
    if offset < 0 { (offset + 256) as u8 } else { offset as u8 }
}

/// Every level of `data` mirrored: `l` becomes `0xF - l`.
pub open spec fn inverted(data: Seq<u8>) -> Seq<u8> {
    data.map_values(|l: u8| (0xF - l) as u8)
}

/// Every level of `data` is a 4-bit value.
pub open spec fn four_bit_levels(data: Seq<u8>) -> bool {
    forall|i: int| 0 <= i < data.len() ==> #[trigger] data[i] <= 0xF
}

/// Inverting 4-bit levels gives 4-bit levels, and inverting twice gives the levels back.
pub proof fn lemma_invert_twice(data: Seq<u8>)
    requires
        four_bit_levels(data),
    ensures
        four_bit_levels(inverted(data)),
        inverted(inverted(data)) == data,
{
    assert(inverted(inverted(data)) =~= data);
}

impl RawEnvelope {
    /// Mirrors each 4-bit level: `l` becomes `0xF - l`.
    fn invert(&mut self)
        requires
            forall|i: int| 0 <= i < 4096 ==> #[trigger] old(self).data@[i] <= 0xF,
        ensures
            final(self).data@ == inverted(old(self).data@),
            final(self).length_beats == old(self).length_beats,
    {
        let mut i: usize = 0;
        while i < RAW_ENVELOPE_LEN
            invariant
                i <= 4096,
                self.length_beats == old(self).length_beats,
                forall|j: int| 0 <= j < i ==> #[trigger] self.data@[j] == 0xF - old(self).data@[j],
                forall|j: int| i <= j < 4096 ==> #[trigger] self.data@[j] == old(self).data@[j],
                forall|j: int| 0 <= j < 4096 ==> #[trigger] old(self).data@[j] <= 0xF,
            decreases 4096 - i,
        {
            self.data[i] = 0xF - self.data[i];
            i = i + 1;
        }
        assert(self.data@ =~= inverted(old(self).data@));
    }

    /// Adds `offset`, taken as its two's complement byte, to every level.
    fn offset(&mut self, offset: i8)
        requires
            forall|i: int| 0 <= i < 4096 ==> #[trigger] old(self).data@[i] + offset_byte(offset) <= u8::MAX,
        ensures
            forall|i: int| 0 <= i < 4096 ==> #[trigger] final(self).data@[i] == old(self).data@[i] + offset_byte(offset),
            final(self).length_beats == old(self).length_beats,
    {
        let delta: u8 = if offset < 0 { (offset as i16 + 256) as u8 } else { offset as u8 };
        let mut i: usize = 0;
        while i < RAW_ENVELOPE_LEN
            invariant
                i <= 4096,
                delta == offset_byte(offset),
                self.length_beats == old(self).length_beats,
                forall|j: int| 0 <= j < i ==> #[trigger] self.data@[j] == old(self).data@[j] + delta,
                forall|j: int| i <= j < 4096 ==> #[trigger] self.data@[j] == old(self).data@[j],
                forall|j: int| 0 <= j < 4096 ==> #[trigger] old(self).data@[j] + delta <= u8::MAX,
            decreases 4096 - i,
        {
            self.data[i] = self.data[i] + delta;
            i = i + 1;
        }
    }
}

} // verus!
