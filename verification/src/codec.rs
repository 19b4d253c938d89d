//! Wire encoding of wrappers over 64-bit unsigned integers.
//!
//! A wrapper adds nothing to the wire: its encoding is byte-identical to the
//! encoding of the bare representation value — no envelope, no trace of the
//! unit marker — and decoding reads a bare representation value and wraps
//! it. Both directions are stated against the little-endian byte functions of
//! `vstd::bytes`, so the round trip is proved, and a decoder rejects exactly
//! the byte strings whose length is not that of the representation.

use crate::amount::Amount;
use crate::id::Id;
use crate::instant::Instant;
use vstd::bytes::{
    lemma_auto_spec_u64_to_from_le_bytes,
    spec_u64_from_le_bytes,
    spec_u64_to_le_bytes,
    u64_from_le_bytes,
    u64_to_le_bytes,
};
use vstd::prelude::*;

verus! {

impl<const IS_COPY: bool, const HAS_DEFAULT: bool, Unit> Amount<IS_COPY, HAS_DEFAULT, Unit, u64> {
    /// Encodes the amount as the eight little-endian bytes of its bare
    /// representation value: byte-identical to encoding the unwrapped value.
    pub fn to_le_bytes(&self) -> (r: Vec<u8>)
        ensures
            r@ == spec_u64_to_le_bytes(self@),
            r@.len() == 8,
    {
        u64_to_le_bytes(self.get())
    }

    /// Decodes an amount from the eight little-endian bytes of its
    /// representation value. Returns nothing exactly when the input is not
    /// eight bytes long — the only way decoding can fail.
    pub fn from_le_bytes(bytes: &[u8]) -> (r: Option<Self>)
        ensures
            bytes@.len() == 8 ==> (r matches Some(a) && a@ == spec_u64_from_le_bytes(bytes@)),
            bytes@.len() != 8 ==> r is None,
    {
        if bytes.len() == 8 {
            Some(Amount::new(u64_from_le_bytes(bytes)))
        } else {
            None
        }
    }
}

impl<const IS_COPY: bool, const HAS_DEFAULT: bool, Unit> Id<IS_COPY, HAS_DEFAULT, Unit, u64> {
    /// Encodes the identifier as the eight little-endian bytes of its bare
    /// representation value: byte-identical to encoding the unwrapped value.
    pub fn to_le_bytes(&self) -> (r: Vec<u8>)
        ensures
            r@ == spec_u64_to_le_bytes(self@),
            r@.len() == 8,
    {
        u64_to_le_bytes(self.get())
    }

    /// Decodes an identifier from the eight little-endian bytes of its
    /// representation value; fails exactly on inputs that are not eight
    /// bytes long.
    pub fn from_le_bytes(bytes: &[u8]) -> (r: Option<Self>)
        ensures
            bytes@.len() == 8 ==> (r matches Some(a) && a@ == spec_u64_from_le_bytes(bytes@)),
            bytes@.len() != 8 ==> r is None,
    {
        if bytes.len() == 8 {
            Some(Id::new(u64_from_le_bytes(bytes)))
        } else {
            None
        }
    }
}

impl<const IS_COPY: bool, const HAS_DEFAULT: bool, Unit> Instant<IS_COPY, HAS_DEFAULT, Unit, u64> {
    /// Encodes the instant as the eight little-endian bytes of its bare
    /// representation value: byte-identical to encoding the unwrapped value.
    pub fn to_le_bytes(&self) -> (r: Vec<u8>)
        ensures
            r@ == spec_u64_to_le_bytes(self@),
            r@.len() == 8,
    {
        u64_to_le_bytes(self.get())
    }

    /// Decodes an instant from the eight little-endian bytes of its
    /// representation value; fails exactly on inputs that are not eight
    /// bytes long.
    pub fn from_le_bytes(bytes: &[u8]) -> (r: Option<Self>)
        ensures
            bytes@.len() == 8 ==> (r matches Some(a) && a@ == spec_u64_from_le_bytes(bytes@)),
            bytes@.len() != 8 ==> r is None,
    {
        if bytes.len() == 8 {
            Some(Instant::new(u64_from_le_bytes(bytes)))
        } else {
            None
        }
    }
}

/// Decoding an encoded amount restores the amount: the serialization round
/// trip is the identity, and the encoded form depends on nothing but the
/// unwrapped representation value.
pub proof fn lemma_amount_codec_roundtrip<const IS_COPY: bool, const HAS_DEFAULT: bool, Unit>(
    a: Amount<IS_COPY, HAS_DEFAULT, Unit, u64>,
)
    ensures
        spec_u64_to_le_bytes(a@).len() == 8,
        Amount::<IS_COPY, HAS_DEFAULT, Unit, u64>::wrap_spec(
            spec_u64_from_le_bytes(spec_u64_to_le_bytes(a@)),
        ) == a,
        spec_u64_from_le_bytes(spec_u64_to_le_bytes(a@)) == a@,
{
    lemma_auto_spec_u64_to_from_le_bytes();
    Amount::<IS_COPY, HAS_DEFAULT, Unit, u64>::lemma_wrap_extensional(a);
}

/// Decoding an encoded identifier restores the identifier.
pub proof fn lemma_id_codec_roundtrip<const IS_COPY: bool, const HAS_DEFAULT: bool, Unit>(
    a: Id<IS_COPY, HAS_DEFAULT, Unit, u64>,
)
    ensures
        spec_u64_to_le_bytes(a@).len() == 8,
        Id::<IS_COPY, HAS_DEFAULT, Unit, u64>::wrap_spec(
            spec_u64_from_le_bytes(spec_u64_to_le_bytes(a@)),
        ) == a,
        spec_u64_from_le_bytes(spec_u64_to_le_bytes(a@)) == a@,
{
    lemma_auto_spec_u64_to_from_le_bytes();
    Id::<IS_COPY, HAS_DEFAULT, Unit, u64>::lemma_wrap_extensional(a);
}

/// Decoding an encoded instant restores the instant.
pub proof fn lemma_instant_codec_roundtrip<const IS_COPY: bool, const HAS_DEFAULT: bool, Unit>(
    a: Instant<IS_COPY, HAS_DEFAULT, Unit, u64>,
)
    ensures
        spec_u64_to_le_bytes(a@).len() == 8,
        Instant::<IS_COPY, HAS_DEFAULT, Unit, u64>::wrap_spec(
            spec_u64_from_le_bytes(spec_u64_to_le_bytes(a@)),
        ) == a,
        spec_u64_from_le_bytes(spec_u64_to_le_bytes(a@)) == a@,
{
    lemma_auto_spec_u64_to_from_le_bytes();
    Instant::<IS_COPY, HAS_DEFAULT, Unit, u64>::lemma_wrap_extensional(a);
}

} // verus!
