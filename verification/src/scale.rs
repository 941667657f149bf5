//! The encodings that a signed payload is framed from.

use parity_scale_codec::Encode;
use vstd::prelude::*;

verus! {

/// The compact encoding of `value`.
pub uninterp spec fn compact_u32_encoding(value: u32) -> Seq<u8>;

/// The compact encoding of `value`.
pub uninterp spec fn compact_u128_encoding(value: u128) -> Seq<u8>;

/// Period and phase of the mortal era that starts at block `current` and
/// lasts about `period` blocks.
pub uninterp spec fn mortal_era_of(period: u64, current: u64) -> (u64, u64);

/// The encoding of the mortal era of `period` and `phase`.
pub uninterp spec fn mortal_era_encoding(period: u64, phase: u64) -> Seq<u8>;

/// The periods that a mortal era can have: the powers of two from 4 to 65536.
pub open spec fn valid_era_period(period: u64) -> bool {
    period == 4 || period == 8 || period == 16 || period == 32 || period == 64 || period == 128
        || period == 256 || period == 512 || period == 1024 || period == 2048 || period == 4096
        || period == 8192 || period == 16384 || period == 32768 || period == 65536
}

/// How long a transaction stays valid, as the chains encode it.
#[derive(Clone, Copy, Debug, PartialEq, Eq, Structural)]
pub enum Era {
    /// The transaction is valid forever.
    Immortal,
    /// The transaction is valid for `period` blocks from the block that
    /// `phase` gives within the period.
    Mortal { period: u64, phase: u64 },
}

/// Calls `Encode::encode` on a `parity_scale_codec::Compact<u32>`. The
/// contract names the bytes, which depend on the value alone.
#[verifier::external_body]
pub(crate) fn encode_compact_u32(value: u32) -> (bytes: Vec<u8>)
    ensures
        bytes@ == compact_u32_encoding(value),
{
    parity_scale_codec::Compact(value).encode()
}

/// Calls `Encode::encode` on a `parity_scale_codec::Compact<u128>`. The
/// contract names the bytes, which depend on the value alone.
#[verifier::external_body]
pub(crate) fn encode_compact_u128(value: u128) -> (bytes: Vec<u8>)
    ensures
        bytes@ == compact_u128_encoding(value),
{
    parity_scale_codec::Compact(value).encode()
}

/// Calls `sp_runtime::generic::Era::mortal`. The contract names period and
/// phase of the result and claims what the source shows of them: the result
/// is mortal, its period is a power of two from 4 to 65536, and its phase
/// lies below the period.
#[verifier::external_body]
pub(crate) fn mortal_era(period: u64, current: u64) -> (era: Era)
    ensures
        era is Mortal,
        (era->period, era->phase) == mortal_era_of(period, current),
        valid_era_period(era->period),
        era->phase < era->period,
{
    match sp_runtime::generic::Era::mortal(period, current) {
        sp_runtime::generic::Era::Immortal => Era::Immortal,
        sp_runtime::generic::Era::Mortal(period, phase) => Era::Mortal { period, phase },
    }
}

/// Calls `Encode::encode` on a `sp_runtime::generic::Era::Mortal`. The
/// source subtracts one from the trailing zeros of the period, so `requires`
/// asks for a period that an era can have. The contract names the bytes and
/// claims their number: the era is encoded as one `u16`.
#[verifier::external_body]
pub(crate) fn encode_mortal_era(period: u64, phase: u64) -> (bytes: Vec<u8>)
    requires
        valid_era_period(period),
    ensures
        bytes@ == mortal_era_encoding(period, phase),
        bytes@.len() == 2,
{
    sp_runtime::generic::Era::Mortal(period, phase).encode()
}

/// The four bytes of `value`, lowest first.
pub open spec fn u32_le_bytes(value: u32) -> Seq<u8> {
    seq![
        (value % 256) as u8,
        ((value / 256) % 256) as u8,
        ((value / 65536) % 256) as u8,
        ((value / 16777216) % 256) as u8,
    ]
}

/// Encodes `value` in four bytes, lowest first.
pub fn encode_u32(value: u32) -> (bytes: Vec<u8>)
    ensures
        bytes@ == u32_le_bytes(value),
{
    let mut bytes: Vec<u8> = Vec::new();
    bytes.push((value % 256) as u8);
    bytes.push(((value / 256) % 256) as u8);
    bytes.push(((value / 65536) % 256) as u8);
    bytes.push(((value / 16777216) % 256) as u8);
    bytes
}

/// How the chains encode an era: one zero byte for an immortal one, the two
/// bytes of period and phase for a mortal one.
pub open spec fn era_encoding(era: Era) -> Seq<u8> {
    match era {
        Era::Immortal => seq![0u8],
        Era::Mortal { period, phase } => mortal_era_encoding(period, phase),
    }
}

/// Whether `era` is immortal or has a period that an era can have.
pub open spec fn era_is_valid(era: Era) -> bool {
    match era {
        Era::Immortal => true,
        Era::Mortal { period, phase } => valid_era_period(period),
    }
}

/// Encodes an era.
pub(crate) fn encode_era(era: &Era) -> (bytes: Vec<u8>)
    requires
        era_is_valid(*era),
    ensures
        bytes@ == era_encoding(*era),
{
    match era {
        Era::Immortal => {
            let mut bytes: Vec<u8> = Vec::new();
            bytes.push(0u8);
            bytes
        },
        Era::Mortal { period, phase } => encode_mortal_era(*period, *phase),
    }
}

/// Appends `tail` to `bytes`.
pub fn append_bytes(bytes: &mut Vec<u8>, tail: &[u8])
    ensures
        final(bytes)@ == old(bytes)@ + tail@,
{
    let ghost before = bytes@;
    let mut i: usize = 0;
    while i < tail.len()
        invariant
            i <= tail.len(),
            bytes@ == before + tail@.take(i as int),
        decreases tail.len() - i,
    {
        bytes.push(tail[i]);
        i += 1;
    }
}

} // verus!
