//! Bit storage backed by `bitvec`, with the SCALE codec of `parity_scale_codec`.
//!
//! Everything in this module is believed, not proved: each function hands its
//! arguments to one function of those crates, and its contract records what
//! that function is documented to do.

use crate::wire::{parse, wire_form, MAX_WIRE_BITS};
use bitvec::order::Lsb0;
use bitvec::vec::BitVec;
use parity_scale_codec::{DecodeAll, Encode};
use vstd::prelude::*;

verus! {

/// Most bits that one store can hold: `BitSlice::MAX_BITS`, which is
/// `usize::MAX >> 3`.
pub const MAX_BITS: usize = usize::MAX / 8;

/// A growable, bit-packed sequence of booleans: a `BitVec<u8, Lsb0>`.
#[verifier::external_body]
#[derive(Debug, Hash)]
pub struct PackedBits {
    inner: BitVec<u8, Lsb0>,
}

/// The bits that a store holds, lowest position first.
pub uninterp spec fn stored_bits(store: PackedBits) -> Seq<bool>;

/// `bits` brought to `len` bits: cut there, or padded with bits equal to
/// `fill`.
pub open spec fn resized(bits: Seq<bool>, len: nat, fill: bool) -> Seq<bool> {
    Seq::new(len, |i: int| if i < bits.len() { bits[i] } else { fill })
}

/// `base` with every bit raised that is set at the same position of `other`.
/// Positions that `other` lacks count as unset.
pub open spec fn overlay(base: Seq<bool>, other: Seq<bool>) -> Seq<bool> {
    Seq::new(base.len(), |i: int| base[i] || (i < other.len() && other[i]))
}

/// The error that `parity_scale_codec` reports when bytes do not decode.
#[verifier::external_type_specification]
#[verifier::external_body]
pub struct ExCodecError(parity_scale_codec::Error);

/// `BitVec::repeat`: a store of `len` bits, each equal to `bit`. The call
/// panics above `MAX_BITS`.
#[verifier::external_body]
pub(crate) fn repeated(bit: bool, len: usize) -> (store: PackedBits)
    requires
        len <= MAX_BITS,
    ensures
        stored_bits(store) == Seq::new(len as nat, |i: int| bit),
{
    PackedBits { inner: BitVec::repeat(bit, len) }
}

/// `BitVec::len`: the number of bits held.
#[verifier::external_body]
pub(crate) fn bit_count(store: &PackedBits) -> (count: usize)
    ensures
        count == stored_bits(*store).len(),
{
    store.inner.len()
}

/// Indexing a `BitSlice` by position: the bit stored there. The call panics
/// when `index` is out of bounds.
#[verifier::external_body]
pub(crate) fn bit_at(store: &PackedBits, index: usize) -> (bit: bool)
    requires
        index < stored_bits(*store).len(),
    ensures
        bit == stored_bits(*store)[index as int],
{
    store.inner[index]
}

/// `BitSlice::set`: writes one bit and leaves the others alone. The call
/// panics when `index` is out of bounds.
#[verifier::external_body]
pub(crate) fn set_bit(store: &mut PackedBits, index: usize, value: bool)
    requires
        index < stored_bits(*old(store)).len(),
    ensures
        stored_bits(*final(store)) == stored_bits(*old(store)).update(index as int, value),
{
    store.inner.set(index, value)
}

/// `BitVec::resize` to a length that is not below the present one: the bits
/// stay, and bits equal to `fill` follow them up to `len`. The call panics
/// above `MAX_BITS`.
#[verifier::external_body]
pub(crate) fn resize(store: &mut PackedBits, len: usize, fill: bool)
    requires
        stored_bits(*old(store)).len() <= len <= MAX_BITS,
    ensures
        stored_bits(*final(store)) == resized(stored_bits(*old(store)), len as nat, fill),
{
    store.inner.resize(len, fill)
}

/// `BitOr::bitor` of two bit vectors: the left operand, with the right one
/// merged in by Boolean OR. A shorter right operand is zero-extended.
#[verifier::external_body]
pub(crate) fn or_with(left: PackedBits, right: PackedBits) -> (merged: PackedBits)
    requires
        stored_bits(right).len() <= stored_bits(left).len(),
    ensures
        stored_bits(merged) == overlay(stored_bits(left), stored_bits(right)),
{
    PackedBits { inner: left.inner | right.inner }
}

/// `PartialEq::eq` of two bit vectors: same length and, at each position, the
/// same bit.
#[verifier::external_body]
pub(crate) fn same_bits(left: &PackedBits, right: &PackedBits) -> (same: bool)
    ensures
        same == (stored_bits(*left) == stored_bits(*right)),
{
    left.inner == right.inner
}

/// `Clone::clone` of a bit vector: a store with the same bits.
#[verifier::external_body]
pub(crate) fn duplicate(store: &PackedBits) -> (copy: PackedBits)
    ensures
        stored_bits(copy) == stored_bits(*store),
{
    PackedBits { inner: store.inner.clone() }
}

/// `Encode::encode` of a bit vector: the compact bit count, then the bits
/// packed eight to a byte. The call panics above `MAX_WIRE_BITS`.
#[verifier::external_body]
pub(crate) fn scale_encode(store: &PackedBits) -> (bytes: Vec<u8>)
    requires
        stored_bits(*store).len() <= MAX_WIRE_BITS,
    ensures
        bytes@ == wire_form(stored_bits(*store)),
{
    store.inner.encode()
}

/// `DecodeAll::decode_all` for a bit vector: reads the compact bit count and
/// that many packed bits, and fails unless the input ends there.
///
/// The input must be short enough for one bit vector to address every bit
/// of it. Only on a 32-bit machine can a wire form be longer: the layout
/// admits payloads of up to 2^26 bytes, and there the call fails on the
/// largest of them.
#[verifier::external_body]
pub(crate) fn scale_decode(bytes: &[u8]) -> (decoded: Result<PackedBits, parity_scale_codec::Error>)
    requires
        bytes@.len() <= MAX_BITS / 8,
    ensures
        match decoded {
            Ok(store) => parse(bytes@) == Some(stored_bits(store)),
            Err(_) => parse(bytes@) is None,
        },
{
    let mut input = bytes;
    match BitVec::<u8, Lsb0>::decode_all(&mut input) {
        Ok(inner) => Ok(PackedBits { inner }),
        Err(error) => Err(error),
    }
}

} // verus!
