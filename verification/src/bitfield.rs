//! Sets of small indices, kept as packed bits and tagged with the kind of
//! index they hold.

use crate::model::{
    lemma_combined_is_union, lemma_highest, lemma_union_of_one, lemma_union_of_same_members,
    single, union_of,
};
use crate::store::{
    bit_at, bit_count, duplicate, or_with, repeated, resize, same_bits, scale_decode,
    scale_encode, set_bit, stored_bits, PackedBits, MAX_BITS,
};
use crate::wire::{lemma_round_trip, parse, wire_form, MAX_WIRE_BITS};
use std::marker::PhantomData;
use vstd::prelude::*;
use vstd::std_specs::cmp::PartialEqSpecImpl;

verus! {

/// Position of a bit inside a bitfield.
pub struct BitIndex(pub usize);

/// Ways in which building a bitfield can fail.
#[derive(Debug)]
pub enum BitfieldError {
    /// No index was given, so every bit would be zero.
    NullAssignment,
}

/// Ways in which bytes can fail to be a bitfield.
#[derive(Debug)]
pub enum WireError {
    /// The bytes are not the wire form of any bitfield.
    Malformed,
}

/// Values that name a bit position.
pub trait AsBitIndex {
    /// The position that this value names. An implementation proved with
    /// Verus states it here; for any other it stays unknown.
    open spec fn bit_position(&self) -> nat {
        arbitrary()
    }

    /// Returns the position of the corresponding bit in a bitfield.
    fn as_bit_index(&self) -> (index: BitIndex)
        ensures
            index.0 == self.bit_position(),
    ;
}

impl AsBitIndex for u32 {
    open spec fn bit_position(&self) -> nat {
        *self as nat
    }

    fn as_bit_index(&self) -> (index: BitIndex) {
        BitIndex(*self as usize)
    }
}

impl AsBitIndex for usize {
    open spec fn bit_position(&self) -> nat {
        *self as nat
    }

    fn as_bit_index(&self) -> (index: BitIndex) {
        BitIndex(*self)
    }
}

/// The positions that a collection of values names, in order.
pub open spec fn positions<T: AsBitIndex>(values: Seq<T>) -> Seq<nat> {
    Seq::new(values.len(), |i: int| values[i].bit_position())
}

/// A set of indices of kind `T`, one bit per index, lowest index first.
///
/// The type parameter only tells bitfields of different index kinds
/// apart; no value of it is stored.
#[derive(Debug, Hash)]
pub struct Bitfield<T>(PackedBits, PhantomData<T>);

/// Bitfield of core indices.
pub type CoreBitfield = Bitfield<u32>;

impl<T> View for Bitfield<T> {
    type V = Seq<bool>;

    /// The stored bits, trailing unset bits included.
    closed spec fn view(&self) -> Seq<bool> {
        stored_bits(self.0)
    }
}

/// A store of `index + 1` bits in which bit `index` alone is set.
fn single_store(index: usize) -> (store: PackedBits)
    requires
        index < MAX_BITS,
    ensures
        stored_bits(store) == single(index as nat),
{
    let mut store = repeated(false, index + 1);
    set_bit(&mut store, index, true);
    assert(stored_bits(store) =~= single(index as nat));
    store
}

impl<T: AsBitIndex> Bitfield<T> {
    /// The bitfield with exactly one member, the index that `value` names.
    pub fn from(value: T) -> (bitfield: Self)
        requires
            value.bit_position() < MAX_BITS,
        ensures
            bitfield@ == single(value.bit_position()),
    {
        Bitfield(single_store(value.as_bit_index().0), PhantomData)
    }

    /// The bitfield whose members are the indices that the values name.
    ///
    /// The last value seeds the result; the others are then merged into it
    /// one by one, from the first on. An empty collection is refused.
    pub fn try_from(value: Vec<T>) -> (result: Result<Self, BitfieldError>)
        requires
            forall|i: int| 0 <= i < value@.len() ==> value@[i].bit_position() < MAX_BITS,
        ensures
            match result {
                Ok(bitfield) => value@.len() > 0 && bitfield@ == union_of(positions(value@)),
                Err(BitfieldError::NullAssignment) => value@.len() == 0,
            },
    {
        let mut value = value;
        let ghost all = positions(value@);
        let last = match value.pop() {
            Some(last) => last,
            None => {
                return Err(BitfieldError::NullAssignment);
            },
        };
        let mut accumulated = single_store(last.as_bit_index().0);
        proof {
            lemma_union_of_one(all.last());
        }
        let mut i: usize = 0;
        while i < value.len()
            invariant
                i <= value@.len(),
                all.len() == value@.len() + 1,
                forall|j: int| 0 <= j < value@.len() ==> value@[j].bit_position() == all[j],
                forall|j: int| 0 <= j < all.len() ==> all[j] < MAX_BITS,
                stored_bits(accumulated) == union_of(seq![all.last()] + all.take(i as int)),
            decreases value@.len() - i,
        {
            let ghost done = seq![all.last()] + all.take(i as int);
            assert(value@[i as int].bit_position() == all[i as int]);
            let mut incoming = single_store(value[i].as_bit_index().0);
            let len = if bit_count(&accumulated) > bit_count(&incoming) {
                bit_count(&accumulated)
            } else {
                bit_count(&incoming)
            };
            proof {
                lemma_highest(done);
            }
            resize(&mut incoming, len, false);
            accumulated = or_with(incoming, accumulated);
            proof {
                lemma_combined_is_union(done, all[i as int]);
                assert(done.push(all[i as int]) =~= seq![all.last()] + all.take(i + 1));
            }
            i += 1;
        }
        proof {
            let done = seq![all.last()] + all.take(i as int);
            assert forall|k: nat| done.contains(k) <==> all.contains(k) by {
                if done.contains(k) {
                    let j = choose|j: int| 0 <= j < done.len() && done[j] == k;
                    if j == 0 {
                        assert(all[all.len() - 1] == k);
                    } else {
                        assert(all[j - 1] == k);
                    }
                }
                if all.contains(k) {
                    let j = choose|j: int| 0 <= j < all.len() && all[j] == k;
                    if j == all.len() - 1 {
                        assert(done[0] == k);
                    } else {
                        assert(done[j + 1] == k);
                    }
                }
            }
            lemma_union_of_same_members(done, all);
        }
        Ok(Bitfield(accumulated, PhantomData))
    }
}

impl<T> Bitfield<T> {
    /// Number of bits stored: one more than the highest index seen.
    pub fn len(&self) -> (len: usize)
        ensures
            len == self@.len(),
    {
        bit_count(&self.0)
    }

    /// The bit at `index`, or `None` beyond the end.
    pub fn get(&self, index: usize) -> (bit: Option<bool>)
        ensures
            bit == if index < self@.len() {
                Some(self@[index as int])
            } else {
                None
            },
    {
        if index < bit_count(&self.0) {
            Some(bit_at(&self.0, index))
        } else {
            None
        }
    }

    /// The wire form of this bitfield: its bit count in compact form, then
    /// its bits, eight to a byte. Decoding the result gives the same bits
    /// back.
    pub fn encode(&self) -> (bytes: Vec<u8>)
        requires
            self@.len() <= MAX_WIRE_BITS,
        ensures
            bytes@ == wire_form(self@),
            parse(bytes@) == Some(self@),
    {
        proof {
            lemma_round_trip(self@);
        }
        scale_encode(&self.0)
    }

    /// The bitfield that `bytes` are the wire form of. Bytes whose declared
    /// bit count does not match the payload that follows are refused.
    ///
    /// There must be few enough bytes for a bitfield to address every bit of
    /// them.
    pub fn decode(bytes: &[u8]) -> (result: Result<Self, WireError>)
        requires
            bytes@.len() <= MAX_BITS / 8,
        ensures
            match result {
                Ok(bitfield) => parse(bytes@) == Some(bitfield@),
                Err(WireError::Malformed) => parse(bytes@) is None,
            },
    {
        match scale_decode(bytes) {
            Ok(store) => Ok(Bitfield(store, PhantomData)),
            Err(_) => Err(WireError::Malformed),
        }
    }
}

impl<T> Clone for Bitfield<T> {
    fn clone(&self) -> (copy: Self)
        ensures
            copy@ == self@,
    {
        Bitfield(duplicate(&self.0), PhantomData)
    }
}

impl<T> PartialEq for Bitfield<T> {
    /// Two bitfields are equal when they store the same bits; trailing unset
    /// bits count.
    fn eq(&self, other: &Self) -> (equal: bool) {
        same_bits(&self.0, &other.0)
    }
}

impl<T> PartialEqSpecImpl for Bitfield<T> {
    open spec fn obeys_eq_spec() -> bool {
        true
    }

    open spec fn eq_spec(&self, other: &Self) -> bool {
        self@ == other@
    }
}

impl<T> Eq for Bitfield<T> {

}

} // verus!
