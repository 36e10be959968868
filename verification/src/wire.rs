//! The byte layout of a bitfield on the wire.
//!
//! A bitfield travels as its bit count in compact form, followed by the bits
//! themselves, eight to a byte, lowest position in the lowest bit. The last
//! byte is padded with unset bits.
//!
//! This is the layout of the SCALE codec for bit vectors. That the codec
//! follows it is taken on trust where the codec is called; what is proved
//! here is that reading the layout undoes writing it.

use vstd::prelude::*;

verus! {

/// Most bits that the wire form can carry: as many as one bit vector can
/// hold on a 32-bit machine.
pub const MAX_WIRE_BITS: usize = 0x1fff_ffff;

/// The compact form of a bit count: one byte below 64, two bytes below
/// 16384, four bytes otherwise. The two lowest bits of the first byte tell
/// the three apart; the count sits above them, little-endian.
pub open spec fn length_prefix(count: nat) -> Seq<u8>
    recommends
        count <= MAX_WIRE_BITS,
{
    if count < 64 {
        seq![(4 * count) as u8]
    } else if count < 16384 {
        let word = 4 * count + 1;
        seq![(word % 256) as u8, (word / 256) as u8]
    } else {
        let word = 4 * count + 2;
        seq![
            (word % 256) as u8,
            (word / 256 % 256) as u8,
            (word / 65536 % 256) as u8,
            (word / 16777216) as u8,
        ]
    }
}

/// The value of bit `position` within a byte: 1, 2, 4, up to 128.
pub open spec fn weight(position: int) -> int
    recommends
        0 <= position < 8,
{
    if position == 0 {
        1
    } else if position == 1 {
        2
    } else if position == 2 {
        4
    } else if position == 3 {
        8
    } else if position == 4 {
        16
    } else if position == 5 {
        32
    } else if position == 6 {
        64
    } else {
        128
    }
}

/// What the bit at `index` adds to its byte: its weight if it is set, and
/// nothing if it is unset or beyond the end.
pub open spec fn contribution(bits: Seq<bool>, index: int) -> int {
    if 0 <= index < bits.len() && bits[index] {
        weight(index % 8)
    } else {
        0
    }
}

/// Byte `k` of the packed bits: positions `8k` to `8k + 7`.
pub open spec fn packed_byte(bits: Seq<bool>, k: int) -> u8 {
    (contribution(bits, 8 * k) + contribution(bits, 8 * k + 1) + contribution(bits, 8 * k + 2)
        + contribution(bits, 8 * k + 3) + contribution(bits, 8 * k + 4) + contribution(
        bits,
        8 * k + 5,
    ) + contribution(bits, 8 * k + 6) + contribution(bits, 8 * k + 7)) as u8
}

/// Number of bytes that `count` bits fill.
pub open spec fn byte_count(count: nat) -> nat {
    (count + 7) / 8
}

/// The bits, packed eight to a byte.
pub open spec fn payload(bits: Seq<bool>) -> Seq<u8> {
    Seq::new(byte_count(bits.len()), |k: int| packed_byte(bits, k))
}

/// The wire form of a bit sequence.
pub open spec fn wire_form(bits: Seq<bool>) -> Seq<u8>
    recommends
        bits.len() <= MAX_WIRE_BITS,
{
    length_prefix(bits.len()) + payload(bits)
}

/// Whether bit `position` of `byte` is set.
pub open spec fn bit_of(byte: u8, position: int) -> bool
    recommends
        0 <= position < 8,
{
    (byte as int / weight(position)) % 2 == 1
}

/// The bit count that `bytes` declare and the number of bytes that the
/// declaration takes, if they start with a well-formed one.
///
/// A count must use the shortest form that holds it and must not exceed
/// `MAX_WIRE_BITS`. The fourth form, which is for counts that do not fit in
/// 30 bits, is therefore never accepted.
pub open spec fn declared(bytes: Seq<u8>) -> Option<(nat, nat)> {
    if bytes.len() == 0 {
        None
    } else if bytes[0] % 4 == 0 {
        Some(((bytes[0] / 4) as nat, 1))
    } else if bytes[0] % 4 == 1 && bytes.len() >= 2 {
        let count = (bytes[0] + 256 * bytes[1]) / 4;
        if count >= 64 {
            Some((count as nat, 2))
        } else {
            None
        }
    } else if bytes[0] % 4 == 2 && bytes.len() >= 4 {
        let count = (bytes[0] + 256 * bytes[1] + 65536 * bytes[2] + 16777216 * bytes[3]) / 4;
        if 16384 <= count <= MAX_WIRE_BITS {
            Some((count as nat, 4))
        } else {
            None
        }
    } else {
        None
    }
}

/// The bit sequence that `bytes` stand for, if they are the wire form of one:
/// a well-formed declaration of the bit count, followed by exactly as many
/// bytes as that count fills. Padding bits are not looked at.
pub open spec fn parse(bytes: Seq<u8>) -> Option<Seq<bool>> {
    match declared(bytes) {
        Some((count, start)) => {
            if bytes.len() == start + byte_count(count) {
                Some(Seq::new(count, |i: int| bit_of(bytes[start + i / 8], i % 8)))
            } else {
                None
            }
        },
        None => None,
    }
}

/// A byte built from eight bits gives each of them back.
proof fn lemma_bit_of_packed_byte(bits: Seq<bool>, k: int, position: int)
    requires
        0 <= k,
        0 <= position < 8,
    ensures
        bit_of(packed_byte(bits, k), position) == (8 * k + position < bits.len() && bits[8 * k
            + position]),
{
    assert((8 * k) % 8 == 0);
    assert((8 * k + 1) % 8 == 1);
    assert((8 * k + 2) % 8 == 2);
    assert((8 * k + 3) % 8 == 3);
    assert((8 * k + 4) % 8 == 4);
    assert((8 * k + 5) % 8 == 5);
    assert((8 * k + 6) % 8 == 6);
    assert((8 * k + 7) % 8 == 7);
}

/// The compact form of a count, followed by anything, declares that count.
proof fn lemma_prefix_is_declared(count: nat, rest: Seq<u8>)
    requires
        count <= MAX_WIRE_BITS,
    ensures
        declared(length_prefix(count) + rest) == Some((count, length_prefix(count).len())),
{
    let prefix = length_prefix(count);
    let bytes = prefix + rest;
    assert(bytes[0] == prefix[0]);
    if count < 64 {
    } else if count < 16384 {
        assert(bytes[1] == prefix[1]);
    } else {
        assert(bytes[1] == prefix[1]);
        assert(bytes[2] == prefix[2]);
        assert(bytes[3] == prefix[3]);
    }
}

/// Decoding undoes encoding: the wire form of a bit sequence stands for that
/// sequence, bit for bit and with the same length.
pub proof fn lemma_round_trip(bits: Seq<bool>)
    requires
        bits.len() <= MAX_WIRE_BITS,
    ensures
        parse(wire_form(bits)) == Some(bits),
{
    let prefix = length_prefix(bits.len());
    let bytes = wire_form(bits);
    lemma_prefix_is_declared(bits.len(), payload(bits));
    let start = prefix.len();
    let decoded = Seq::new(bits.len(), |i: int| bit_of(bytes[start + i / 8], i % 8));
    assert forall|i: int| 0 <= i < bits.len() implies #[trigger] decoded[i] == bits[i] by {
        assert(bytes[start + i / 8] == payload(bits)[i / 8]);
        lemma_bit_of_packed_byte(bits, i / 8, i % 8);
    }
    assert(decoded =~= bits);
}

} // verus!
