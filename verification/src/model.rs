//! Bitfields as mathematics: a bitfield is a sequence of booleans, and bit
//! `i` is set when index `i` is a member.

use crate::store::{overlay, resized};
use vstd::prelude::*;

verus! {

/// The bitfield of one index: as short as can be, with that bit alone set.
pub open spec fn single(index: nat) -> Seq<bool> {
    Seq::new(index + 1, |k: int| k == index)
}

/// The greatest of the indices; zero when there is none.
pub open spec fn highest(indices: Seq<nat>) -> nat
    decreases indices.len(),
{
    if indices.len() == 0 {
        0
    } else {
        let before = highest(indices.drop_last());
        if indices.last() > before {
            indices.last()
        } else {
            before
        }
    }
}

/// The number of bits that it takes to hold the indices: one more than the
/// greatest of them, and none when there is no index.
pub open spec fn span(indices: Seq<nat>) -> nat {
    if indices.len() == 0 {
        0
    } else {
        highest(indices) + 1
    }
}

/// The bitfield of a collection of indices: just long enough for the
/// greatest of them, with a bit set exactly where an index names it.
pub open spec fn union_of(indices: Seq<nat>) -> Seq<bool> {
    Seq::new(span(indices), |k: int| indices.contains(k as nat))
}

/// The indices whose bits are set.
pub open spec fn members(bits: Seq<bool>) -> Set<nat> {
    Set::new(|k: nat| k < bits.len() && bits[k as int])
}

/// One step of combining: the incoming bitfield is padded to the length of
/// the longer of the two, and the accumulated one is merged into it.
pub open spec fn combined(accumulated: Seq<bool>, incoming: Seq<bool>) -> Seq<bool> {
    let len = if accumulated.len() > incoming.len() {
        accumulated.len()
    } else {
        incoming.len()
    };
    overlay(resized(incoming, len, false), accumulated)
}

/// The bitfield of one index has that index as its only member.
pub proof fn lemma_single_has_one_member(index: nat)
    ensures
        single(index).len() == index + 1,
        members(single(index)) == set![index],
{
    assert(members(single(index)) =~= set![index]);
}

/// No index lies above the highest, and the highest is one of them.
pub proof fn lemma_highest(indices: Seq<nat>)
    ensures
        forall|i: int| 0 <= i < indices.len() ==> indices[i] <= highest(indices),
        indices.len() > 0 ==> indices.contains(highest(indices)),
    decreases indices.len(),
{
    if indices.len() > 0 {
        let front = indices.drop_last();
        lemma_highest(front);
        assert forall|i: int| 0 <= i < indices.len() implies indices[i] <= highest(indices) by {
            if i < front.len() {
                assert(front[i] == indices[i]);
            }
        }
        if indices.last() > highest(front) || front.len() == 0 {
            assert(indices[indices.len() - 1] == highest(indices));
        } else {
            let i = choose|i: int| 0 <= i < front.len() && front[i] == highest(front);
            assert(indices[i] == highest(indices));
        }
    }
}

/// Two collections with the same members take the same number of bits.
pub proof fn lemma_span_of_same_members(first: Seq<nat>, second: Seq<nat>)
    requires
        forall|k: nat| first.contains(k) <==> second.contains(k),
    ensures
        span(first) == span(second),
{
    lemma_highest(first);
    lemma_highest(second);
    if first.len() > 0 {
        assert(first.contains(first[0]));
    }
    if second.len() > 0 {
        assert(second.contains(second[0]));
    }
}

/// The bitfield of a collection ends with the set bit of the greatest index,
/// holds every index of the collection, and holds no other.
pub proof fn lemma_union_holds_its_indices(indices: Seq<nat>)
    requires
        indices.len() > 0,
    ensures
        union_of(indices).len() == highest(indices) + 1,
        union_of(indices).last(),
        forall|i: int|
            0 <= i < indices.len() ==> indices[i] < union_of(indices).len() && union_of(
                indices,
            )[#[trigger] indices[i] as int],
        forall|k: nat| members(union_of(indices)).contains(k) <==> indices.contains(k),
{
    lemma_highest(indices);
    assert forall|i: int| 0 <= i < indices.len() implies indices[i] < union_of(indices).len()
        && union_of(indices)[#[trigger] indices[i] as int] by {
        assert(indices.contains(indices[i]));
    }
}

/// The bitfield of a collection depends on which indices occur in it, not on
/// their order nor on how often each occurs.
pub proof fn lemma_union_of_same_members(first: Seq<nat>, second: Seq<nat>)
    requires
        forall|k: nat| first.contains(k) <==> second.contains(k),
    ensures
        union_of(first) == union_of(second),
{
    lemma_span_of_same_members(first, second);
    assert(union_of(first) =~= union_of(second));
}

/// Naming an index twice gives the bitfield of naming it once.
pub proof fn lemma_duplicate_is_harmless(index: nat)
    ensures
        union_of(seq![index, index]) == union_of(seq![index]),
        union_of(seq![index]) == single(index),
        members(union_of(seq![index, index])) == members(union_of(seq![index])),
{
    let twice = seq![index, index];
    let once = seq![index];
    assert forall|k: nat| twice.contains(k) <==> once.contains(k) by {
        if twice.contains(k) {
            assert(once[0] == k);
        }
        if once.contains(k) {
            assert(twice[0] == k);
        }
    }
    lemma_union_of_same_members(twice, once);
    lemma_union_of_one(index);
}

/// The bitfield of a one-element collection is that of its element.
pub proof fn lemma_union_of_one(index: nat)
    ensures
        union_of(seq![index]) == single(index),
{
    let once = seq![index];
    assert(once.drop_last().len() == 0);
    assert(highest(once.drop_last()) == 0);
    assert(highest(once) == index);
    let left = union_of(once);
    assert forall|k: int| 0 <= k < left.len() implies #[trigger] left[k] == single(index)[k] by {
        if k == index {
            assert(once[0] == k as nat);
        }
    }
    assert(left =~= single(index));
}

/// The order of two indices does not matter.
pub proof fn lemma_order_is_irrelevant(first: nat, second: nat)
    ensures
        union_of(seq![first, second]) == union_of(seq![second, first]),
        members(union_of(seq![first, second])) == members(union_of(seq![second, first])),
{
    let one = seq![first, second];
    let other = seq![second, first];
    assert forall|k: nat| one.contains(k) <==> other.contains(k) by {
        if one.contains(k) {
            let i = choose|i: int| 0 <= i < one.len() && one[i] == k;
            assert(other[1 - i] == k);
        }
        if other.contains(k) {
            let i = choose|i: int| 0 <= i < other.len() && other[i] == k;
            assert(one[1 - i] == k);
        }
    }
    lemma_union_of_same_members(one, other);
}

/// Combining the bitfield of a collection with that of one more index gives
/// the bitfield of the collection with that index added.
pub proof fn lemma_combined_is_union(indices: Seq<nat>, index: nat)
    ensures
        combined(union_of(indices), single(index)) == union_of(indices.push(index)),
{
    let more = indices.push(index);
    assert(more.drop_last() =~= indices);
    assert(more.last() == index);
    lemma_highest(indices);
    let left = combined(union_of(indices), single(index));
    let right = union_of(more);
    assert(left.len() == right.len());
    assert forall|k: int| 0 <= k < left.len() implies #[trigger] left[k] == right[k] by {
        if more.contains(k as nat) {
            let i = choose|i: int| 0 <= i < more.len() && more[i] == k as nat;
            if i < indices.len() {
                assert(indices[i] == k as nat);
                assert(indices.contains(k as nat));
            }
        }
        if indices.contains(k as nat) {
            let i = choose|i: int| 0 <= i < indices.len() && indices[i] == k as nat;
            assert(more[i] == k as nat);
        }
        if k == index {
            assert(more[more.len() - 1] == k as nat);
        }
    }
    assert(left =~= right);
}

} // verus!
