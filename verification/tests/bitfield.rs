use indexed_bitfield::bitfield::{AsBitIndex, BitIndex, Bitfield, BitfieldError, CoreBitfield};
use std::collections::hash_map::DefaultHasher;
use std::hash::{Hash, Hasher};

fn bits<T>(bitfield: &Bitfield<T>) -> Vec<bool> {
    (0..bitfield.len())
        .map(|i| bitfield.get(i).expect("index below the length"))
        .collect()
}

fn members<T>(bitfield: &Bitfield<T>) -> Vec<usize> {
    (0..bitfield.len())
        .filter(|i| bitfield.get(*i) == Some(true))
        .collect()
}

fn hash_of<T: Hash>(value: &T) -> u64 {
    let mut hasher = DefaultHasher::new();
    value.hash(&mut hasher);
    hasher.finish()
}

#[derive(Clone, Copy)]
struct Validator(u16);

impl AsBitIndex for Validator {
    fn as_bit_index(&self) -> BitIndex {
        BitIndex(self.0 as usize)
    }
}

#[test]
fn primitives_name_their_own_value() {
    assert_eq!(7u32.as_bit_index().0, 7);
    assert_eq!(0u32.as_bit_index().0, 0);
    assert_eq!(u32::MAX.as_bit_index().0, u32::MAX as usize);
    assert_eq!(12usize.as_bit_index().0, 12);
    assert_eq!(0usize.as_bit_index().0, 0);
}

#[test]
fn single_index_sets_only_its_bit() {
    for index in [0u32, 1, 3, 7, 8, 17, 64, 1000] {
        let bitfield = Bitfield::from(index);
        assert_eq!(bitfield.len(), index as usize + 1);
        assert_eq!(members(&bitfield), vec![index as usize]);
    }
}

#[test]
fn single_index_zero_is_one_set_bit() {
    let bitfield = Bitfield::from(0usize);
    assert_eq!(bits(&bitfield), vec![true]);
}

#[test]
fn index_three_gives_four_bits() {
    let bitfield: CoreBitfield = Bitfield::from(3u32);
    assert_eq!(bitfield.len(), 4);
    assert_eq!(bits(&bitfield), vec![false, false, false, true]);
}

#[test]
fn collection_of_one_index() {
    let bitfield = Bitfield::try_from(vec![3u32]).expect("one index is enough");
    assert_eq!(bitfield.len(), 4);
    assert_eq!(bits(&bitfield), vec![false, false, false, true]);
}

#[test]
fn collection_of_three_and_zero() {
    let bitfield = Bitfield::try_from(vec![3u32, 0]).expect("two indices");
    assert_eq!(bitfield.len(), 4);
    assert_eq!(bits(&bitfield), vec![true, false, false, true]);
}

#[test]
fn empty_collection_is_refused() {
    let refused = Bitfield::<u32>::try_from(Vec::new());
    assert!(matches!(refused, Err(BitfieldError::NullAssignment)));
    let refused = Bitfield::<usize>::try_from(vec![]);
    assert!(matches!(refused, Err(BitfieldError::NullAssignment)));
}

#[test]
fn every_index_is_set_and_length_follows_the_highest() {
    let indices = vec![5usize, 1, 9, 4, 1, 0];
    let bitfield = Bitfield::try_from(indices.clone()).expect("indices given");
    assert_eq!(bitfield.len(), 10);
    for index in &indices {
        assert_eq!(bitfield.get(*index), Some(true));
    }
    assert_eq!(members(&bitfield), vec![0, 1, 4, 5, 9]);
    assert_eq!(
        bits(&bitfield),
        vec![true, true, false, false, true, true, false, false, false, true]
    );
}

#[test]
fn highest_index_may_stand_anywhere() {
    for indices in [vec![9u32, 2, 4], vec![2, 9, 4], vec![2, 4, 9]] {
        let bitfield = Bitfield::try_from(indices).expect("indices given");
        assert_eq!(bitfield.len(), 10);
        assert_eq!(members(&bitfield), vec![2, 4, 9]);
    }
}

#[test]
fn short_seed_grows_and_long_seed_stays() {
    let grown = Bitfield::try_from(vec![40u32, 1]).expect("indices given");
    assert_eq!(grown.len(), 41);
    assert_eq!(members(&grown), vec![1, 40]);
    let kept = Bitfield::try_from(vec![1u32, 40]).expect("indices given");
    assert_eq!(kept.len(), 41);
    assert_eq!(members(&kept), vec![1, 40]);
    assert!(grown == kept);
}

#[test]
fn naming_an_index_twice_changes_nothing() {
    for index in [0u32, 3, 8, 31] {
        let once = Bitfield::try_from(vec![index]).expect("one index");
        let twice = Bitfield::try_from(vec![index, index]).expect("two indices");
        assert_eq!(members(&once), members(&twice));
        assert_eq!(once.len(), twice.len());
        assert!(once == twice);
        assert!(once == Bitfield::from(index));
    }
}

#[test]
fn order_of_two_indices_does_not_matter() {
    for (first, second) in [(3u32, 0u32), (0, 3), (7, 8), (15, 16), (2, 100)] {
        let one = Bitfield::try_from(vec![first, second]).expect("two indices");
        let other = Bitfield::try_from(vec![second, first]).expect("two indices");
        assert_eq!(members(&one), members(&other));
        assert!(one == other);
    }
}

#[test]
fn bits_beyond_the_end_are_absent() {
    let bitfield = Bitfield::from(3u32);
    assert_eq!(bitfield.get(2), Some(false));
    assert_eq!(bitfield.get(3), Some(true));
    assert_eq!(bitfield.get(4), None);
    assert_eq!(bitfield.get(usize::MAX), None);
}

#[test]
fn bits_across_byte_borders() {
    let bitfield = Bitfield::try_from(vec![7usize, 8, 15, 16, 23]).expect("indices given");
    assert_eq!(bitfield.len(), 24);
    assert_eq!(members(&bitfield), vec![7, 8, 15, 16, 23]);
}

#[test]
fn index_kinds_of_the_caller() {
    let one = Bitfield::from(Validator(6));
    assert_eq!(one.len(), 7);
    assert_eq!(members(&one), vec![6]);
    let many = Bitfield::try_from(vec![Validator(2), Validator(6), Validator(2)])
        .expect("indices given");
    assert_eq!(many.len(), 7);
    assert_eq!(members(&many), vec![2, 6]);
}

#[test]
fn different_members_are_unequal() {
    let left = Bitfield::try_from(vec![3u32, 0]).expect("indices given");
    let right = Bitfield::try_from(vec![3u32, 1]).expect("indices given");
    assert!(left != right);
    assert!(Bitfield::from(3u32) != Bitfield::from(4u32));
}

#[test]
fn trailing_unset_bits_count_in_equality() {
    let four_bits = Bitfield::from(3u32);
    let five_bits = Bitfield::<u32>::decode(&[5 << 2, 0b0000_1000]).expect("wire form");
    assert_eq!(members(&four_bits), members(&five_bits));
    assert_eq!(five_bits.len(), 5);
    assert!(four_bits != five_bits);
}

#[test]
fn a_clone_stores_the_same_bits() {
    let bitfield = Bitfield::try_from(vec![1u32, 12, 5]).expect("indices given");
    let copy = bitfield.clone();
    assert_eq!(bits(&bitfield), bits(&copy));
    assert!(bitfield == copy);
}

#[test]
fn equal_bitfields_hash_alike() {
    let one = Bitfield::try_from(vec![4u32, 9]).expect("indices given");
    let other = Bitfield::try_from(vec![9u32, 4, 4]).expect("indices given");
    assert!(one == other);
    assert_eq!(hash_of(&one), hash_of(&other));
}

#[test]
fn errors_can_be_shown() {
    let shown = format!("{:?}", BitfieldError::NullAssignment);
    assert_eq!(shown, "NullAssignment");
}

#[test]
fn a_long_bitfield() {
    let bitfield = Bitfield::try_from(vec![100_000usize, 3, 65_536]).expect("indices given");
    assert_eq!(bitfield.len(), 100_001);
    assert_eq!(members(&bitfield), vec![3, 65_536, 100_000]);
}
