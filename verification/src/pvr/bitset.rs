//! Sets of display list categories held as bits.

use vstd::prelude::*;
use crate::pvr::types::{DrawList, SubmissionList};

verus! {

/// The categories whose bit is set in `bits`.
pub open spec fn lists_in(bits: SubmissionList) -> Set<DrawList> {
    Set::new(|list: DrawList| bits & list.bit() != 0)
}

proof fn lemma_shifted_bits_apart(i: u8, j: u8)
    by (bit_vector)
    requires
        i < 8,
        j < 8,
        i != j,
    ensures
        (1u8 << i) & (1u8 << j) == 0,
{
}

proof fn lemma_set_bit(bits: u8, bit: u8, mask: u8)
    by (bit_vector)
    requires
        mask != 0,
        bit == mask || bit & mask == 0,
    ensures
        ((bits | bit) & mask != 0) == (bit == mask || bits & mask != 0),
{
}

/// The bit of a category is a one shifted by the category's number.
pub proof fn lemma_bit_is_shifted_one(list: DrawList)
    ensures
        list.bit() == 1u8 << list.index(),
        list.bit() != 0,
{
    assert(1u8 << 0u8 == 0b00001u8) by (bit_vector);
    assert(1u8 << 1u8 == 0b00010u8) by (bit_vector);
    assert(1u8 << 2u8 == 0b00100u8) by (bit_vector);
    assert(1u8 << 3u8 == 0b01000u8) by (bit_vector);
    assert(1u8 << 4u8 == 0b10000u8) by (bit_vector);
}

/// Two categories share no bit.
pub proof fn lemma_bits_apart(a: DrawList, b: DrawList)
    requires
        a != b,
    ensures
        a.bit() & b.bit() == 0,
{
    lemma_bit_is_shifted_one(a);
    lemma_bit_is_shifted_one(b);
    lemma_shifted_bits_apart(a.index(), b.index());
}

/// No bit set, no category.
pub proof fn lemma_lists_in_none()
    ensures
        lists_in(0) == Set::<DrawList>::empty(),
{
    assert forall|list: DrawList| !lists_in(0).contains(list) by {
        let mask = list.bit();
        assert(0u8 & mask == 0) by (bit_vector);
    }
    assert(lists_in(0) =~= Set::<DrawList>::empty());
}

/// Setting the bit of a category adds the category and nothing else.
pub proof fn lemma_lists_in_insert(bits: SubmissionList, list: DrawList)
    ensures
        lists_in(bits | list.bit()) == lists_in(bits).insert(list),
{
    assert forall|other: DrawList|
        lists_in(bits | list.bit()).contains(other) == lists_in(bits).insert(list).contains(
            other,
        ) by {
        lemma_bit_is_shifted_one(other);
        if other != list {
            lemma_bits_apart(list, other);
        }
        lemma_set_bit(bits, list.bit(), other.bit());
    }
    assert(lists_in(bits | list.bit()) =~= lists_in(bits).insert(list));
}

} // verus!
