use vstd::prelude::*;
use fixedbitset::FixedBitSet;

verus! {

#[verifier::external_type_specification]
#[verifier::external_body]
pub struct ExFixedBitSet(FixedBitSet);

/// The positions of all enabled bits of a `FixedBitSet` (over its whole block storage).
pub uninterp spec fn fixed_bit_set_contents(s: FixedBitSet) -> Set<usize>;

/// The number of bits a `FixedBitSet` was made with (`FixedBitSet::len`).
pub uninterp spec fn fixed_bit_set_len(s: FixedBitSet) -> nat;

/// `FixedBitSet::with_capacity`: a set of `bits` bits, all clear.
#[verifier::external_body]
pub(crate) fn bitset_with_capacity(bits: usize) -> (s: FixedBitSet)
    ensures
        fixed_bit_set_contents(s) == Set::<usize>::empty(),
        fixed_bit_set_len(s) == bits,
{
    FixedBitSet::with_capacity(bits)
}

/// `FixedBitSet::insert`: enables `bit`; it panics when `bit` is not below the length.
#[verifier::external_body]
pub(crate) fn bitset_insert(s: &mut FixedBitSet, bit: usize)
    requires
        bit < fixed_bit_set_len(*old(s)),
    ensures
        fixed_bit_set_contents(*final(s)) == fixed_bit_set_contents(*old(s)).insert(bit),
        fixed_bit_set_len(*final(s)) == fixed_bit_set_len(*old(s)),
{
    s.insert(bit)
}

/// `FixedBitSet::remove`: disables `bit`; it panics when `bit` is not below the length.
#[verifier::external_body]
pub(crate) fn bitset_remove(s: &mut FixedBitSet, bit: usize)
    requires
        bit < fixed_bit_set_len(*old(s)),
    ensures
        fixed_bit_set_contents(*final(s)) == fixed_bit_set_contents(*old(s)).remove(bit),
        fixed_bit_set_len(*final(s)) == fixed_bit_set_len(*old(s)),
{
    s.remove(bit)
}

/// `FixedBitSet::contains`: whether `bit` is below the length and enabled.
#[verifier::external_body]
pub(crate) fn bitset_contains(s: &FixedBitSet, bit: usize) -> (r: bool)
    ensures
        r == (bit < fixed_bit_set_len(*s) && fixed_bit_set_contents(*s).contains(bit)),
{
    s.contains(bit)
}

/// `FixedBitSet::is_clear`: whether no bit is enabled.
#[verifier::external_body]
pub(crate) fn bitset_is_clear(s: &FixedBitSet) -> (r: bool)
    ensures
        r == (fixed_bit_set_contents(*s) == Set::<usize>::empty()),
{
    s.is_clear()
}

/// `FixedBitSet::minimum`: the lowest enabled bit, if any.
#[verifier::external_body]
pub(crate) fn bitset_minimum(s: &FixedBitSet) -> (r: Option<usize>)
    ensures
        r is None == (fixed_bit_set_contents(*s) == Set::<usize>::empty()),
        r matches Some(m) ==> fixed_bit_set_contents(*s).contains(m) && forall|j: usize|
            #[trigger] fixed_bit_set_contents(*s).contains(j) ==> m <= j,
{
    s.minimum()
}

} // verus!
