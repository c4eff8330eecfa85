//! The bit sets that hold locations and resource bindings while an entry
//! point is validated, taken from the `bit-set` crate.
use vstd::prelude::*;

verus! {

#[verifier::external_type_specification]
#[verifier::external_body]
#[verifier::reject_recursive_types(B)]
pub struct ExBitSet<B>(bit_set::BitSet<B>);

/// The values held by a bit set.
pub uninterp spec fn bit_set_contents(s: bit_set::BitSet) -> Set<nat>;

/// Relies on `BitSet::new`: a new set holds nothing.
#[verifier::external_body]
pub(crate) fn new_bit_set() -> (r: bit_set::BitSet)
    ensures
        bit_set_contents(r) == Set::<nat>::empty(),
{
    bit_set::BitSet::new()
}

/// Relies on `BitSet::insert`: the value is added, and the result tells
/// whether it was absent before. The growth step computes `value + 1`,
/// hence the bound.
#[verifier::external_body]
pub(crate) fn bit_set_insert(s: &mut bit_set::BitSet, value: usize) -> (r: bool)
    requires
        value < usize::MAX,
    ensures
        r == !bit_set_contents(*old(s)).contains(value as nat),
        bit_set_contents(*final(s)) == bit_set_contents(*old(s)).insert(value as nat),
{
    s.insert(value)
}

/// Relies on `BitSet::clear`: every value is removed.
#[verifier::external_body]
pub(crate) fn bit_set_clear(s: &mut bit_set::BitSet)
    ensures
        bit_set_contents(*final(s)) == Set::<nat>::empty(),
{
    s.clear()
}

} // verus!
