//! Trusted interface to the packed bit vector of the `smallbitvec`
//! crate, which stores a gate's per-input inversion flags.

use vstd::prelude::*;

use smallbitvec::SmallBitVec;

verus! {

#[verifier::external_type_specification]
#[verifier::external_body]
pub struct ExSmallBitVec(SmallBitVec);

/// The bits a `SmallBitVec` holds, in order.
pub uninterp spec fn sbv_bits(v: SmallBitVec) -> Seq<bool>;

/// Relies on `SmallBitVec::from_elem`: a vector of `len` bits, each set
/// to `val`.
#[verifier::external_body]
pub fn sbv_from_elem(len: usize, val: bool) -> (r: SmallBitVec)
    ensures
        sbv_bits(r) == Seq::new(len as nat, |i: int| val),
{
    SmallBitVec::from_elem(len, val)
}

/// Relies on `SmallBitVec::len`: the number of bits held.
#[verifier::external_body]
pub fn sbv_len(v: &SmallBitVec) -> (r: usize)
    ensures
        r == sbv_bits(*v).len(),
{
    v.len()
}

/// Relies on `SmallBitVec::get`: the `i`th bit; in bounds it is always
/// `Some`.
#[verifier::external_body]
pub fn sbv_get(v: &SmallBitVec, i: usize) -> (r: bool)
    requires
        i < sbv_bits(*v).len(),
    ensures
        r == sbv_bits(*v)[i as int],
{
    v.get(i).unwrap()
}

/// Relies on `SmallBitVec::set`: replaces the `i`th bit. It panics out
/// of bounds, so bounds are required.
#[verifier::external_body]
pub fn sbv_set(v: &mut SmallBitVec, i: usize, val: bool)
    requires
        i < sbv_bits(*old(v)).len(),
    ensures
        sbv_bits(*final(v)) == sbv_bits(*old(v)).update(i as int, val),
{
    v.set(i, val)
}

/// Relies on `SmallBitVec::resize`: truncates to `len` bits, or appends
/// copies of `val` until `len` bits are held.
#[verifier::external_body]
pub fn sbv_resize(v: &mut SmallBitVec, len: usize, val: bool)
    ensures
        sbv_bits(*final(v)) == Seq::new(
            len as nat,
            |i: int|
                if i < sbv_bits(*old(v)).len() {
                    sbv_bits(*old(v))[i]
                } else {
                    val
                },
        ),
{
    v.resize(len, val)
}

/// Relies on `SmallBitVec::clone`: an independent copy holding the same
/// bits.
#[verifier::external_body]
pub fn sbv_clone(v: &SmallBitVec) -> (r: SmallBitVec)
    ensures
        sbv_bits(r) == sbv_bits(*v),
{
    v.clone()
}

} // verus!
