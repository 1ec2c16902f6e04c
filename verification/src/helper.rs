//! The building blocks of the verifier: scalar multiplication, the Keccak
//! digest, the challenge hash over six points, and the map from a seed to a
//! curve point.

use crate::bignum::{be_nat, bytes_equal};
use crate::curve::{
    base_multiple, combine, curve_base_multiple, curve_combination, group_order, group_sum,
    point_add, reduce_scalar, Point, PointView,
};
use tiny_keccak::{Hasher, Keccak};
use vstd::prelude::*;

verus! {

/// The Keccak-256 digest of a byte string, as `tiny-keccak` computes it.
pub uninterp spec fn keccak256(data: Seq<u8>) -> Seq<u8>;

/// The scalar zero, 32 zero bytes.
pub open spec fn zero_scalar() -> Seq<u8> {
    Seq::new(32, |i: int| 0u8)
}

/// The multiple `k * a` of a group element: the identity stays the identity.
pub open spec fn scalar_multiple(a: PointView, k: Seq<u8>) -> PointView {
    if a.infinity {
        a
    } else {
        curve_combination(a, k, zero_scalar())
    }
}

/// The point that a seed, and a point to offset it by, are mapped to:
/// `seed * G`, plus the offset where there is one.
pub open spec fn seed_point(seed: Seq<u8>, aux: Option<PointView>) -> PointView {
    match aux {
        Some(p) => group_sum(curve_base_multiple(seed), p),
        None => curve_base_multiple(seed),
    }
}

/// The two coordinates of a point, x then y, 64 bytes.
pub open spec fn coordinates(p: PointView) -> Seq<u8> {
    p.x + p.y
}

/// The byte string that the challenge hash digests: the coordinates of the
/// six points, in the order given.
pub open spec fn transcript(
    g: PointView,
    h: PointView,
    pk: PointView,
    gamma: PointView,
    kg: PointView,
    kh: PointView,
) -> Seq<u8> {
    coordinates(g) + coordinates(h) + coordinates(pk) + coordinates(gamma) + coordinates(kg)
        + coordinates(kh)
}

/// The scalar that a byte string is hashed to: its digest, read as a number
/// and reduced modulo the group order.
pub open spec fn digest_scalar(data: Seq<u8>) -> nat {
    be_nat(keccak256(data)) % group_order()
}

/// The challenge: the scalar that the transcript of six points is hashed to.
pub open spec fn challenge(
    g: PointView,
    h: PointView,
    pk: PointView,
    gamma: PointView,
    kg: PointView,
    kh: PointView,
) -> nat {
    digest_scalar(transcript(g, h, pk, gamma, kg, kh))
}

/// The multiple `na * a` of a group element.
pub fn ecmult(a: &Point, na: &[u8; 32]) -> (r: Point)
    requires
        a@.in_group(),
    ensures
        r@ == scalar_multiple(a@, na@),
        r@.in_group(),
{
    if a.infinity {
        *a
    } else {
        let zero = [0u8; 32];
        assert(zero@ =~= zero_scalar());
        combine(a, na, &zero)
    }
}

/// The Keccak-256 digest of `data`: `Keccak::v256` of tiny-keccak, fed the
/// bytes once and finalized.
#[verifier::external_body]
pub fn hash_keccak256(data: &[u8]) -> (digest: [u8; 32])
    ensures
        digest@ == keccak256(data@),
{
    let mut output = [0u8; 32];
    let mut hasher = Keccak::v256();
    hasher.update(data);
    hasher.finalize(&mut output);
    output
}

/// Whether two scalars are the same residue modulo the group order.
pub fn scalars_agree(a: &[u8; 32], b: &[u8; 32]) -> (same: bool)
    ensures
        same == (be_nat(a@) % group_order() == be_nat(b@) % group_order()),
{
    let ra = reduce_scalar(a);
    let rb = reduce_scalar(b);
    bytes_equal(&ra, &rb)
}

/// Appends the two coordinates of a point to a buffer.
pub(crate) fn push_coordinates(buf: &mut Vec<u8>, p: &Point)
    ensures
        final(buf)@ == old(buf)@ + coordinates(p@),
{
    buf.extend_from_slice(p.x.as_slice());
    buf.extend_from_slice(p.y.as_slice());
    assert(buf@ =~= old(buf)@ + coordinates(p@));
}

/// The scalar that `data` is hashed to, in canonical form.
pub fn hash_to_scalar(data: &[u8]) -> (c: [u8; 32])
    ensures
        be_nat(c@) == digest_scalar(data@),
{
    let digest = hash_keccak256(data);
    reduce_scalar(&digest)
}

/// The challenge hash: the six points' coordinates, in this order, hashed to
/// a scalar in canonical form.
pub fn hash_points(
    g: &Point,
    h: &Point,
    pk: &Point,
    gamma: &Point,
    kg: &Point,
    kh: &Point,
) -> (c: [u8; 32])
    ensures
        be_nat(c@) == challenge(g@, h@, pk@, gamma@, kg@, kh@),
{
    let mut buf: Vec<u8> = Vec::new();
    push_coordinates(&mut buf, g);
    push_coordinates(&mut buf, h);
    push_coordinates(&mut buf, pk);
    push_coordinates(&mut buf, gamma);
    push_coordinates(&mut buf, kg);
    push_coordinates(&mut buf, kh);
    assert(buf@ =~= transcript(g@, h@, pk@, gamma@, kg@, kh@));
    hash_to_scalar(buf.as_slice())
}

/// The view of an optional point.
pub open spec fn optional_view(y: Option<&Point>) -> Option<PointView> {
    match y {
        Some(v) => Some(v@),
        None => None,
    }
}

/// Maps a seed to a group element: `alpha * G`, plus `y` where it is given.
pub fn hash_to_curve(alpha: &[u8; 32], y: Option<&Point>) -> (h: Point)
    requires
        y matches Some(v) ==> v@.in_group(),
    ensures
        h@ == seed_point(alpha@, optional_view(y)),
        h@.in_group(),
{
    let r = base_multiple(alpha);
    match y {
        Some(v) => point_add(&r, v),
        None => r,
    }
}

} // verus!
