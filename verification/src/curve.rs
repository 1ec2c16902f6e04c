//! The secp256k1 group as this library sees it: points and scalars held as
//! big-endian bytes, the predicates that say when a point is usable, and the
//! arithmetic, which is done by the `tiny-ec` crate.

use crate::bignum::be_nat;
use tiny_ec::curve::{Affine, Field, Jacobian, Scalar};
use tiny_ec::{PublicKey, PublicKeyFormat, ECMULT_CONTEXT, ECMULT_GEN_CONTEXT};
use vstd::prelude::*;

verus! {

/// 2^128.
pub open spec fn two_pow_128() -> nat {
    0x1_0000_0000_0000_0000nat * 0x1_0000_0000_0000_0000nat
}

/// The prime of the coordinate field, 2^256 - 2^32 - 977.
pub open spec fn field_prime() -> nat {
    (two_pow_128() * two_pow_128() - 0x1_0000_03D1) as nat
}

/// The order of the group, the modulus of every scalar.
pub open spec fn group_order() -> nat {
    0xFFFF_FFFF_FFFF_FFFF_FFFF_FFFF_FFFF_FFFEnat * two_pow_128()
        + 0xBAAE_DCE6_AF48_A03B_BFD2_5E8C_D036_4141nat
}

/// Whether 32 bytes are the canonical encoding of a field element.
pub open spec fn in_field(b: Seq<u8>) -> bool {
    b.len() == 32 && be_nat(b) < field_prime()
}

/// The curve equation y^2 = x^3 + 7 over the coordinate field.
pub open spec fn on_curve(x: nat, y: nat) -> bool {
    (y * y) % field_prime() == (x * x * x + 7) % field_prime()
}

/// A point in affine coordinates, each a 32-byte big-endian integer. The
/// flag marks the identity of the group, whose coordinates carry no meaning.
#[derive(Clone, Copy, Debug, PartialEq, Eq)]
pub struct Point {
    pub x: [u8; 32],
    pub y: [u8; 32],
    pub infinity: bool,
}

/// What a `Point` holds, as byte strings.
pub struct PointView {
    pub x: Seq<u8>,
    pub y: Seq<u8>,
    pub infinity: bool,
}

impl PointView {
    /// Both coordinates are canonical field elements.
    pub open spec fn wf(self) -> bool {
        in_field(self.x) && in_field(self.y)
    }

    /// A point of the curve: canonical, not the identity, and on the curve.
    pub open spec fn is_valid(self) -> bool {
        self.wf() && !self.infinity && on_curve(be_nat(self.x), be_nat(self.y))
    }

    /// An element of the group: a point of the curve or the identity.
    pub open spec fn in_group(self) -> bool {
        self.wf() && (self.infinity || on_curve(be_nat(self.x), be_nat(self.y)))
    }
}

impl View for Point {
    type V = PointView;

    open spec fn view(&self) -> PointView {
        PointView { x: self.x@, y: self.y@, infinity: self.infinity }
    }
}

/// The error of the curve crate; only its presence is read.
#[verifier::external_type_specification]
#[verifier::external_body]
pub struct ExCurveError(tiny_ec::Error);

/// The sum that `Jacobian::add_ge` computes of a group element and a point.
pub uninterp spec fn curve_sum(a: PointView, b: PointView) -> PointView;

/// The combination `na * a + ng * G` that `ECMultContext::ecmult` computes.
pub uninterp spec fn curve_combination(a: PointView, na: Seq<u8>, ng: Seq<u8>) -> PointView;

/// The multiple `k * G` of the base point that `ECMultGenContext::ecmult_gen` computes.
pub uninterp spec fn curve_base_multiple(k: Seq<u8>) -> PointView;

/// Whether a 65-byte string is an uncompressed or hybrid encoding of a point
/// of the curve: a format byte, then x and y.
pub open spec fn valid_key_encoding(b: Seq<u8>) -> bool {
    let x = b.subrange(1, 33);
    let y = b.subrange(33, 65);
    &&& b.len() == 65
    &&& (b[0] == 4 || b[0] == 6 || b[0] == 7)
    &&& in_field(x)
    &&& in_field(y)
    &&& (b[0] != 4 ==> (be_nat(y) % 2 == 1) == (b[0] == 7))
    &&& on_curve(be_nat(x), be_nat(y))
}

/// The point that a valid key encoding holds.
pub open spec fn decoded_key(b: Seq<u8>) -> PointView {
    PointView { x: b.subrange(1, 33), y: b.subrange(33, 65), infinity: false }
}

/// `Field::set_b32` of tiny-ec: it accepts 32 bytes exactly when the number
/// they denote is below the field prime.
#[verifier::external_body]
pub(crate) fn field_in_range(b: &[u8; 32]) -> (ok: bool)
    ensures
        ok == in_field(b@),
{
    Field::default().set_b32(b)
}

/// `Affine::is_valid_var` of tiny-ec: for a finite point with canonical
/// coordinates it tests the curve equation.
#[verifier::external_body]
pub(crate) fn satisfies_curve_equation(p: &Point) -> (ok: bool)
    requires
        p@.wf(),
        !p.infinity,
    ensures
        ok == on_curve(be_nat(p.x@), be_nat(p.y@)),
{
    Affine::from([p.x, p.y].concat().as_slice()).is_valid_var()
}

/// `PublicKey::parse_slice` of tiny-ec in the full format: it accepts exactly
/// the valid key encodings, and the key it returns has the coordinates that
/// the encoding spells out.
#[verifier::external_body]
pub(crate) fn parse_public_key(bytes: &[u8]) -> (parsed: Result<Point, tiny_ec::Error>)
    ensures
        parsed is Ok <==> valid_key_encoding(bytes@),
        parsed matches Ok(p) ==> p@ == decoded_key(bytes@),
{
    let key = PublicKey::parse_slice(bytes, Some(PublicKeyFormat::Full))?;
    let a: Affine = key.into();
    Ok(Point { x: a.x.b32(), y: a.y.b32(), infinity: a.infinity })
}

/// `Jacobian::add_ge` of tiny-ec, on a group element and a point of the
/// curve; the sum is again a group element, in canonical coordinates.
#[verifier::external_body]
pub(crate) fn add_affine(a: &Point, b: &Point) -> (sum: Point)
    requires
        a@.in_group(),
        b@.is_valid(),
    ensures
        sum@ == curve_sum(a@, b@),
        sum@.in_group(),
{
    let mut ga = Affine::from([a.x, a.y].concat().as_slice());
    ga.infinity = a.infinity;
    let gb = Affine::from([b.x, b.y].concat().as_slice());
    let r = Affine::from(&Jacobian::from_ge(&ga).add_ge(&gb));
    Point { x: r.x.b32(), y: r.y.b32(), infinity: r.infinity }
}

/// `ECMultContext::ecmult` of tiny-ec, on a point of the curve and two
/// scalars, each reduced modulo the group order as it is read.
#[verifier::external_body]
pub(crate) fn combine(a: &Point, na: &[u8; 32], ng: &[u8; 32]) -> (r: Point)
    requires
        a@.is_valid(),
    ensures
        r@ == curve_combination(a@, na@, ng@),
        r@.in_group(),
{
    let ga = Affine::from([a.x, a.y].concat().as_slice());
    let mut rj = Jacobian::default();
    ECMULT_CONTEXT.ecmult(&mut rj, &Jacobian::from_ge(&ga), &Scalar::from(na), &Scalar::from(ng));
    let r = Affine::from(&rj);
    Point { x: r.x.b32(), y: r.y.b32(), infinity: r.infinity }
}

/// `ECMultGenContext::ecmult_gen` of tiny-ec, on a scalar reduced modulo the
/// group order as it is read.
#[verifier::external_body]
pub(crate) fn base_multiple(k: &[u8; 32]) -> (r: Point)
    ensures
        r@ == curve_base_multiple(k@),
        r@.in_group(),
{
    let mut rj = Jacobian::default();
    ECMULT_GEN_CONTEXT.ecmult_gen(&mut rj, &Scalar::from(k));
    let r = Affine::from(&rj);
    Point { x: r.x.b32(), y: r.y.b32(), infinity: r.infinity }
}

/// `Scalar::set_b32` of tiny-ec, read back with `Scalar::b32`: the canonical
/// representative modulo the group order of the number that 32 bytes denote.
#[verifier::external_body]
pub(crate) fn reduce_scalar(b: &[u8; 32]) -> (r: [u8; 32])
    ensures
        be_nat(r@) == be_nat(b@) % group_order(),
{
    Scalar::from(b).b32()
}

/// The sum of two group elements: adding the identity changes nothing, and
/// any other sum is the curve crate's.
pub open spec fn group_sum(a: PointView, b: PointView) -> PointView {
    if b.infinity {
        a
    } else {
        curve_sum(a, b)
    }
}

/// The base point G of the group.
pub open spec fn generator_point() -> PointView {
    PointView {
        x: seq![
            0x79u8, 0xBE, 0x66, 0x7E, 0xF9, 0xDC, 0xBB, 0xAC, 0x55, 0xA0, 0x62, 0x95, 0xCE, 0x87,
            0x0B, 0x07, 0x02, 0x9B, 0xFC, 0xDB, 0x2D, 0xCE, 0x28, 0xD9, 0x59, 0xF2, 0x81, 0x5B,
            0x16, 0xF8, 0x17, 0x98,
        ],
        y: seq![
            0x48u8, 0x3A, 0xDA, 0x77, 0x26, 0xA3, 0xC4, 0x65, 0x5D, 0xA4, 0xFB, 0xFC, 0x0E, 0x11,
            0x08, 0xA8, 0xFD, 0x17, 0xB4, 0x48, 0xA6, 0x85, 0x54, 0x19, 0x9C, 0x47, 0xD0, 0x8F,
            0xFB, 0x10, 0xD4, 0xB8,
        ],
        infinity: false,
    }
}

/// The base point G of the group.
pub fn generator() -> (g: Point)
    ensures
        g@ == generator_point(),
{
    let g = Point {
        x: [
            0x79u8, 0xBE, 0x66, 0x7E, 0xF9, 0xDC, 0xBB, 0xAC, 0x55, 0xA0, 0x62, 0x95, 0xCE, 0x87,
            0x0B, 0x07, 0x02, 0x9B, 0xFC, 0xDB, 0x2D, 0xCE, 0x28, 0xD9, 0x59, 0xF2, 0x81, 0x5B,
            0x16, 0xF8, 0x17, 0x98,
        ],
        y: [
            0x48u8, 0x3A, 0xDA, 0x77, 0x26, 0xA3, 0xC4, 0x65, 0x5D, 0xA4, 0xFB, 0xFC, 0x0E, 0x11,
            0x08, 0xA8, 0xFD, 0x17, 0xB4, 0x48, 0xA6, 0x85, 0x54, 0x19, 0x9C, 0x47, 0xD0, 0x8F,
            0xFB, 0x10, 0xD4, 0xB8,
        ],
        infinity: false,
    };
    assert(g.x@ =~= generator_point().x);
    assert(g.y@ =~= generator_point().y);
    g
}

/// Whether a point is a point of the curve: canonical coordinates, not the
/// identity, and on the curve.
pub fn point_is_valid(p: &Point) -> (ok: bool)
    ensures
        ok == p@.is_valid(),
{
    if p.infinity || !field_in_range(&p.x) || !field_in_range(&p.y) {
        return false;
    }
    satisfies_curve_equation(p)
}

/// The sum of two group elements.
pub fn point_add(a: &Point, b: &Point) -> (sum: Point)
    requires
        a@.in_group(),
        b@.in_group(),
    ensures
        sum@ == group_sum(a@, b@),
        sum@.in_group(),
{
    if b.infinity {
        *a
    } else {
        add_affine(a, b)
    }
}

} // verus!
