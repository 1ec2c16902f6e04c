//! The verification equation of the VRF.

use crate::bignum::be_nat;
use crate::curve::{
    combine, curve_combination, generator, generator_point, group_order, group_sum, point_add,
    point_is_valid, two_pow_128, Point, PointView,
};
use crate::error::VrfError;
use crate::helper::{
    challenge, coordinates, digest_scalar, ecmult, hash_points, hash_to_curve, hash_to_scalar,
    keccak256, push_coordinates, scalar_multiple, scalars_agree, seed_point, transcript,
};
use crate::record::{ProofView, R0ECVRF};
use vstd::arithmetic::div_mod::{lemma_mod_bound, lemma_mod_twice};
use vstd::prelude::*;

verus! {

/// H, the point that the seed is mapped to under the prover's key.
pub open spec fn seed_hash(p: ProofView) -> PointView {
    seed_point(p.alpha, Some(p.public_key))
}

/// U = c * PK + s * G, which for an honest proof is the prover's commitment k * G.
pub open spec fn recovered_u(p: ProofView) -> PointView {
    curve_combination(p.public_key, p.c, p.s)
}

/// V = c * gamma + s * H, which for an honest proof is the prover's commitment k * H.
pub open spec fn recovered_v(p: ProofView) -> PointView {
    group_sum(scalar_multiple(p.gamma, p.c), scalar_multiple(seed_hash(p), p.s))
}

/// The challenge that the verifier hashes for a proof.
pub open spec fn expected_challenge(p: ProofView) -> nat {
    challenge(
        generator_point(),
        seed_hash(p),
        p.public_key,
        p.gamma,
        recovered_u(p),
        recovered_v(p),
    )
}

/// The output that the witness point determines.
pub open spec fn expected_output(p: ProofView) -> nat {
    digest_scalar(coordinates(p.gamma))
}

/// Whether the proof's challenge and output are the expected ones, as
/// residues modulo the group order.
pub open spec fn proof_holds(p: ProofView) -> bool {
    &&& expected_challenge(p) == be_nat(p.c) % group_order()
    &&& expected_output(p) == be_nat(p.y) % group_order()
}

/// What the verifier answers: an error where a point of the proof is not a
/// point of the curve, and otherwise whether the proof holds.
pub open spec fn verdict(p: ProofView) -> Result<bool, VrfError> {
    if !p.public_key.is_valid() || !p.gamma.is_valid() {
        Err(VrfError::PointNotOnCurve)
    } else {
        Ok(proof_holds(p))
    }
}

/// The expected challenge and output are residues: reducing them again
/// changes nothing.
pub proof fn lemma_residues_are_canonical(p: ProofView)
    ensures
        expected_challenge(p) % group_order() == expected_challenge(p),
        expected_output(p) % group_order() == expected_output(p),
        expected_challenge(p) < group_order(),
        expected_output(p) < group_order(),
{
    let n = group_order() as int;
    assert(n > 0) by {
        assert(two_pow_128() > 0) by (nonlinear_arith);
    }
    let c = be_nat(
        keccak256(
            transcript(
                generator_point(),
                seed_hash(p),
                p.public_key,
                p.gamma,
                recovered_u(p),
                recovered_v(p),
            ),
        ),
    ) as int;
    let y = be_nat(keccak256(coordinates(p.gamma))) as int;
    lemma_mod_twice(c, n);
    lemma_mod_twice(y, n);
    lemma_mod_bound(c, n);
    lemma_mod_bound(y, n);
}

/// Checks a proof. The key and the witness must be points of the curve, or
/// the proof is malformed; a well-formed proof that does not hold is `false`.
pub fn verify(vrf_proof: &R0ECVRF) -> (r: Result<bool, VrfError>)
    ensures
        r == verdict(vrf_proof@),
{
    if !point_is_valid(&vrf_proof.public_key) || !point_is_valid(&vrf_proof.gamma) {
        return Err(VrfError::PointNotOnCurve);
    }
    let h = hash_to_curve(&vrf_proof.alpha, Some(&vrf_proof.public_key));
    let u = combine(&vrf_proof.public_key, &vrf_proof.c, &vrf_proof.s);
    let witness_gamma = ecmult(&vrf_proof.gamma, &vrf_proof.c);
    let witness_hash = ecmult(&h, &vrf_proof.s);
    let v = point_add(&witness_gamma, &witness_hash);
    let computed_c = hash_points(
        &generator(),
        &h,
        &vrf_proof.public_key,
        &vrf_proof.gamma,
        &u,
        &v,
    );

    let mut encoded_gamma: Vec<u8> = Vec::new();
    push_coordinates(&mut encoded_gamma, &vrf_proof.gamma);
    assert(encoded_gamma@ =~= coordinates(vrf_proof.gamma@));
    let computed_y = hash_to_scalar(encoded_gamma.as_slice());

    proof {
        lemma_residues_are_canonical(vrf_proof@);
    }
    Ok(scalars_agree(&computed_c, &vrf_proof.c) && scalars_agree(&computed_y, &vrf_proof.y))
}

/// The verifier accepts a proof whose challenge was hashed over the very
/// commitments that the verifier recovers from it, and whose output is the
/// digest of its witness.
pub proof fn lemma_accepts_recovered_commitments(p: R0ECVRF, kg: PointView, kh: PointView)
    requires
        p.public_key@.is_valid(),
        p.gamma@.is_valid(),
        recovered_u(p@) == kg,
        recovered_v(p@) == kh,
        be_nat(p.c@) % group_order() == challenge(
            generator_point(),
            seed_hash(p@),
            p.public_key@,
            p.gamma@,
            kg,
            kh,
        ),
        be_nat(p.y@) % group_order() == digest_scalar(coordinates(p.gamma@)),
    ensures
        verdict(p@) == Ok::<bool, VrfError>(true),
{
}

/// A proof that held no longer holds once its output is replaced by another
/// residue modulo the group order.
pub proof fn lemma_rejects_changed_output(p: R0ECVRF, y: [u8; 32])
    requires
        verdict(p@) == Ok::<bool, VrfError>(true),
        be_nat(y@) % group_order() != be_nat(p.y@) % group_order(),
    ensures
        verdict((R0ECVRF { y, ..p })@) == Ok::<bool, VrfError>(false),
{
}

/// The challenge reads nothing of a point but its two coordinates: six
/// points with the same coordinates hash to the same challenge, whatever
/// else distinguishes them.
pub proof fn lemma_challenge_reads_coordinates(a: [Point; 6], b: [Point; 6])
    requires
        forall|i: int| 0 <= i < 6 ==> a[i].x == b[i].x && a[i].y == b[i].y,
    ensures
        challenge(a[0]@, a[1]@, a[2]@, a[3]@, a[4]@, a[5]@) == challenge(
            b[0]@,
            b[1]@,
            b[2]@,
            b[3]@,
            b[4]@,
            b[5]@,
        ),
{
}

/// The point that a seed is mapped to is decided by the seed's bytes and
/// the offset's bytes alone.
pub proof fn lemma_seed_point_reads_bytes(
    alpha: [u8; 32],
    beta: [u8; 32],
    y: Option<Point>,
    z: Option<Point>,
)
    requires
        alpha@ == beta@,
        y is Some <==> z is Some,
        y is Some ==> y->Some_0@ == z->Some_0@,
    ensures
        seed_point(
            alpha@,
            match y {
                Some(v) => Some(v@),
                None => None,
            },
        ) == seed_point(
            beta@,
            match z {
                Some(v) => Some(v@),
                None => None,
            },
        ),
{
}

} // verus!
