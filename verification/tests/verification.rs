use libecvrf::extends::ScalarExtend;
use libecvrf::secp256k1::curve::Scalar;
use libecvrf::secp256k1::SecretKey;
use libecvrf::{KeyPair, ECVRF};
use rz_ecvrf::boundary::{journal_outcome, verify_encoded};
use rz_ecvrf::curve::generator;
use rz_ecvrf::helper::{ecmult, hash_points, hash_to_curve, hash_to_scalar};
use rz_ecvrf::{verify, Point, VrfError, R0ECVRF};
use tiny_ec::curve::Scalar as Residue;
use tiny_ec::curve::{Affine, Jacobian, AFFINE_G};
use tiny_keccak::{Hasher, Keccak};

fn field(bytes: &[u8]) -> [u8; 32] {
    let mut out = [0u8; 32];
    out.copy_from_slice(bytes);
    out
}

fn prove(secret_key: SecretKey, seed: &Scalar) -> R0ECVRF {
    let proof = ECVRF::new(secret_key).prove(seed);
    let key = proof.pk.serialize();
    R0ECVRF {
        public_key: Point { x: field(&key[1..33]), y: field(&key[33..65]), infinity: false },
        gamma: Point { x: proof.gamma.x.b32(), y: proof.gamma.y.b32(), infinity: false },
        c: proof.c.b32(),
        s: proof.s.b32(),
        y: proof.y.b32(),
        alpha: seed.b32(),
    }
}

fn honest_proof(secret: [u8; 32], alpha: [u8; 32]) -> R0ECVRF {
    let mut seed = Scalar::default();
    let _ = seed.set_b32(&alpha);
    prove(SecretKey::parse(&secret).unwrap(), &seed)
}

fn affine(p: &Point) -> Affine {
    let mut xy = [0u8; 64];
    xy[..32].copy_from_slice(&p.x);
    xy[32..].copy_from_slice(&p.y);
    Affine::from(&xy)
}

/// The verification equation written against the curve crate alone.
fn direct_verdict(p: &R0ECVRF) -> bool {
    let pk = affine(&p.public_key);
    let gamma = affine(&p.gamma);
    let (c, s) = (Residue::from(&p.c), Residue::from(&p.s));
    let zero = Residue::from_int(0);
    let mut hj = Jacobian::default();
    tiny_ec::ECMULT_GEN_CONTEXT.ecmult_gen(&mut hj, &Residue::from(&p.alpha));
    let h = Affine::from(&hj.add_ge(&pk));
    let mut u = Jacobian::default();
    tiny_ec::ECMULT_CONTEXT.ecmult(&mut u, &Jacobian::from_ge(&pk), &c, &s);
    let mut wg = Jacobian::default();
    tiny_ec::ECMULT_CONTEXT.ecmult(&mut wg, &Jacobian::from_ge(&gamma), &c, &zero);
    let mut wh = Jacobian::default();
    tiny_ec::ECMULT_CONTEXT.ecmult(&mut wh, &Jacobian::from_ge(&h), &s, &zero);
    let v = Jacobian::from_ge(&Affine::from(&wg)).add_ge(&Affine::from(&wh));
    let mut hasher = Keccak::v256();
    for point in [AFFINE_G, h, pk, gamma, Affine::from(&u), Affine::from(&v)] {
        hasher.update(&point.x.b32());
        hasher.update(&point.y.b32());
    }
    let mut digest = [0u8; 32];
    hasher.finalize(&mut digest);
    let mut hasher = Keccak::v256();
    hasher.update(&p.gamma.x);
    hasher.update(&p.gamma.y);
    let mut output = [0u8; 32];
    hasher.finalize(&mut output);
    Residue::from(&digest) == c && Residue::from(&output) == Residue::from(&p.y)
}

/// The proof that the documented algorithm gives for a secret key, a seed
/// and a nonce.
fn proof_by_the_book(secret: [u8; 32], alpha: [u8; 32], nonce: [u8; 32]) -> R0ECVRF {
    let public_key = hash_to_curve(&secret, None);
    let h = hash_to_curve(&alpha, Some(&public_key));
    let gamma = ecmult(&h, &secret);
    let kg = hash_to_curve(&nonce, None);
    let kh = ecmult(&h, &nonce);
    let c = hash_points(&generator(), &h, &public_key, &gamma, &kg, &kh);
    let s = Residue::from(&nonce) + -(Residue::from(&c) * Residue::from(&secret));
    let mut encoded_gamma = gamma.x.to_vec();
    encoded_gamma.extend_from_slice(&gamma.y);
    R0ECVRF { public_key, gamma, c, s: s.b32(), y: hash_to_scalar(&encoded_gamma), alpha }
}

fn hex32(text: &str) -> [u8; 32] {
    assert_eq!(text.len(), 64);
    let mut out = [0u8; 32];
    for i in 0..32 {
        out[i] = u8::from_str_radix(&text[2 * i..2 * i + 2], 16).unwrap();
    }
    out
}

#[test]
fn documented_algorithm_with_seed_zero_holds() {
    let proof = proof_by_the_book([1u8; 32], [0u8; 32], [2u8; 32]);
    assert_eq!(
        proof.public_key.x,
        hex32("1B84C5567B126440995D3ED5AABA0565D71E1834604819FF9C17F5E9D5DD078F")
    );
    assert_eq!(
        proof.public_key.y,
        hex32("70BEAF8F588B541507FED6A642C5AB42DFDF8120A7F639DE5122D47A69A8E8D1")
    );
    assert_eq!(
        proof.gamma.x,
        hex32("2B64E602E899BD260A5B50F89C24AC1B8FE5279B197CBA3C63F1C874EFC36FC2")
    );
    assert_eq!(
        proof.gamma.y,
        hex32("5DE2CAD83F88CF7EFD86AEC1FACED1D5E3902CFA03F8FB80EEF4CF6B441980CB")
    );
    assert_eq!(proof.c, hex32("74A305BB76DA1A9BB1FAADC913A776D3CC48BDEA0B3962F7AC49F762B9A455A2"));
    assert_eq!(proof.s, hex32("231CAC84DD9A699E4D6D6C9025DCE7A6401EE30A64EE5BC88EB0D06881E8E509"));
    assert_eq!(proof.y, hex32("6461B3EC8C6EAFB139E877908E601D5E4793458E29BC24788FAA8BD7556B0F50"));
    assert_eq!(verify(&proof), Ok(true));
    assert!(direct_verdict(&proof));
    let decoded = R0ECVRF::deserialize(&proof.serialize()).unwrap();
    assert_eq!(decoded, proof);
    assert_eq!(verify(&decoded), Ok(true));
}

#[test]
fn documented_algorithm_holds_for_other_keys_and_seeds() {
    let proof = proof_by_the_book([0x42u8; 32], [0x17u8; 32], [0x99u8; 32]);
    assert_eq!(proof.c, hex32("476190006DC1B6D184AD1A2359434F046A823715FB932AE383D6A3E5FA158636"));
    assert_eq!(verify(&proof), Ok(true));
    let proof = proof_by_the_book([0x07u8; 32], [0xFFu8; 32], [0x01u8; 32]);
    assert_eq!(verify(&proof), Ok(true));
}

#[test]
fn response_of_another_nonce_fails() {
    let mut bad = proof_by_the_book([1u8; 32], [0u8; 32], [2u8; 32]);
    bad.s = proof_by_the_book([1u8; 32], [0u8; 32], [3u8; 32]).s;
    assert_eq!(verify(&bad), Ok(false));
}

#[test]
fn honest_proof_of_a_fresh_key_holds() {
    for _ in 0..4 {
        let pair = KeyPair::new();
        let seed = Scalar::randomize();
        let proof = prove(pair.secret_key, &seed);
        assert_eq!(verify(&proof), Ok(true));
        assert!(direct_verdict(&proof));
    }
}

#[test]
fn honest_proof_of_a_known_key_holds() {
    let proof = honest_proof([0x42; 32], [0x17; 32]);
    assert_eq!(verify(&proof), Ok(true));
}

#[test]
fn known_key_and_seed_zero_end_to_end() {
    let proof = honest_proof([1u8; 32], [0u8; 32]);
    assert_eq!(proof.alpha, [0u8; 32]);
    assert_eq!(verify(&proof), Ok(true));
    let bytes = proof.serialize();
    assert_eq!(bytes.len(), 257);
    let decoded = R0ECVRF::deserialize(&bytes).unwrap();
    assert_eq!(decoded, proof);
    assert_eq!(verify(&decoded), Ok(true));
    assert_eq!(verify_encoded(&bytes), Ok(true));
}

#[test]
fn output_is_the_digest_of_the_witness() {
    let proof = honest_proof([0x42; 32], [0x17; 32]);
    let mut hasher = Keccak::v256();
    hasher.update(&proof.gamma.x);
    hasher.update(&proof.gamma.y);
    let mut digest = [0u8; 32];
    hasher.finalize(&mut digest);
    assert_eq!(proof.y, tiny_ec::curve::Scalar::from(&digest).b32());
}

#[test]
fn flipped_bit_in_the_challenge_fails() {
    let proof = honest_proof([0x42; 32], [0x17; 32]);
    for (byte, bit) in [(0usize, 0u8), (7, 3), (15, 7), (31, 0), (31, 7)] {
        let mut bad = proof;
        bad.c[byte] ^= 1 << bit;
        assert_eq!(verify(&bad), Ok(false));
        assert!(!direct_verdict(&bad));
    }
}

#[test]
fn flipped_bit_in_the_response_fails() {
    let proof = honest_proof([0x42; 32], [0x17; 32]);
    for (byte, bit) in [(0usize, 1u8), (9, 4), (16, 0), (30, 6), (31, 0)] {
        let mut bad = proof;
        bad.s[byte] ^= 1 << bit;
        assert_eq!(verify(&bad), Ok(false));
        assert!(!direct_verdict(&bad));
    }
}

#[test]
fn flipped_bit_in_the_output_fails() {
    let proof = honest_proof([0x42; 32], [0x17; 32]);
    for (byte, bit) in [(0usize, 2u8), (3, 5), (20, 1), (31, 0), (31, 7)] {
        let mut bad = proof;
        bad.y[byte] ^= 1 << bit;
        assert_eq!(verify(&bad), Ok(false));
        assert!(!direct_verdict(&bad));
    }
}

#[test]
fn flipped_bit_in_the_witness_never_holds() {
    let proof = honest_proof([0x42; 32], [0x17; 32]);
    for (byte, bit) in [(0usize, 0u8), (12, 3), (31, 0)] {
        let mut bad = proof;
        bad.gamma.x[byte] ^= 1 << bit;
        assert_ne!(verify(&bad), Ok(true));
        let mut bad = proof;
        bad.gamma.y[byte] ^= 1 << bit;
        assert_ne!(verify(&bad), Ok(true));
    }
}

#[test]
fn another_point_as_witness_fails() {
    let mut bad = honest_proof([0x42; 32], [0x17; 32]);
    bad.gamma = generator();
    assert_eq!(verify(&bad), Ok(false));
    assert!(!direct_verdict(&bad));
}

#[test]
fn another_seed_fails() {
    let mut bad = honest_proof([0x42; 32], [0x17; 32]);
    bad.alpha[31] ^= 1;
    assert_eq!(verify(&bad), Ok(false));
    assert!(!direct_verdict(&bad));
}

#[test]
fn another_key_fails() {
    let mut bad = honest_proof([0x42; 32], [0x17; 32]);
    bad.public_key = honest_proof([0x43; 32], [0x17; 32]).public_key;
    assert_eq!(verify(&bad), Ok(false));
    assert!(!direct_verdict(&bad));
}

#[test]
fn proof_of_zeros_over_valid_points_fails() {
    let record = R0ECVRF {
        public_key: generator(),
        gamma: generator(),
        c: [0u8; 32],
        s: [0u8; 32],
        y: [0u8; 32],
        alpha: [0u8; 32],
    };
    assert_eq!(verify(&record), Ok(false));
}

#[test]
fn key_off_the_curve_is_an_error() {
    let mut bad = honest_proof([0x42; 32], [0x17; 32]);
    bad.public_key.y[31] ^= 1;
    assert_eq!(verify(&bad), Err(VrfError::PointNotOnCurve));
}

#[test]
fn witness_off_the_curve_is_an_error() {
    let mut bad = honest_proof([0x42; 32], [0x17; 32]);
    bad.gamma = Point { x: [0x11; 32], y: [0x22; 32], infinity: false };
    assert_eq!(verify(&bad), Err(VrfError::PointNotOnCurve));
}

#[test]
fn identity_as_a_point_of_the_proof_is_an_error() {
    let mut bad = honest_proof([0x42; 32], [0x17; 32]);
    bad.gamma.infinity = true;
    assert_eq!(verify(&bad), Err(VrfError::PointNotOnCurve));
    let mut bad = honest_proof([0x42; 32], [0x17; 32]);
    bad.public_key.infinity = true;
    assert_eq!(verify(&bad), Err(VrfError::PointNotOnCurve));
}

#[test]
fn coordinate_past_the_field_is_an_error() {
    let mut bad = honest_proof([0x42; 32], [0x17; 32]);
    bad.gamma.x = [0xFF; 32];
    assert_eq!(verify(&bad), Err(VrfError::PointNotOnCurve));
}

#[test]
fn verifier_is_deterministic() {
    let proof = honest_proof([0x42; 32], [0x17; 32]);
    assert_eq!(verify(&proof), verify(&proof));
    let mut bad = proof;
    bad.s[5] ^= 0x10;
    assert_eq!(verify(&bad), verify(&bad));
}

#[test]
fn encoded_proof_is_checked_as_the_record_is() {
    let proof = honest_proof([0x42; 32], [0x17; 32]);
    assert_eq!(verify_encoded(&proof.serialize()), Ok(true));
    let mut bad = proof;
    bad.c[0] ^= 0x80;
    assert_eq!(verify_encoded(&bad.serialize()), Ok(false));
}

#[test]
fn malformed_input_is_an_error_not_a_failed_proof() {
    let mut bytes = honest_proof([0x42; 32], [0x17; 32]).serialize();
    bytes.pop();
    assert_eq!(verify_encoded(&bytes), Err(VrfError::TruncatedInput));
    assert_eq!(verify_encoded(&vec![0u8; 257]), Err(VrfError::InvalidPointEncoding));
    let mut bytes = honest_proof([0x42; 32], [0x17; 32]).serialize();
    bytes[128] ^= 1;
    assert_eq!(verify_encoded(&bytes), Err(VrfError::PointNotOnCurve));
}

#[test]
fn valid_receipt_passes_the_committed_answer_on() {
    assert_eq!(journal_outcome(true, true), Ok(true));
    assert_eq!(journal_outcome(true, false), Ok(false));
}

#[test]
fn invalid_receipt_leaves_the_outcome_unknown() {
    assert_eq!(journal_outcome(false, true), Err(VrfError::ReceiptInvalid));
    assert_eq!(journal_outcome(false, false), Err(VrfError::ReceiptInvalid));
}
