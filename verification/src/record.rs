//! The VRF proof as a record of plain bytes, and its fixed-width encoding.

use crate::curve::{
    decoded_key, field_in_range, in_field, parse_public_key, valid_key_encoding, Point, PointView,
};
use crate::error::VrfError;
use vstd::prelude::*;
use vstd::slice::slice_subrange;

verus! {

/// The length of an encoded proof: a 65-byte key and six 32-byte fields.
pub const PROOF_SIZE: usize = 257;

/// The format byte of an uncompressed point encoding.
pub const TAG_FULL: u8 = 4;

/// An EC-VRF proof together with the key and the seed that it speaks of.
#[derive(Clone, Copy, Debug, PartialEq, Eq)]
pub struct R0ECVRF {
    /// The prover's public key.
    pub public_key: Point,
    /// The witness point, the seed's point scaled by the secret key.
    pub gamma: Point,
    /// The challenge.
    pub c: [u8; 32],
    /// The response.
    pub s: [u8; 32],
    /// The output of the function.
    pub y: [u8; 32],
    /// The seed, the input of the function.
    pub alpha: [u8; 32],
}

/// What an `R0ECVRF` holds, as byte strings.
pub struct ProofView {
    pub public_key: PointView,
    pub gamma: PointView,
    pub c: Seq<u8>,
    pub s: Seq<u8>,
    pub y: Seq<u8>,
    pub alpha: Seq<u8>,
}

impl View for R0ECVRF {
    type V = ProofView;

    open spec fn view(&self) -> ProofView {
        ProofView {
            public_key: self.public_key@,
            gamma: self.gamma@,
            c: self.c@,
            s: self.s@,
            y: self.y@,
            alpha: self.alpha@,
        }
    }
}

impl ProofView {
    /// The records that the encoding can carry: the key is a point of the
    /// curve, the witness is finite with canonical coordinates, and each
    /// scalar is 32 bytes.
    pub open spec fn encodable(self) -> bool {
        &&& self.public_key.is_valid()
        &&& self.gamma.wf()
        &&& !self.gamma.infinity
        &&& self.c.len() == 32
        &&& self.s.len() == 32
        &&& self.y.len() == 32
        &&& self.alpha.len() == 32
    }
}

/// The encoding of a record: the key as an uncompressed point, then the
/// witness's coordinates, the challenge, the response, the output and the
/// seed, 32 bytes each.
pub open spec fn encoded(p: ProofView) -> Seq<u8> {
    seq![TAG_FULL] + p.public_key.x + p.public_key.y + p.gamma.x + p.gamma.y + p.c + p.s + p.y
        + p.alpha
}

/// What a buffer decodes to. Each field is read at its fixed offset; bytes
/// past the encoded proof are not read; the scalars are taken as they stand.
pub open spec fn decoded(data: Seq<u8>) -> Result<ProofView, VrfError> {
    if data.len() < PROOF_SIZE {
        Err(VrfError::TruncatedInput)
    } else if !valid_key_encoding(data.subrange(0, 65)) {
        Err(VrfError::InvalidPointEncoding)
    } else if !in_field(data.subrange(65, 97)) || !in_field(data.subrange(97, 129)) {
        Err(VrfError::InvalidPointEncoding)
    } else {
        Ok(
            ProofView {
                public_key: decoded_key(data.subrange(0, 65)),
                gamma: PointView {
                    x: data.subrange(65, 97),
                    y: data.subrange(97, 129),
                    infinity: false,
                },
                c: data.subrange(129, 161),
                s: data.subrange(161, 193),
                y: data.subrange(193, 225),
                alpha: data.subrange(225, 257),
            },
        )
    }
}

/// The 32 bytes of `data` that start at `at`.
fn read32(data: &[u8], at: usize) -> (field: [u8; 32])
    requires
        at + 32 <= data@.len(),
    ensures
        field@ == data@.subrange(at as int, at + 32),
{
    let len = data.len();
    let mut field = [0u8; 32];
    let mut i: usize = 0;
    while i < 32
        invariant
            i <= 32,
            at + 32 <= len == data@.len(),
            forall|j: int| 0 <= j < i ==> field@[j] == data@[at + j],
        decreases 32 - i,
    {
        field[i] = data[at + i];
        i += 1;
    }
    assert(field@ =~= data@.subrange(at as int, at + 32));
    field
}

impl R0ECVRF {
    /// Encodes the record in 257 bytes.
    pub fn serialize(&self) -> (buf: Vec<u8>)
        ensures
            buf@ == encoded(self@),
            buf@.len() == PROOF_SIZE,
    {
        let mut buf: Vec<u8> = Vec::new();
        buf.push(TAG_FULL);
        buf.extend_from_slice(self.public_key.x.as_slice());
        buf.extend_from_slice(self.public_key.y.as_slice());
        buf.extend_from_slice(self.gamma.x.as_slice());
        buf.extend_from_slice(self.gamma.y.as_slice());
        buf.extend_from_slice(self.c.as_slice());
        buf.extend_from_slice(self.s.as_slice());
        buf.extend_from_slice(self.y.as_slice());
        buf.extend_from_slice(self.alpha.as_slice());
        assert(buf@ =~= encoded(self@));
        buf
    }

    /// Decodes a record from the first 257 bytes of a buffer. A shorter
    /// buffer is truncated input; a key that is no valid point encoding, or
    /// a witness coordinate that is no field element, is an invalid point
    /// encoding.
    pub fn deserialize(data: &Vec<u8>) -> (r: Result<R0ECVRF, VrfError>)
        ensures
            match r {
                Ok(p) => decoded(data@) == Ok::<ProofView, VrfError>(p@),
                Err(e) => decoded(data@) == Err::<ProofView, VrfError>(e),
            },
    {
        if data.len() < PROOF_SIZE {
            return Err(VrfError::TruncatedInput);
        }
        let bytes = data.as_slice();
        let public_key = match parse_public_key(slice_subrange(bytes, 0, 65)) {
            Ok(key) => key,
            Err(_) => {
                return Err(VrfError::InvalidPointEncoding);
            },
        };
        let gamma = Point { x: read32(bytes, 65), y: read32(bytes, 97), infinity: false };
        if !field_in_range(&gamma.x) || !field_in_range(&gamma.y) {
            return Err(VrfError::InvalidPointEncoding);
        }
        Ok(
            R0ECVRF {
                public_key,
                gamma,
                c: read32(bytes, 129),
                s: read32(bytes, 161),
                y: read32(bytes, 193),
                alpha: read32(bytes, 225),
            },
        )
    }
}

/// Decoding an encoded record gives the record back, and every encoding is
/// 257 bytes long.
pub proof fn lemma_round_trip(p: R0ECVRF)
    requires
        p@.encodable(),
    ensures
        encoded(p@).len() == PROOF_SIZE,
        decoded(encoded(p@)) == Ok::<ProofView, VrfError>(p@),
{
    let v = p@;
    let data = encoded(v);
    assert(data.len() == 257);
    assert(data.subrange(0, 65).subrange(1, 33) =~= v.public_key.x);
    assert(data.subrange(0, 65).subrange(33, 65) =~= v.public_key.y);
    assert(data.subrange(0, 65)[0] == TAG_FULL);
    assert(data.subrange(65, 97) =~= v.gamma.x);
    assert(data.subrange(97, 129) =~= v.gamma.y);
    assert(data.subrange(129, 161) =~= v.c);
    assert(data.subrange(161, 193) =~= v.s);
    assert(data.subrange(193, 225) =~= v.y);
    assert(data.subrange(225, 257) =~= v.alpha);
}

/// Whatever decodes is a record that the encoding can carry.
pub proof fn lemma_decoded_is_encodable(data: Seq<u8>)
    requires
        decoded(data) is Ok,
    ensures
        decoded(data)->Ok_0.encodable(),
{
}

/// Two records that hold the same bytes are the same record.
pub proof fn lemma_view_determines_record(p: R0ECVRF, q: R0ECVRF)
    requires
        p@ == q@,
    ensures
        p == q,
{
    assert(p.public_key.x =~= q.public_key.x);
    assert(p.public_key.y =~= q.public_key.y);
    assert(p.gamma.x =~= q.gamma.x);
    assert(p.gamma.y =~= q.gamma.y);
    assert(p.c =~= q.c);
    assert(p.s =~= q.s);
    assert(p.y =~= q.y);
    assert(p.alpha =~= q.alpha);
}

} // verus!
