//! Big-endian byte strings read as natural numbers.

use vstd::prelude::*;

verus! {

/// The natural number that a byte string denotes, most significant byte first.
pub open spec fn be_nat(b: Seq<u8>) -> nat
    decreases b.len(),
{
    if b.len() == 0 {
        0
    } else {
        be_nat(b.drop_last()) * 256 + b.last() as nat
    }
}

/// Two byte strings of one length that denote the same number are the same string.
pub proof fn lemma_be_nat_injective(a: Seq<u8>, b: Seq<u8>)
    requires
        a.len() == b.len(),
        be_nat(a) == be_nat(b),
    ensures
        a == b,
    decreases a.len(),
{
    if a.len() == 0 {
        assert(a =~= b);
    } else {
        let hi_a = be_nat(a.drop_last());
        let hi_b = be_nat(b.drop_last());
        assert(hi_a * 256 + a.last() as nat == hi_b * 256 + b.last() as nat);
        assert(a.last() == b.last() && hi_a == hi_b) by {
            if hi_a < hi_b {
                assert(hi_a * 256 + 256 <= hi_b * 256);
            } else if hi_b < hi_a {
                assert(hi_b * 256 + 256 <= hi_a * 256);
            }
        }
        lemma_be_nat_injective(a.drop_last(), b.drop_last());
        assert(a =~= a.drop_last().push(a.last()));
        assert(b =~= b.drop_last().push(b.last()));
    }
}

/// Whether two 32-byte strings hold the same bytes.
pub fn bytes_equal(a: &[u8; 32], b: &[u8; 32]) -> (same: bool)
    ensures
        same == (a@ == b@),
        same == (be_nat(a@) == be_nat(b@)),
{
    let mut i: usize = 0;
    while i < 32
        invariant
            i <= 32,
            forall|j: int| 0 <= j < i ==> a@[j] == b@[j],
        decreases 32 - i,
    {
        if a[i] != b[i] {
            proof {
                if be_nat(a@) == be_nat(b@) {
                    lemma_be_nat_injective(a@, b@);
                }
            }
            return false;
        }
        i += 1;
    }
    assert(a@ =~= b@);
    true
}

} // verus!
