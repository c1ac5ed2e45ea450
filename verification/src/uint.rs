//! Amounts of motes: unsigned integers of 512 bits.

use vstd::prelude::*;

verus! {

/// The weight of one limb relative to the one before it: 2 to the 64.
pub open spec fn limb_base() -> nat {
    0x1_0000_0000_0000_0000
}

/// The number that eight limbs stand for, the least significant first.
pub open spec fn limbs_value(limbs: Seq<u64>) -> nat
    recommends
        limbs.len() == 8,
{
    let b = limb_base();
    (limbs[0] + b * (limbs[1] + b * (limbs[2] + b * (limbs[3] + b * (limbs[4] + b * (limbs[5] + b
        * (limbs[6] + b * limbs[7]))))))) as nat
}

/// The largest number that eight limbs can stand for.
pub open spec fn max_value() -> nat {
    limbs_value(seq![u64::MAX; 8])
}

/// An unsigned integer of 512 bits, as eight limbs of 64 bits, the least
/// significant first.
#[derive(Clone, Copy, Debug, PartialEq, Eq)]
pub struct U512 {
    pub limbs: [u64; 8],
}

impl U512 {
    /// The number that this value stands for.
    pub open spec fn value(&self) -> nat {
        limbs_value(self.limbs@)
    }

    /// The value that stands for `n`.
    pub fn from_u32(n: u32) -> (res: U512)
        ensures
            res.value() == n,
    {
        let low: u64 = n.into();
        U512 { limbs: [low, 0, 0, 0, 0, 0, 0, 0] }
    }

    /// Whether the two values stand for the same number.
    pub fn equals(&self, other: &U512) -> (same: bool)
        ensures
            same == (self.value() == other.value()),
    {
        let mut i: usize = 0;
        while i < 8
            invariant
                i <= 8,
                forall|j: int| 0 <= j < i ==> self.limbs@[j] == other.limbs@[j],
            decreases 8 - i,
        {
            if self.limbs[i] != other.limbs[i] {
                proof {
                    if self.value() == other.value() {
                        lemma_value_tells_limbs_apart(self.limbs@, other.limbs@);
                    }
                }
                return false;
            }
            i += 1;
        }
        true
    }

    /// Calls `checked_add` of `casper_types::U512`, whose limbs are these
    /// limbs. It is taken on trust that the result is the sum, and `None`
    /// exactly where the sum does not fit in 512 bits.
    #[verifier::external_body]
    pub(crate) fn checked_add(self, other: U512) -> (sum: Option<U512>)
        ensures
            match sum {
                Some(s) => s.value() == self.value() + other.value(),
                None => self.value() + other.value() > max_value(),
            },
    {
        match casper_types::U512(self.limbs).checked_add(casper_types::U512(other.limbs)) {
            Some(s) => Some(U512 { limbs: s.0 }),
            None => None,
        }
    }
}

/// Eight limbs that differ somewhere stand for different numbers.
pub proof fn lemma_value_tells_limbs_apart(a: Seq<u64>, b: Seq<u64>)
    requires
        a.len() == 8,
        b.len() == 8,
        limbs_value(a) == limbs_value(b),
    ensures
        forall|j: int| 0 <= j < 8 ==> a[j] == b[j],
{
    let base = limb_base() as int;
    let a6 = a[6] + base * a[7];
    let b6 = b[6] + base * b[7];
    let a5 = a[5] + base * a6;
    let b5 = b[5] + base * b6;
    let a4 = a[4] + base * a5;
    let b4 = b[4] + base * b5;
    let a3 = a[3] + base * a4;
    let b3 = b[3] + base * b4;
    let a2 = a[2] + base * a3;
    let b2 = b[2] + base * b3;
    let a1 = a[1] + base * a2;
    let b1 = b[1] + base * b2;
    assert(a[0] + base * a1 == b[0] + base * b1);
    lemma_split(a[0] as int, a1, b[0] as int, b1);
    lemma_split(a[1] as int, a2, b[1] as int, b2);
    lemma_split(a[2] as int, a3, b[2] as int, b3);
    lemma_split(a[3] as int, a4, b[3] as int, b4);
    lemma_split(a[4] as int, a5, b[4] as int, b5);
    lemma_split(a[5] as int, a6, b[5] as int, b6);
    lemma_split(a[6] as int, a[7] as int, b[6] as int, b[7] as int);
}

/// A number splits in one way only into a limb and a multiple of the base.
pub proof fn lemma_split(low_a: int, high_a: int, low_b: int, high_b: int)
    requires
        0 <= low_a < limb_base(),
        0 <= low_b < limb_base(),
        low_a + limb_base() * high_a == low_b + limb_base() * high_b,
    ensures
        low_a == low_b,
        high_a == high_b,
{
}

} // verus!
