//! Account and token identities: opaque 32-byte keys, compared for
//! equality only. The all-zero key is reserved as "no identity".
use vstd::prelude::*;

verus! {

broadcast use vstd::array::group_array_axioms;

/// A 32-byte account or token identity.
#[derive(Clone, Copy, Debug)]
pub struct Pubkey {
    pub bytes: [u8; 32],
}

impl Pubkey {
    /// The reserved "no identity" key.
    pub open spec fn is_zero_spec(self) -> bool {
        forall|i: int| 0 <= i < 32 ==> self.bytes[i] == 0u8
    }

    /// The all-zero key, used by callers to mark an unset identity.
    pub fn zero() -> (r: Pubkey)
        ensures
            r.is_zero_spec(),
    {
        let r = Pubkey { bytes: [0u8; 32] };
        proof {
            assert(forall|i: int| 0 <= i < 32 ==> r.bytes[i] == 0u8);
        }
        r
    }

    /// Whether this key is the reserved all-zero identity.
    pub fn is_zero(&self) -> (r: bool)
        ensures
            r == self.is_zero_spec(),
    {
        let mut i: usize = 0;
        while i < 32
            invariant
                0 <= i <= 32,
                forall|j: int| 0 <= j < i ==> self.bytes[j] == 0u8,
            decreases 32 - i,
        {
            if self.bytes[i] != 0u8 {
                return false;
            }
            i = i + 1;
        }
        true
    }
}

/// Byte-for-byte equality of two identities.
pub fn pubkey_eq(a: &Pubkey, b: &Pubkey) -> (r: bool)
    ensures
        r == (a == b),
{
    let mut i: usize = 0;
    while i < 32
        invariant
            0 <= i <= 32,
            forall|j: int| 0 <= j < i ==> a.bytes[j] == b.bytes[j],
        decreases 32 - i,
    {
        if a.bytes[i] != b.bytes[i] {
            return false;
        }
        i = i + 1;
    }
    proof {
        assert(a.bytes@ =~= b.bytes@);
        assert(a.bytes == b.bytes);
    }
    true
}

} // verus!
