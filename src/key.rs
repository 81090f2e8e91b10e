//! Account identities.

use vstd::prelude::*;

verus! {

/// A 32-byte account identity (a wallet, a token account or a program).
#[derive(Clone, Copy, Debug)]
pub struct Pubkey {
    pub bytes: [u8; 32],
}

impl View for Pubkey {
    type V = Seq<u8>;

    open spec fn view(&self) -> Seq<u8> {
        self.bytes@
    }
}

impl Pubkey {
    pub fn new_from_array(bytes: [u8; 32]) -> (r: Pubkey)
        ensures
            r.bytes == bytes,
    {
        Pubkey { bytes }
    }

    pub fn to_bytes(&self) -> (r: [u8; 32])
        ensures
            r == self.bytes,
    {
        self.bytes
    }
}

impl PartialEq for Pubkey {
    fn eq(&self, other: &Pubkey) -> (r: bool) {
        let mut i: usize = 0;
        while i < 32
            invariant
                i <= 32,
                forall|j: int| 0 <= j < i ==> self.bytes[j] == other.bytes[j],
            decreases 32 - i,
        {
            if self.bytes[i] != other.bytes[i] {
                return false;
            }
            i = i + 1;
        }
        proof {
            assert(self.bytes@ =~= other.bytes@);
            assert(self.bytes == other.bytes);
        }
        true
    }
}

impl vstd::std_specs::cmp::PartialEqSpecImpl for Pubkey {
    open spec fn obeys_eq_spec() -> bool {
        true
    }

    open spec fn eq_spec(&self, other: &Pubkey) -> bool {
        self == other
    }
}

impl Eq for Pubkey {}

} // verus!
