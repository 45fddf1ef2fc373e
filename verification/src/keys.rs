//! Public-key identifiers: fixed 32-byte values used to name accounts,
//! owners and administrators.

use vstd::prelude::*;

verus! {

/// The byte length of every public-key identifier.
pub const PUBKEY_LEN: usize = 32;

/// A fixed-size public-key identifier, held as its 32 raw bytes.
pub struct Pubkey {
    pub bytes: Vec<u8>,
}

impl View for Pubkey {
    type V = Seq<u8>;

    open spec fn view(&self) -> Seq<u8> {
        self.bytes@
    }
}

impl Pubkey {
    /// A key is well formed when it holds exactly 32 bytes.
    pub open spec fn wf(&self) -> bool {
        self.bytes@.len() == PUBKEY_LEN
    }

    /// Builds a key from its raw bytes; refuses any other length.
    pub fn new(bytes: Vec<u8>) -> (r: Option<Pubkey>)
        ensures
            bytes@.len() == PUBKEY_LEN ==> (r matches Some(k) && k@ == bytes@ && k.wf()),
            bytes@.len() != PUBKEY_LEN ==> r is None,
    {
        if bytes.len() == PUBKEY_LEN {
            Some(Pubkey { bytes })
        } else {
            None
        }
    }

    /// Compares two keys byte for byte.
    pub fn key_eq(&self, other: &Pubkey) -> (r: bool)
        ensures
            r == (self@ == other@),
    {
        if self.bytes.len() != other.bytes.len() {
            assert(self@.len() != other@.len());
            return false;
        }
        let n = self.bytes.len();
        let mut i: usize = 0;
        while i < n
            invariant
                n == self.bytes@.len(),
                n == other.bytes@.len(),
                i <= n,
                forall|j: int| 0 <= j < i ==> self.bytes@[j] == other.bytes@[j],
            decreases n - i,
        {
            if self.bytes[i] != other.bytes[i] {
                assert(self@ != other@);
                return false;
            }
            i += 1;
        }
        assert(self@ =~= other@);
        true
    }
}

} // verus!
