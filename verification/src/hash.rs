//! 32-byte account ID hashes: accounts are keyed by the SHA-256 hash of their account ID.

use vstd::prelude::*;

verus! {

#[derive(Debug, Clone, Copy)]
pub struct Hash(pub [u8; 32]);

impl Hash {
    pub fn new(bytes: [u8; 32]) -> (r: Self)
        ensures
            r.0@ == bytes@,
    {
        Hash(bytes)
    }

    /// the bytes of the hash
    pub open spec fn key(self) -> Seq<u8> {
        self.0@
    }

    pub fn equals(&self, other: &Hash) -> (r: bool)
        ensures
            r == (self.key() == other.key()),
    {
        let mut i: usize = 0;
        while i < 32
            invariant
                0 <= i <= 32,
                self.0@.len() == 32,
                other.0@.len() == 32,
                forall|j: int| 0 <= j < i ==> self.0@[j] == other.0@[j],
            decreases 32 - i,
        {
            if self.0[i] != other.0[i] {
                return false;
            }
            i = i + 1;
        }
        assert(self.0@ =~= other.0@);
        true
    }
}

impl Default for Hash {
    fn default() -> (r: Self)
        ensures
            r.0@ == Seq::new(32, |i: int| 0u8),
    {
        let r = Hash([0u8; 32]);
        assert(r.0@ =~= Seq::new(32, |i: int| 0u8));
        r
    }
}

} // verus!
