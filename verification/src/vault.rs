//! Vaults hold STAKE sent with a transfer until the receiver withdraws it.

use crate::amounts::YoctoStake;
use vstd::prelude::*;

verus! {

/// STAKE held for its owner, who is identified by the hash of the account ID
#[derive(Debug, Clone, Copy)]
pub struct Vault(pub crate::hash::Hash, pub YoctoStake);

impl Vault {
    /// only needed to validate safe ownership during withdrawal
    pub fn owner_id_hash(&self) -> (r: crate::hash::Hash)
        ensures
            r == self.0,
    {
        self.0
    }

    /// the remaining amount of tokens in the vault
    pub fn balance(&self) -> (r: YoctoStake)
        ensures
            r == self.1,
    {
        self.1
    }

    pub fn debit(&mut self, amount: YoctoStake)
        requires
            amount.0 <= old(self).1.0,
        ensures
            final(self).0 == old(self).0,
            final(self).1.0 == old(self).1.0 - amount.0,
    {
        self.1 = YoctoStake(self.1.0 - amount.0);
    }
}

#[derive(Debug, Clone, Copy, PartialEq, Eq, Structural)]
pub struct VaultId(pub u128);

impl VaultId {
    /// the ID that follows this one
    pub fn next(&self) -> (r: Self)
        requires
            self.0 < u128::MAX,
        ensures
            r.0 == self.0 + 1,
    {
        VaultId(self.0 + 1)
    }

    pub fn value(&self) -> (r: u128)
        ensures
            r == self.0,
    {
        self.0
    }
}

impl Default for VaultId {
    fn default() -> (r: Self)
        ensures
            r.0 == 0,
    {
        VaultId(0)
    }
}

} // verus!
