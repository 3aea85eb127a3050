//! A claim ticket: a batch and the account, by the hash of its account ID, that has funds to
//! claim on the batch's receipt.

use crate::amounts::BatchId;
use vstd::prelude::*;

verus! {

#[derive(Debug, Clone, Copy)]
pub struct BatchClaimTicket(pub BatchId, pub crate::hash::Hash);

impl BatchClaimTicket {
    pub fn batch_id(&self) -> (r: BatchId)
        ensures
            r == self.0,
    {
        self.0
    }

    pub fn account_hash_id(&self) -> (r: crate::hash::Hash)
        ensures
            r == self.1,
    {
        self.1
    }
}

} // verus!
