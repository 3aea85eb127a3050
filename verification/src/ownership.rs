//! Who runs the contract: the owner, who may hand ownership over and appoint the operator, and
//! the operator, who runs the contract's operations. Both must be registered accounts.

use crate::state::StakeTokenContract;
use vstd::prelude::*;

verus! {

/// why an ownership request was refused
#[derive(Debug, Clone, Copy, PartialEq, Eq, Structural)]
pub enum OwnershipError {
    /// the caller is not the contract owner
    NotOwner,
    /// the account that was named is not registered with the contract
    AccountNotRegistered,
}

/// the contract owner and operator account IDs
pub struct ContractOwnership {
    pub owner_id: String,
    pub operator_id: String,
}

impl ContractOwnership {
    /// the owner starts out as the operator too, unless an operator is named
    pub fn new(owner_id: String, operator_id: Option<String>) -> (r: Self)
        ensures
            r.owner_id@ == owner_id@,
            r.operator_id@ == (match operator_id {
                Some(id) => id@,
                None => owner_id@,
            }),
    {
        let operator_id = match operator_id {
            Some(id) => id,
            None => owner_id.clone(),
        };
        ContractOwnership { owner_id, operator_id }
    }

    pub fn owner_id(&self) -> (r: String)
        ensures
            r@ == self.owner_id@,
    {
        self.owner_id.clone()
    }

    pub fn operator_id(&self) -> (r: String)
        ensures
            r@ == self.operator_id@,
    {
        self.operator_id.clone()
    }

    /// true if `account_id` is the contract owner
    pub fn is_owner(&self, account_id: &String) -> (r: bool)
        ensures
            r == (account_id@ == self.owner_id@),
    {
        *account_id == self.owner_id
    }

    /// true if `account_id` is the operator
    pub fn is_operator(&self, account_id: &String) -> (r: bool)
        ensures
            r == (account_id@ == self.operator_id@),
    {
        *account_id == self.operator_id
    }

    /// true if `account_id` is the contract's own account or the operator: callbacks that release
    /// the batch locks may come from either
    pub fn is_self_or_operator(&self, account_id: &String, contract_account_id: &String) -> (r: bool)
        ensures
            r == (account_id@ == contract_account_id@ || account_id@ == self.operator_id@),
    {
        *account_id == *contract_account_id || *account_id == self.operator_id
    }

    /// the owner hands ownership over to a registered account, identified by its account ID and
    /// the key its account is stored under; the new owner also becomes the operator. Returns the
    /// previous owner.
    pub fn transfer_ownership(
        &mut self,
        predecessor: &String,
        new_owner: String,
        new_owner_key: &crate::hash::Hash,
        contract: &StakeTokenContract,
    ) -> (r: Result<String, OwnershipError>)
        requires
            contract.wf(),
        ensures
            predecessor@ != old(self).owner_id@ ==> r == Err::<String, OwnershipError>(OwnershipError::NotOwner),
            predecessor@ == old(self).owner_id@ && !contract@.registered(new_owner_key.key())
                ==> r == Err::<String, OwnershipError>(OwnershipError::AccountNotRegistered),
            r is Err ==> final(self).owner_id@ == old(self).owner_id@ && final(self).operator_id@ == old(self).operator_id@,
            predecessor@ == old(self).owner_id@ && contract@.registered(new_owner_key.key()) ==> {
                &&& r is Ok
                &&& r->Ok_0@ == old(self).owner_id@
                &&& final(self).owner_id@ == new_owner@
                &&& final(self).operator_id@ == new_owner@
            },
    {
        if !self.is_owner(predecessor) {
            return Err(OwnershipError::NotOwner);
        }
        if !contract.account_registered(new_owner_key) {
            return Err(OwnershipError::AccountNotRegistered);
        }
        let previous_owner = self.owner_id.clone();
        self.operator_id = new_owner.clone();
        self.owner_id = new_owner;
        Ok(previous_owner)
    }

    /// the owner appoints a registered account as the operator
    pub fn set_operator_id(
        &mut self,
        predecessor: &String,
        account_id: String,
        account_key: &crate::hash::Hash,
        contract: &StakeTokenContract,
    ) -> (r: Result<(), OwnershipError>)
        requires
            contract.wf(),
        ensures
            predecessor@ != old(self).owner_id@ ==> r == Err::<(), OwnershipError>(OwnershipError::NotOwner),
            predecessor@ == old(self).owner_id@ && !contract@.registered(account_key.key())
                ==> r == Err::<(), OwnershipError>(OwnershipError::AccountNotRegistered),
            r is Err ==> final(self).operator_id@ == old(self).operator_id@,
            predecessor@ == old(self).owner_id@ && contract@.registered(account_key.key())
                ==> r is Ok && final(self).operator_id@ == account_id@,
            final(self).owner_id@ == old(self).owner_id@,
    {
        if !self.is_owner(predecessor) {
            return Err(OwnershipError::NotOwner);
        }
        if !contract.account_registered(account_key) {
            return Err(OwnershipError::AccountNotRegistered);
        }
        self.operator_id = account_id;
        Ok(())
    }
}

} // verus!
