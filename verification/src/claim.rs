use crate::actions::{FundsTransfer, NftTransfer};
use crate::state::{
    spec_claim_funds, spec_claim_nft_left, ContractError, Registration, WarmyDonation,
};
use vstd::pervasive::unreached;
use vstd::prelude::*;

verus! {

impl WarmyDonation {
    /// Owner-only full withdrawal of the accumulated funds.
    ///
    /// `balance` is the contract's current custody balance of the
    /// settlement currency, as the host reads it.  The whole balance goes
    /// to the owner in one transfer and the funds counter is cleared; a
    /// caller other than the owner is rejected with `Unauthorized` and
    /// nothing changes.  Claiming is never an error for the owner: with
    /// an empty balance it simply transfers zero.
    pub fn claim(&mut self, caller: u64, balance: u128) -> (r: Result<
        FundsTransfer,
        ContractError,
    >)
        requires
            old(self).wf(),
        ensures
            final(self).wf(),
            caller != old(self).owner ==> ({
                &&& r matches Err(e) && e == ContractError::Unauthorized
                &&& *final(self) == *old(self)
            }),
            caller == old(self).owner ==> ({
                &&& r matches Ok(t)
                &&& t.recipient == old(self).owner
                &&& t.amount == balance
                &&& *final(self) == spec_claim_funds(*old(self))
                &&& final(self).amount_raised == 0
            }),
    {
        if caller != self.owner {
            return Err(ContractError::Unauthorized);
        }
        self.amount_raised = 0;
        Ok(FundsTransfer { recipient: self.owner, amount: balance })
    }

    /// Owner-only withdrawal of the NFTs still left in the pool.
    ///
    /// All remaining NFTs go to the owner as one batched transfer and the
    /// pool is emptied; the grant counter is untouched.  Once the pool is
    /// already empty, claiming again changes nothing and is still
    /// accepted.  Before the batch is
    /// minted there is nothing to transfer, so the owner gets `None`.  A
    /// caller other than the owner is rejected with `Unauthorized` and
    /// nothing changes.
    pub fn claim_nft_left(&mut self, caller: u64) -> (r: Result<
        Option<NftTransfer>,
        ContractError,
    >)
        requires
            old(self).wf(),
        ensures
            final(self).wf(),
            caller != old(self).owner ==> ({
                &&& r matches Err(e) && e == ContractError::Unauthorized
                &&& *final(self) == *old(self)
            }),
            caller == old(self).owner ==> ({
                &&& *final(self) == spec_claim_nft_left(*old(self))
                &&& final(self).nft_left == 0
                &&& final(self).nft_bought == old(self).nft_bought
            }),
            (caller == old(self).owner && old(self).nft_created()) ==> ({
                &&& r matches Ok(a)
                &&& a matches Some(t)
                &&& t.recipient == old(self).owner
                &&& t.token_id == old(self).token_id()
                &&& t.nonce == old(self).nft_nonce()
                &&& t.amount == old(self).nft_left
            }),
            (caller == old(self).owner && !old(self).nft_created()) ==> ({
                &&& r matches Ok(a)
                &&& a is None
            }),
    {
        if caller != self.owner {
            return Err(ContractError::Unauthorized);
        }
        if self.batch.is_none() {
            self.nft_left = 0;
            return Ok(None);
        }
        let token_id: u64 = match self.registration {
            Registration::Registered { token_id } => token_id,
            _ => unreached(),
        };
        let nonce: u64 = match &self.batch {
            Option::Some(b) => b.nonce,
            Option::None => unreached(),
        };
        let transfer = NftTransfer {
            recipient: self.owner,
            token_id,
            nonce,
            amount: self.nft_left,
        };
        self.nft_left = 0;
        Ok(Some(transfer))
    }
}

} // verus!
