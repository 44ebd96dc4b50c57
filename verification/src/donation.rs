use crate::actions::NftTransfer;
use crate::state::{ContractError, Registration, WarmyDonation, MIN_NFT_PAYMENT};
use vstd::pervasive::unreached;
use vstd::prelude::*;
use vstd::string::StringExecFns;

verus! {

/// What an accepted donation produced: either one NFT goes to the donor,
/// with a thank-you note attached, or the payment is kept as a plain
/// donation with nothing transferred.
#[derive(Clone, Debug)]
pub enum DonationOutcome {
    NftGranted { transfer: NftTransfer, note: String },
    PlainDonation,
}

impl WarmyDonation {
    /// The payable donation entry point.  Any caller may pay any amount
    /// `payment` of the settlement currency into the contract's custody.
    ///
    /// Before the NFT batch exists every donation is rejected whole with
    /// `NotReady`.  Afterwards every donation is accepted: a payment at or
    /// above `MIN_NFT_PAYMENT` is rewarded with exactly one NFT while the
    /// pool lasts, and is kept as a plain donation once the pool is
    /// exhausted, exactly as a below-threshold payment is.  The funds
    /// counter always grows by exactly the payment, and the NFT grant and
    /// its two counter updates happen together or not at all.
    pub fn donate(&mut self, caller: u64, payment: u128) -> (r: Result<
        DonationOutcome,
        ContractError,
    >)
        requires
            old(self).wf(),
            old(self).amount_raised + payment <= u128::MAX,
        ensures
            final(self).wf(),
            final(self).owner == old(self).owner,
            final(self).nft_total == old(self).nft_total,
            final(self).registration == old(self).registration,
            final(self).batch == old(self).batch,
            !old(self).nft_created() ==> ({
                &&& r matches Err(e) && e == ContractError::NotReady
                &&& *final(self) == *old(self)
            }),
            old(self).nft_created() ==> ({
                &&& r is Ok
                &&& final(self).amount_raised == old(self).amount_raised + payment
                &&& final(self).nft_bought + final(self).nft_left == old(self).nft_bought
                    + old(self).nft_left
            }),
            (old(self).nft_created() && payment >= MIN_NFT_PAYMENT && old(self).nft_left > 0)
                ==> ({
                &&& r->Ok_0 matches DonationOutcome::NftGranted { transfer, note }
                &&& transfer.recipient == caller
                &&& transfer.token_id == old(self).token_id()
                &&& transfer.nonce == old(self).nft_nonce()
                &&& transfer.amount == 1
                &&& note@ == "Here is your NFT. Multumesc !"@
                &&& final(self).nft_bought == old(self).nft_bought + 1
                &&& final(self).nft_left == old(self).nft_left - 1
            }),
            (old(self).nft_created() && !(payment >= MIN_NFT_PAYMENT && old(self).nft_left > 0))
                ==> ({
                &&& r->Ok_0 is PlainDonation
                &&& final(self).nft_bought == old(self).nft_bought
                &&& final(self).nft_left == old(self).nft_left
            }),
    {
        if self.batch.is_none() {
            return Err(ContractError::NotReady);
        }
        if payment >= MIN_NFT_PAYMENT && self.nft_left > 0 {
            let token_id: u64 = match self.registration {
                Registration::Registered { token_id } => token_id,
                _ => unreached(),
            };
            let nonce: u64 = match &self.batch {
                Option::Some(b) => b.nonce,
                Option::None => unreached(),
            };
            let transfer = NftTransfer { recipient: caller, token_id, nonce, amount: 1 };
            self.nft_bought = self.nft_bought + 1;
            self.nft_left = self.nft_left - 1;
            self.amount_raised = self.amount_raised + payment;
            Ok(
                DonationOutcome::NftGranted {
                    transfer,
                    note: String::from_str("Here is your NFT. Multumesc !"),
                },
            )
        } else {
            self.amount_raised = self.amount_raised + payment;
            Ok(DonationOutcome::PlainDonation)
        }
    }
}

} // verus!
