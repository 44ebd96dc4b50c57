use crate::actions::{FundsTransfer, IssueOutcome, IssueRequest, LocalRole, RolesRequest};
use crate::state::{ContractError, Registration, WarmyDonation};
use vstd::pervasive::unreached;
use vstd::prelude::*;

verus! {

impl WarmyDonation {
    /// Owner-only first step of the registration protocol: ask the
    /// external registry to issue a new semi-fungible asset class named
    /// `token_name` with ticker `token_ticker`, paying `issue_cost` as the
    /// registration fee.
    ///
    /// The request fixes the asset class's capability flags: it can never
    /// be frozen, wiped or paused, cannot change owner, and stays
    /// upgradeable and open to further role grants.  The contract moves to
    /// `Pending` and stays there until the registry's one-shot callback
    /// resolves the request.  Any state but `Unregistered` rejects the
    /// call with `AlreadyRegistered`: the identifier is assigned at most
    /// once.
    pub fn issue_token(
        &mut self,
        caller: u64,
        issue_cost: u128,
        token_name: Vec<u8>,
        token_ticker: Vec<u8>,
    ) -> (r: Result<IssueRequest, ContractError>)
        requires
            old(self).wf(),
        ensures
            final(self).wf(),
            caller != old(self).owner ==> ({
                &&& r matches Err(e) && e == ContractError::Unauthorized
                &&& *final(self) == *old(self)
            }),
            (caller == old(self).owner && !(old(self).registration is Unregistered)) ==> ({
                &&& r matches Err(e) && e == ContractError::AlreadyRegistered
                &&& *final(self) == *old(self)
            }),
            (caller == old(self).owner && old(self).registration is Unregistered) ==> ({
                &&& *final(self) == (WarmyDonation {
                    registration: Registration::Pending,
                    ..*old(self)
                })
                &&& r matches Ok(q)
                &&& q.fee == issue_cost
                &&& q.name@ == token_name@
                &&& q.ticker@ == token_ticker@
                &&& !q.can_freeze && !q.can_wipe && !q.can_pause && !q.can_change_owner
                &&& q.can_upgrade && q.can_add_special_roles
            }),
    {
        if caller != self.owner {
            return Err(ContractError::Unauthorized);
        }
        match self.registration {
            Registration::Unregistered => {},
            _ => {
                return Err(ContractError::AlreadyRegistered);
            },
        }
        self.registration = Registration::Pending;
        Ok(
            IssueRequest {
                fee: issue_cost,
                name: token_name,
                ticker: token_ticker,
                can_freeze: false,
                can_wipe: false,
                can_pause: false,
                can_change_owner: false,
                can_upgrade: true,
                can_add_special_roles: true,
            },
        )
    }

    /// The registry's one-shot answer to a pending issue request; only
    /// the registry triggers it, exactly once per request.
    ///
    /// On success the assigned identifier is persisted and the contract
    /// is `Registered`; the identifier is never overwritten, since only a
    /// pending request can be resolved.  On failure the contract falls
    /// back to `Unregistered` with no identifier set, and whatever
    /// payment came back with the failure is refunded to the owner — but
    /// only when it is non-zero and denominated in the settlement
    /// currency; any other returned payload stays where it is.
    pub fn issue_callback(&mut self, outcome: IssueOutcome) -> (r: Option<FundsTransfer>)
        requires
            old(self).wf(),
            old(self).registration is Pending,
        ensures
            final(self).wf(),
            outcome matches IssueOutcome::Success { token_id } ==> ({
                &&& *final(self) == (WarmyDonation {
                    registration: Registration::Registered { token_id },
                    ..*old(self)
                })
                &&& r is None
            }),
            outcome matches IssueOutcome::Failure { returned_amount, in_settlement_currency }
                ==> ({
                &&& *final(self) == (WarmyDonation {
                    registration: Registration::Unregistered,
                    ..*old(self)
                })
                &&& (in_settlement_currency && returned_amount > 0) ==> ({
                    &&& r matches Some(t)
                    &&& t == (FundsTransfer {
                        recipient: old(self).owner,
                        amount: returned_amount,
                    })
                })
                &&& !(in_settlement_currency && returned_amount > 0) ==> r is None
            }),
    {
        match outcome {
            IssueOutcome::Success { token_id } => {
                self.registration = Registration::Registered { token_id };
                None
            },
            IssueOutcome::Failure { returned_amount, in_settlement_currency } => {
                self.registration = Registration::Unregistered;
                if in_settlement_currency && returned_amount > 0 {
                    Some(FundsTransfer { recipient: self.owner, amount: returned_amount })
                } else {
                    None
                }
            },
        }
    }

    /// Owner-only second step of the registration protocol: ask the
    /// registry to grant the contract the two local roles it needs on its
    /// asset class — minting a new batch and adding quantity to one.
    ///
    /// The request can only be built once the asset class is registered;
    /// from any other state the call is rejected with `TokenNotIssued`.
    /// The call itself has no callback: whether the grant took effect is
    /// observed later, by the role check that guards minting.
    pub fn set_local_roles(&self, caller: u64) -> (r: Result<RolesRequest, ContractError>)
        ensures
            caller != self.owner ==> ({
                &&& r matches Err(e)
                &&& e == ContractError::Unauthorized
            }),
            (caller == self.owner && !(self.registration is Registered)) ==> ({
                &&& r matches Err(e)
                &&& e == ContractError::TokenNotIssued
            }),
            (caller == self.owner && self.registration is Registered) ==> ({
                &&& r matches Ok(q)
                &&& q.token_id == self.token_id()
                &&& q.roles@ == seq![LocalRole::NftCreate, LocalRole::NftAddQuantity]
            }),
    {
        if caller != self.owner {
            return Err(ContractError::Unauthorized);
        }
        self.require_token_issued()?;
        let token_id: u64 = match self.registration {
            Registration::Registered { token_id } => token_id,
            _ => unreached(),
        };
        let mut roles: Vec<LocalRole> = Vec::new();
        roles.push(LocalRole::NftCreate);
        roles.push(LocalRole::NftAddQuantity);
        proof {
            assert(roles@ =~= seq![LocalRole::NftCreate, LocalRole::NftAddQuantity]);
        }
        Ok(RolesRequest { token_id, roles })
    }

    /// Guard shared by the operations that need the asset class to exist:
    /// accepts exactly the registered state.
    pub fn require_token_issued(&self) -> (r: Result<(), ContractError>)
        ensures
            r is Ok <==> self.registration is Registered,
            r matches Err(e) ==> e == ContractError::TokenNotIssued,
    {
        match self.registration {
            Registration::Registered { .. } => Ok(()),
            _ => Err(ContractError::TokenNotIssued),
        }
    }
}

} // verus!
