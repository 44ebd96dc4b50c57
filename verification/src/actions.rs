use vstd::prelude::*;

verus! {

/// A transfer of NFTs out of the contract's custody, for the host to
/// perform: `amount` units of the batch `nonce` of asset class `token_id`
/// go to `recipient`.
#[derive(Clone, Copy, Debug, PartialEq, Eq, Structural)]
pub struct NftTransfer {
    pub recipient: u64,
    pub token_id: u64,
    pub nonce: u64,
    pub amount: u32,
}

/// A transfer of settlement currency out of the contract's custody, for
/// the host to perform.
#[derive(Clone, Copy, Debug, PartialEq, Eq, Structural)]
pub struct FundsTransfer {
    pub recipient: u64,
    pub amount: u128,
}

/// The local permissions the contract asks the registry to grant it on
/// its asset class.
#[derive(Clone, Copy, Debug, PartialEq, Eq, Structural)]
pub enum LocalRole {
    NftCreate,
    NftAddQuantity,
}

/// The asynchronous request to the external registry to issue a new
/// semi-fungible asset class.  The registration fee travels with it, and
/// the registry later answers with the one-shot issue callback.
#[derive(Clone, Debug)]
pub struct IssueRequest {
    pub fee: u128,
    pub name: Vec<u8>,
    pub ticker: Vec<u8>,
    pub can_freeze: bool,
    pub can_wipe: bool,
    pub can_pause: bool,
    pub can_change_owner: bool,
    pub can_upgrade: bool,
    pub can_add_special_roles: bool,
}

/// What the registry's issue callback eventually reports back.  On
/// failure it may carry a returned payment, which is refunded only when
/// it is non-zero and denominated in the settlement currency.
#[derive(Clone, Copy, Debug, PartialEq, Eq, Structural)]
pub enum IssueOutcome {
    Success { token_id: u64 },
    Failure { returned_amount: u128, in_settlement_currency: bool },
}

/// The asynchronous request to the registry to grant the contract the
/// listed local roles on its asset class.
#[derive(Clone, Debug)]
pub struct RolesRequest {
    pub token_id: u64,
    pub roles: Vec<LocalRole>,
}

/// The request to the host to mint one batch of `amount` NFTs of asset
/// class `token_id`, tagged with the digest of `attributes` and with
/// `uri`.  The host computes the digest and answers with the nonce it
/// assigned to the batch.
#[derive(Clone, Debug)]
pub struct MintRequest {
    pub token_id: u64,
    pub amount: u32,
    pub name: Vec<u8>,
    pub royalties: u128,
    pub attributes: Vec<u8>,
    pub uri: Vec<u8>,
}

} // verus!
