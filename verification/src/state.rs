use vstd::prelude::*;

verus! {

/// Smallest payment (in the base denomination of the settlement currency)
/// that is rewarded with one NFT.
pub const MIN_NFT_PAYMENT: u128 = 50000000000000000;

/// Caller-visible rejections.  Each one rejects the whole invocation:
/// no state mutation precedes the failed check.
#[derive(Clone, Copy, Debug, PartialEq, Eq, Structural)]
pub enum ContractError {
    /// An owner-only operation was invoked by another identity.
    Unauthorized,
    /// A donation arrived before the NFT batch was created.
    NotReady,
    /// The asset class has not been issued by the registry.
    TokenNotIssued,
    /// The local create/add-quantity roles are not both present.
    RolesNotSet,
    /// A second registration was attempted.
    AlreadyRegistered,
    /// A second NFT batch creation was attempted.
    AlreadyMinted,
}

/// Progress of the asset-class registration with the external registry.
///
/// The registry call is asynchronous: issuing it moves the contract to
/// `Pending`, and only its one-shot callback moves the contract out of
/// `Pending` again.  The registry-assigned identifier is set exactly once,
/// on a successful callback, and is never overwritten.
#[derive(Clone, Copy, Debug, PartialEq, Eq, Structural)]
pub enum Registration {
    Unregistered,
    Pending,
    Registered { token_id: u64 },
}

/// The one minted NFT batch: its registry-assigned batch nonce, the digest
/// of the serialized attribute payload, and the off-chain resource it
/// points to.  Created exactly once, immutable thereafter.
#[derive(Clone, Debug)]
pub struct NftBatch {
    pub nonce: u64,
    pub provenance_hash: Vec<u8>,
    pub resource_uri: Vec<u8>,
}

/// The donation contract's entire persistent state.
///
/// Identities (the owner and any caller) are opaque account numbers; the
/// host resolves them.  Currency amounts are counted in the base
/// denomination of the settlement currency.
#[derive(Clone, Debug)]
pub struct WarmyDonation {
    /// The single privileged operator identity, fixed at deployment.
    pub owner: u64,
    /// Size of the NFT pool minted in the one batch, fixed at deployment.
    pub nft_total: u32,
    /// Total funds received, reset only by a full withdrawal.
    pub amount_raised: u128,
    /// NFTs granted to donors so far.
    pub nft_bought: u32,
    /// NFTs still available for granting.
    pub nft_left: u32,
    /// Progress of the asset-class registration.
    pub registration: Registration,
    /// The minted batch, absent until minting completes.  While it is
    /// absent, every donation is turned away.
    pub batch: Option<NftBatch>,
}

impl WarmyDonation {
    /// The minting-completion flag: donations can only be rewarded after
    /// the batch exists.
    pub open spec fn nft_created(self) -> bool {
        self.batch is Some
    }

    /// The registry-assigned asset-class identifier.
    pub open spec fn token_id(self) -> u64
        recommends
            self.registration is Registered,
    {
        self.registration->token_id
    }

    /// The batch nonce under which every NFT of the pool was minted.
    pub open spec fn nft_nonce(self) -> u64
        recommends
            self.nft_created(),
    {
        self.batch->Some_0.nonce
    }

    /// Well-formedness, established at deployment and preserved by every
    /// operation:
    /// - minting only happens against a registered asset class;
    /// - once minted, the grant counters never exceed the pool size
    ///   (they sum to exactly the pool size until the owner claims the
    ///   leftover NFTs, which removes what is left from the pool);
    /// - before minting, both grant counters are zero.
    pub open spec fn wf(self) -> bool {
        &&& self.nft_created() ==> self.registration is Registered
        &&& self.nft_created() ==> self.nft_bought + self.nft_left <= self.nft_total
        &&& !self.nft_created() ==> self.nft_bought == 0 && self.nft_left == 0
    }

    /// Deployment: an empty ledger owned by `owner`, with an NFT pool of
    /// `nft_total` to be minted later in one batch.
    pub fn init(owner: u64, nft_total: u32) -> (s: Self)
        ensures
            s.wf(),
            s.owner == owner,
            s.nft_total == nft_total,
            s.amount_raised == 0,
            s.nft_bought == 0,
            s.nft_left == 0,
            s.registration is Unregistered,
            !s.nft_created(),
    {
        WarmyDonation {
            owner,
            nft_total,
            amount_raised: 0,
            nft_bought: 0,
            nft_left: 0,
            registration: Registration::Unregistered,
            batch: None,
        }
    }
}

/// The state a full withdrawal leaves behind: the funds counter cleared,
/// everything else untouched.
pub open spec fn spec_claim_funds(s: WarmyDonation) -> WarmyDonation {
    WarmyDonation { amount_raised: 0, ..s }
}

/// The state a leftover-NFT claim leaves behind: the pool emptied,
/// everything else (the grant counter included) untouched.
pub open spec fn spec_claim_nft_left(s: WarmyDonation) -> WarmyDonation {
    WarmyDonation { nft_left: 0, ..s }
}

} // verus!
