use crate::actions::MintRequest;
use crate::state::{ContractError, NftBatch, Registration, WarmyDonation};
use vstd::pervasive::unreached;
use vstd::prelude::*;
use vstd::string::{StrSliceExecFns, StringSliceAdditionalSpecFns};

verus! {

/// The fixed attribute payload every NFT of the batch carries: a pointer
/// to the off-chain metadata and the collection's tags.
pub open spec fn nft_attributes_bytes() -> Seq<u8> {
    "metadata:https://ipfs.io/ipfs/QmP5nJecZ9BbsVmXFs9hZ7ZGvL92AtqNdpnyquP2QF1ypd;tags:Beniamin,Elrond,FullMoon,Tolkien,WarmyDonation".spec_bytes()
}

impl WarmyDonation {
    /// Guard for minting: both local roles — creating a batch and adding
    /// quantity to one — must have been granted on the asset class.  The
    /// host reads the granted roles from the registry and hands them in.
    pub fn require_local_roles_set(&self, nft_create_role: bool, nft_add_quantity_role: bool) -> (r:
        Result<(), ContractError>)
        ensures
            r is Ok <==> (nft_create_role && nft_add_quantity_role),
            r matches Err(e) ==> e == ContractError::RolesNotSet,
    {
        if !nft_create_role {
            return Err(ContractError::RolesNotSet);
        }
        if !nft_add_quantity_role {
            return Err(ContractError::RolesNotSet);
        }
        Ok(())
    }

    /// Builds the request to mint one batch of `nft_total` NFTs carrying
    /// the given name, royalties, attribute payload and resource URI.
    ///
    /// Two preconditions guard it, checked in this order: the asset class
    /// must be registered (`TokenNotIssued` otherwise), and both local
    /// roles must be present (`RolesNotSet` otherwise).  Nothing is
    /// mutated here: the host performs the request, and the nonce it
    /// answers with is recorded by [`WarmyDonation::record_nft_creation`].
    pub fn create_nft_with_attributes(
        &self,
        name: Vec<u8>,
        royalties: u128,
        attributes: Vec<u8>,
        uri: Vec<u8>,
        nft_create_role: bool,
        nft_add_quantity_role: bool,
    ) -> (r: Result<MintRequest, ContractError>)
        ensures
            !(self.registration is Registered) ==> ({
                &&& r matches Err(e)
                &&& e == ContractError::TokenNotIssued
            }),
            (self.registration is Registered && !(nft_create_role && nft_add_quantity_role))
                ==> ({
                &&& r matches Err(e)
                &&& e == ContractError::RolesNotSet
            }),
            (self.registration is Registered && nft_create_role && nft_add_quantity_role) ==> ({
                &&& r matches Ok(q)
                &&& q.token_id == self.token_id()
                &&& q.amount == self.nft_total
                &&& q.name@ == name@
                &&& q.royalties == royalties
                &&& q.attributes@ == attributes@
                &&& q.uri@ == uri@
            }),
    {
        self.require_token_issued()?;
        self.require_local_roles_set(nft_create_role, nft_add_quantity_role)?;
        let token_id: u64 = match self.registration {
            Registration::Registered { token_id } => token_id,
            _ => unreached(),
        };
        Ok(
            MintRequest {
                token_id,
                amount: self.nft_total,
                name,
                royalties,
                attributes,
                uri,
            },
        )
    }

    /// Owner-only one-time minting of the NFT batch: builds the request
    /// to mint the whole pool under `name` and `uri`, with no royalties
    /// and with the fixed attribute payload, whose digest the host
    /// attaches as provenance.
    ///
    /// Rejections, in order: `Unauthorized` for a caller other than the
    /// owner, `AlreadyMinted` once a batch exists (the batch is created
    /// exactly once), then the two guards of
    /// [`WarmyDonation::create_nft_with_attributes`].
    pub fn create_nft(
        &self,
        caller: u64,
        name: Vec<u8>,
        uri: Vec<u8>,
        nft_create_role: bool,
        nft_add_quantity_role: bool,
    ) -> (r: Result<MintRequest, ContractError>)
        ensures
            caller != self.owner ==> ({
                &&& r matches Err(e)
                &&& e == ContractError::Unauthorized
            }),
            (caller == self.owner && self.nft_created()) ==> ({
                &&& r matches Err(e)
                &&& e == ContractError::AlreadyMinted
            }),
            (caller == self.owner && !self.nft_created() && !(self.registration is Registered))
                ==> ({
                &&& r matches Err(e)
                &&& e == ContractError::TokenNotIssued
            }),
            (caller == self.owner && !self.nft_created() && self.registration is Registered
                && !(nft_create_role && nft_add_quantity_role)) ==> ({
                &&& r matches Err(e)
                &&& e == ContractError::RolesNotSet
            }),
            (caller == self.owner && !self.nft_created() && self.registration is Registered
                && nft_create_role && nft_add_quantity_role) ==> ({
                &&& r matches Ok(q)
                &&& q.token_id == self.token_id()
                &&& q.amount == self.nft_total
                &&& q.name@ == name@
                &&& q.royalties == 0
                &&& q.attributes@ == nft_attributes_bytes()
                &&& q.uri@ == uri@
            }),
    {
        if caller != self.owner {
            return Err(ContractError::Unauthorized);
        }
        if self.batch.is_some() {
            return Err(ContractError::AlreadyMinted);
        }
        let attributes =
            "metadata:https://ipfs.io/ipfs/QmP5nJecZ9BbsVmXFs9hZ7ZGvL92AtqNdpnyquP2QF1ypd;tags:Beniamin,Elrond,FullMoon,Tolkien,WarmyDonation".as_bytes_vec();
        self.create_nft_with_attributes(
            name,
            0,
            attributes,
            uri,
            nft_create_role,
            nft_add_quantity_role,
        )
    }

    /// Records the outcome of a performed mint request, completing the
    /// one-time minting step within the same invocation: the batch now
    /// exists under the host-assigned `nonce`, tagged with the digest the
    /// host computed over the attribute payload, the whole pool is
    /// available and nothing has been granted yet.  The funds counter and
    /// the registration are untouched.
    pub fn record_nft_creation(
        &mut self,
        nonce: u64,
        provenance_hash: Vec<u8>,
        resource_uri: Vec<u8>,
    )
        requires
            old(self).wf(),
            old(self).registration is Registered,
            !old(self).nft_created(),
        ensures
            final(self).wf(),
            *final(self) == (WarmyDonation {
                nft_bought: 0,
                nft_left: old(self).nft_total,
                batch: Some(NftBatch { nonce, provenance_hash, resource_uri }),
                ..*old(self)
            }),
            final(self).nft_created(),
            final(self).nft_left == old(self).nft_total,
            final(self).nft_bought == 0,
            final(self).nft_nonce() == nonce,
    {
        self.nft_bought = 0;
        self.nft_left = self.nft_total;
        self.batch = Some(NftBatch { nonce, provenance_hash, resource_uri });
    }
}

} // verus!
