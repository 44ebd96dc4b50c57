use crate::state::{spec_claim_funds, WarmyDonation};
use vstd::prelude::*;

verus! {

/// Law: a full withdrawal by the owner clears the funds counter, leaves
/// the ledger well-formed, and leaves it unchanged when repeated.  Since
/// [`WarmyDonation::claim`](crate::claim) also promises the owner success
/// on every well-formed ledger and a transfer of exactly the balance
/// handed in, an immediate second claim is accepted and transfers the
/// zero that is left.
pub proof fn lemma_claim_funds_idempotent(s: WarmyDonation)
    requires
        s.wf(),
    ensures
        spec_claim_funds(s).amount_raised == 0,
        spec_claim_funds(s).wf(),
        spec_claim_funds(spec_claim_funds(s)) == spec_claim_funds(s),
{
}

} // verus!
