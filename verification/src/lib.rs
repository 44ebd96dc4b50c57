//! A donation ledger that rewards qualifying payments with NFTs drawn
//! from a fixed pool.
//!
//! The ledger accepts donations in a native settlement currency, converts
//! qualifying donations into grants of one numbered NFT drawn from a fixed
//! pool, and lets a single privileged owner withdraw the accumulated funds
//! and any unclaimed NFTs.
//!
//! The contract instance itself runs inside a blockchain host that performs
//! transfers, resolves caller identities, and answers the asynchronous
//! asset-registry calls.  That host is the unverified outside world: every
//! operation here is a pure, verified decision step that takes the host's
//! inputs as plain values and returns a description of the action the host
//! must perform.

pub mod actions;
pub mod claim;
pub mod donation;
pub mod laws;
pub mod mint;
pub mod registry;
pub mod state;
