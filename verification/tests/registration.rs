use warmy_donation::actions::{IssueOutcome, LocalRole};
use warmy_donation::state::{ContractError, Registration, WarmyDonation};

const OWNER: u64 = 1001;
const STRANGER: u64 = 2002;
const TOKEN_ID: u64 = 42;

fn registered_contract(total: u32) -> WarmyDonation {
    let mut s = WarmyDonation::init(OWNER, total);
    s.issue_token(OWNER, 50, b"Warmy".to_vec(), b"WARMY".to_vec())
        .unwrap();
    s.issue_callback(IssueOutcome::Success { token_id: TOKEN_ID });
    s
}

#[test]
fn issue_token_request_contents() {
    let mut s = WarmyDonation::init(OWNER, 1000);
    let q = s
        .issue_token(OWNER, 50, b"Warmy".to_vec(), b"WARMY".to_vec())
        .unwrap();
    assert_eq!(q.fee, 50);
    assert_eq!(q.name, b"Warmy".to_vec());
    assert_eq!(q.ticker, b"WARMY".to_vec());
    assert!(!q.can_freeze);
    assert!(!q.can_wipe);
    assert!(!q.can_pause);
    assert!(!q.can_change_owner);
    assert!(q.can_upgrade);
    assert!(q.can_add_special_roles);
    assert_eq!(s.registration, Registration::Pending);
}

#[test]
fn issue_token_by_non_owner_fails_unauthorized() {
    let mut s = WarmyDonation::init(OWNER, 1000);
    let r = s.issue_token(STRANGER, 50, b"Warmy".to_vec(), b"WARMY".to_vec());
    assert_eq!(r.unwrap_err(), ContractError::Unauthorized);
    assert_eq!(s.registration, Registration::Unregistered);
}

#[test]
fn issue_token_twice_fails_already_registered() {
    let mut s = WarmyDonation::init(OWNER, 1000);
    s.issue_token(OWNER, 50, b"Warmy".to_vec(), b"WARMY".to_vec())
        .unwrap();
    let while_pending = s.issue_token(OWNER, 50, b"Warmy".to_vec(), b"WARMY".to_vec());
    assert_eq!(while_pending.unwrap_err(), ContractError::AlreadyRegistered);
    s.issue_callback(IssueOutcome::Success { token_id: TOKEN_ID });
    let when_registered = s.issue_token(OWNER, 50, b"Warmy".to_vec(), b"WARMY".to_vec());
    assert_eq!(when_registered.unwrap_err(), ContractError::AlreadyRegistered);
    assert_eq!(s.registration, Registration::Registered { token_id: TOKEN_ID });
}

#[test]
fn issue_callback_success_sets_token_id() {
    let mut s = WarmyDonation::init(OWNER, 1000);
    s.issue_token(OWNER, 50, b"Warmy".to_vec(), b"WARMY".to_vec())
        .unwrap();
    let refund = s.issue_callback(IssueOutcome::Success { token_id: TOKEN_ID });
    assert!(refund.is_none());
    assert_eq!(s.registration, Registration::Registered { token_id: TOKEN_ID });
}

#[test]
fn issue_callback_failure_refunds_matching_payment() {
    let mut s = WarmyDonation::init(OWNER, 1000);
    s.issue_token(OWNER, 50, b"Warmy".to_vec(), b"WARMY".to_vec())
        .unwrap();
    let refund = s
        .issue_callback(IssueOutcome::Failure {
            returned_amount: 50,
            in_settlement_currency: true,
        })
        .unwrap();
    assert_eq!(refund.recipient, OWNER);
    assert_eq!(refund.amount, 50);
    assert_eq!(s.registration, Registration::Unregistered);
}

#[test]
fn issue_callback_failure_keeps_other_payloads() {
    let mut s = WarmyDonation::init(OWNER, 1000);
    s.issue_token(OWNER, 50, b"Warmy".to_vec(), b"WARMY".to_vec())
        .unwrap();
    let no_refund = s.issue_callback(IssueOutcome::Failure {
        returned_amount: 0,
        in_settlement_currency: true,
    });
    assert!(no_refund.is_none());
    assert_eq!(s.registration, Registration::Unregistered);

    s.issue_token(OWNER, 50, b"Warmy".to_vec(), b"WARMY".to_vec())
        .unwrap();
    let wrong_currency = s.issue_callback(IssueOutcome::Failure {
        returned_amount: 50,
        in_settlement_currency: false,
    });
    assert!(wrong_currency.is_none());
    assert_eq!(s.registration, Registration::Unregistered);
}

#[test]
fn set_local_roles_request_contents() {
    let s = registered_contract(1000);
    let q = s.set_local_roles(OWNER).unwrap();
    assert_eq!(q.token_id, TOKEN_ID);
    assert_eq!(q.roles, vec![LocalRole::NftCreate, LocalRole::NftAddQuantity]);
}

#[test]
fn set_local_roles_before_issue_fails_token_not_issued() {
    let s = WarmyDonation::init(OWNER, 1000);
    let r = s.set_local_roles(OWNER);
    assert_eq!(r.unwrap_err(), ContractError::TokenNotIssued);
    let by_stranger = s.set_local_roles(STRANGER);
    assert_eq!(by_stranger.unwrap_err(), ContractError::Unauthorized);
}

#[test]
fn mint_before_registration_fails_token_not_issued() {
    let s = WarmyDonation::init(OWNER, 1000);
    let r = s.create_nft(OWNER, b"Warmy".to_vec(), b"ipfs://warmy".to_vec(), true, true);
    assert_eq!(r.unwrap_err(), ContractError::TokenNotIssued);
}

#[test]
fn mint_while_pending_fails_token_not_issued() {
    let mut s = WarmyDonation::init(OWNER, 1000);
    s.issue_token(OWNER, 50, b"Warmy".to_vec(), b"WARMY".to_vec())
        .unwrap();
    let r = s.create_nft(OWNER, b"Warmy".to_vec(), b"ipfs://warmy".to_vec(), true, true);
    assert_eq!(r.unwrap_err(), ContractError::TokenNotIssued);
}

#[test]
fn mint_without_roles_fails_roles_not_set() {
    let s = registered_contract(1000);
    for (create, add) in [(false, false), (true, false), (false, true)] {
        let r = s.create_nft(OWNER, b"Warmy".to_vec(), b"ipfs://warmy".to_vec(), create, add);
        assert_eq!(r.unwrap_err(), ContractError::RolesNotSet);
    }
}

#[test]
fn mint_by_non_owner_fails_unauthorized() {
    let s = registered_contract(1000);
    let r = s.create_nft(STRANGER, b"Warmy".to_vec(), b"ipfs://warmy".to_vec(), true, true);
    assert_eq!(r.unwrap_err(), ContractError::Unauthorized);
}

#[test]
fn mint_request_contents() {
    let s = registered_contract(777);
    let q = s
        .create_nft(OWNER, b"Warmy".to_vec(), b"ipfs://warmy".to_vec(), true, true)
        .unwrap();
    assert_eq!(q.token_id, TOKEN_ID);
    assert_eq!(q.amount, 777);
    assert_eq!(q.name, b"Warmy".to_vec());
    assert_eq!(q.royalties, 0);
    assert_eq!(
        q.attributes,
        b"metadata:https://ipfs.io/ipfs/QmP5nJecZ9BbsVmXFs9hZ7ZGvL92AtqNdpnyquP2QF1ypd;tags:Beniamin,Elrond,FullMoon,Tolkien,WarmyDonation".to_vec()
    );
    assert_eq!(q.uri, b"ipfs://warmy".to_vec());
}

#[test]
fn mint_completion_fills_the_pool() {
    let mut s = registered_contract(777);
    s.create_nft(OWNER, b"Warmy".to_vec(), b"ipfs://warmy".to_vec(), true, true)
        .unwrap();
    s.record_nft_creation(9, vec![0x11u8; 32], b"ipfs://warmy".to_vec());
    assert_eq!(s.nft_left, 777);
    assert_eq!(s.nft_bought, 0);
    let batch = s.batch.as_ref().unwrap();
    assert_eq!(batch.nonce, 9);
    assert_eq!(batch.provenance_hash, vec![0x11u8; 32]);
    assert_eq!(batch.resource_uri, b"ipfs://warmy".to_vec());
}

#[test]
fn mint_twice_fails_already_minted() {
    let mut s = registered_contract(1000);
    s.create_nft(OWNER, b"Warmy".to_vec(), b"ipfs://warmy".to_vec(), true, true)
        .unwrap();
    s.record_nft_creation(9, vec![0x11u8; 32], b"ipfs://warmy".to_vec());
    let r = s.create_nft(OWNER, b"Warmy".to_vec(), b"ipfs://warmy".to_vec(), true, true);
    assert_eq!(r.unwrap_err(), ContractError::AlreadyMinted);
}

#[test]
fn role_guards_answer_directly() {
    let s = registered_contract(1000);
    assert!(s.require_token_issued().is_ok());
    assert!(s.require_local_roles_set(true, true).is_ok());
    assert_eq!(
        s.require_local_roles_set(true, false).unwrap_err(),
        ContractError::RolesNotSet
    );
    let fresh = WarmyDonation::init(OWNER, 1000);
    assert_eq!(
        fresh.require_token_issued().unwrap_err(),
        ContractError::TokenNotIssued
    );
}
