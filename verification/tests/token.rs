//! The capability-token service, exercised against real keys and tokens:
//! TTL boundaries, wrong roots, truncation, and the admin decisions.

use jornet::admin::{
    new_account_decision, oauth_decision, AdminAccount, NewAccountDecision, OauthDecision,
};
use jornet::ids::UuidBytes;
use jornet::token::{issue, subject_of_rows, verify_at};

const SUBJECT: [u8; 16] = [
    0x93, 0x6d, 0xa0, 0x1f, 0x9a, 0xbd, 0x4d, 0x9d, 0x80, 0xc7, 0x02, 0xaf, 0x85, 0xc8, 0x22, 0xa8,
];

fn subject() -> UuidBytes {
    UuidBytes::from_slice(&SUBJECT).unwrap()
}

#[test]
fn token_verifies_inside_ttl_and_fails_after() {
    let root = biscuit_auth::KeyPair::new();
    let token = issue(&root, &subject(), 600, 0).unwrap();
    let pubkey = root.public();

    let at_zero = verify_at(&token, &pubkey, 0).unwrap();
    assert_eq!(at_zero.bytes(), &SUBJECT);
    let at_599 = verify_at(&token, &pubkey, 599).unwrap();
    assert_eq!(at_599.bytes(), &SUBJECT);
    assert!(verify_at(&token, &pubkey, 601).is_err());
}

#[test]
fn token_fails_against_other_root_key() {
    let root = biscuit_auth::KeyPair::new();
    let token = issue(&root, &subject(), 600, 0).unwrap();
    let other = biscuit_auth::KeyPair::new();
    assert!(verify_at(&token, &other.public(), 0).is_err());
}

#[test]
fn truncated_token_fails() {
    let root = biscuit_auth::KeyPair::new();
    let token = issue(&root, &subject(), 600, 0).unwrap();
    let truncated = &token[..token.len() - 6];
    assert!(verify_at(truncated, &root.public(), 0).is_err());
    assert!(verify_at("", &root.public(), 0).is_err());
}

#[test]
fn token_is_bound_to_its_subject() {
    let root = biscuit_auth::KeyPair::new();
    let other_subject = UuidBytes::from_slice(&[0x07; 16]).unwrap();
    let token = issue(&root, &other_subject, 600, 0).unwrap();
    let got = verify_at(&token, &root.public(), 0).unwrap();
    assert_eq!(got.bytes(), &[0x07; 16]);
    assert_ne!(got.bytes(), &SUBJECT);
}

#[test]
fn issue_refuses_expiry_beyond_calendar() {
    let root = biscuit_auth::KeyPair::new();
    assert!(issue(&root, &subject(), u64::MAX, 1).is_err());
}

#[test]
fn create_biscuit_round_trips_through_validator_path() {
    let root = biscuit_auth::KeyPair::new();
    let account = AdminAccount { id: subject() };
    let token = account.create_biscuit(&root, 600, 1000).unwrap();
    let got = verify_at(&token, &root.public(), 1000).unwrap();
    assert_eq!(got.bytes(), &SUBJECT);
    assert!(verify_at(&token, &root.public(), 1601).is_err());
}

#[test]
fn authority_fact_text_is_canonical() {
    let account = AdminAccount { id: subject() };
    assert_eq!(
        account.as_biscuit_fact(),
        "user(\"936da01f-9abd-4d9d-80c7-02af85c822a8\")"
    );
}

#[test]
fn admin_account_from_fact_value() {
    let ok = AdminAccount::from_fact_value("936da01f-9abd-4d9d-80c7-02af85c822a8").unwrap();
    assert_eq!(ok.id.bytes(), &SUBJECT);
    assert!(AdminAccount::from_fact_value("not-an-id").is_err());
    assert!(AdminAccount::from_fact_value("").is_err());
}

#[test]
fn subject_of_rows_takes_the_first_canonical_row() {
    assert!(subject_of_rows(&Vec::new()).is_err());
    assert!(subject_of_rows(&vec!["bogus".to_string()]).is_err());
    let one = vec!["936da01f-9abd-4d9d-80c7-02af85c822a8".to_string()];
    assert_eq!(subject_of_rows(&one).unwrap().bytes(), &SUBJECT);
    // only the first row decides
    let two = vec![
        "936da01f-9abd-4d9d-80c7-02af85c822a8".to_string(),
        "bogus".to_string(),
    ];
    assert_eq!(subject_of_rows(&two).unwrap().bytes(), &SUBJECT);
}

#[test]
fn new_account_decisions() {
    assert_eq!(new_account_decision(true, true), NewAccountDecision::Reject);
    assert_eq!(new_account_decision(false, true), NewAccountDecision::Reject);
    assert_eq!(
        new_account_decision(false, false),
        NewAccountDecision::CreateThenIssue
    );
    assert_eq!(new_account_decision(true, false), NewAccountDecision::IssueOnly);
}

#[test]
fn oauth_decisions() {
    assert_eq!(oauth_decision(true), OauthDecision::UseLinkedAdmin);
    assert_eq!(oauth_decision(false), OauthDecision::CreateAndLink);
}
