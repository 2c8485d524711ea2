use tors_auth::account::{
    check_registration_input, finish_registration, prepare_registration, Account, InsertOutcome,
    ACCOUNT_ID_LEN,
};
use tors_auth::error::AuthError;
use tors_auth::keys::{KeyManager, SECRET_LEN};
use tors_auth::password::{PasswordHasher, DEFAULT_COST, HASH_TEXT_LEN};
use tors_auth::store::AccountTable;
use tors_auth::token::{generate_auth_token, judge_claims, TokenService, DEFAULT_TOKEN_LIFETIME};

fn fast_hasher() -> PasswordHasher {
    PasswordHasher::with_cost(4).unwrap()
}

fn fresh_keys() -> KeyManager {
    let (m, row) = KeyManager::initialize(None).unwrap();
    assert!(row.is_some());
    m
}

fn flip_first_signature_char(token: &str) -> String {
    let cut = token.rfind('.').unwrap() + 1;
    let alphabet: Vec<char> =
        "ABCDEFGHIJKLMNOPQRSTUVWXYZabcdefghijklmnopqrstuvwxyz0123456789-_".chars().collect();
    let mut chars: Vec<char> = token.chars().collect();
    let pos = alphabet.iter().position(|c| *c == chars[cut]).unwrap();
    // Neighbouring symbols differ in the lowest bit of their six-bit value.
    chars[cut] = alphabet[pos ^ 1];
    chars.into_iter().collect()
}

#[test]
fn client_and_internal_errors() {
    assert!(AuthError::InvalidInput.is_client_error());
    assert!(AuthError::Conflict.is_client_error());
    assert!(AuthError::InvalidToken.is_client_error());
    assert!(AuthError::Expired.is_client_error());
    assert!(!AuthError::HashingFailure.is_client_error());
    assert!(!AuthError::StorageUnavailable.is_client_error());
}

#[test]
fn hasher_cost_bounds() {
    assert!(PasswordHasher::with_cost(3).is_none());
    assert!(PasswordHasher::with_cost(32).is_none());
    assert_eq!(PasswordHasher::with_cost(4).unwrap().cost(), 4);
    assert_eq!(PasswordHasher::with_cost(31).unwrap().cost(), 31);
    assert_eq!(PasswordHasher::new().cost(), DEFAULT_COST);
    assert_eq!(DEFAULT_COST, 12);
}

#[test]
fn hash_then_verify_accepts_same_password() {
    let h = fast_hasher();
    let stored = h.hash("secret123").unwrap();
    assert_eq!(stored.len(), HASH_TEXT_LEN);
    assert!(stored.starts_with("$2b$04$"));
    assert_eq!(h.verify("secret123", &stored), Ok(true));
}

#[test]
fn verify_rejects_other_password() {
    let h = fast_hasher();
    let stored = h.hash("secret123").unwrap();
    assert_eq!(h.verify("secret124", &stored), Ok(false));
    assert_eq!(h.verify("", &stored), Ok(false));
    assert_eq!(h.verify("Secret123", &stored), Ok(false));
}

#[test]
fn hashing_twice_differs_yet_both_verify() {
    let h = fast_hasher();
    let a = h.hash("secret123").unwrap();
    let b = h.hash("secret123").unwrap();
    assert_ne!(a, b);
    assert_eq!(h.verify("secret123", &a), Ok(true));
    assert_eq!(h.verify("secret123", &b), Ok(true));
}

#[test]
fn hash_accepts_empty_and_long_passwords() {
    let h = fast_hasher();
    let empty = h.hash("").unwrap();
    assert_eq!(h.verify("", &empty), Ok(true));
    let long: String = std::iter::repeat('x').take(200).collect();
    let stored = h.hash(&long).unwrap();
    assert_eq!(h.verify(&long, &stored), Ok(true));
}

#[test]
fn verify_malformed_hash_is_hashing_failure() {
    let h = fast_hasher();
    assert_eq!(h.verify("secret123", "not a hash"), Err(AuthError::HashingFailure));
    assert_eq!(h.verify("secret123", ""), Err(AuthError::HashingFailure));
}

#[test]
fn initialize_generates_then_loads_unchanged() {
    let (first, row) = KeyManager::initialize(None).unwrap();
    let row = row.unwrap();
    assert_eq!(row.len(), SECRET_LEN);
    let (second, again) = KeyManager::initialize(Some(row.clone())).unwrap();
    assert!(again.is_none());
    // The same key: a token from one manager validates under the other.
    let t1 = TokenService::new(first, DEFAULT_TOKEN_LIFETIME).unwrap();
    let t2 = TokenService::new(second, DEFAULT_TOKEN_LIFETIME).unwrap();
    let token = t1.issue("acct", 1000);
    assert_eq!(t2.validate(&token, 1000), Ok("acct".to_string()));
    assert_eq!(t1.issue("acct", 1000), t2.issue("acct", 1000));
}

#[test]
fn two_generated_keys_differ() {
    let (_a, ra) = KeyManager::initialize(None).unwrap();
    let (_b, rb) = KeyManager::initialize(None).unwrap();
    assert_ne!(ra.unwrap(), rb.unwrap());
}

#[test]
fn validate_after_issue_returns_account_id() {
    let svc = TokenService::new(fresh_keys(), DEFAULT_TOKEN_LIFETIME).unwrap();
    let token = svc.issue("account-a", 5000);
    assert_eq!(token.split('.').count(), 3);
    assert_eq!(svc.validate(&token, 5000), Ok("account-a".to_string()));
    assert_eq!(svc.validate(&token, 5000 + DEFAULT_TOKEN_LIFETIME), Ok("account-a".to_string()));
}

#[test]
fn validate_past_expiry_is_expired() {
    let svc = TokenService::new(fresh_keys(), 60).unwrap();
    let token = svc.issue("account-a", 100);
    assert_eq!(svc.validate(&token, 160), Ok("account-a".to_string()));
    assert_eq!(svc.validate(&token, 161), Err(AuthError::Expired));
    assert_eq!(svc.validate(&token, u64::MAX), Err(AuthError::Expired));
}

#[test]
fn flipped_signature_bit_is_invalid_token() {
    let svc = TokenService::new(fresh_keys(), DEFAULT_TOKEN_LIFETIME).unwrap();
    let token = svc.issue("account-a", 100);
    let bad = flip_first_signature_char(&token);
    assert_ne!(bad, token);
    assert_eq!(svc.validate(&bad, 100), Err(AuthError::InvalidToken));
    assert_eq!(svc.validate(&bad, 100_000), Err(AuthError::InvalidToken));
}

#[test]
fn malformed_or_foreign_token_is_invalid() {
    let svc = TokenService::new(fresh_keys(), DEFAULT_TOKEN_LIFETIME).unwrap();
    let other = TokenService::new(fresh_keys(), DEFAULT_TOKEN_LIFETIME).unwrap();
    assert_eq!(svc.validate("", 0), Err(AuthError::InvalidToken));
    assert_eq!(svc.validate("a.b.c", 0), Err(AuthError::InvalidToken));
    let foreign = other.issue("account-a", 0);
    assert_eq!(svc.validate(&foreign, 0), Err(AuthError::InvalidToken));
}

#[test]
fn issue_validate_then_expire_scenario() {
    let mut table = AccountTable::new();
    let a = table.register(&fast_hasher(), "alice", "secret123").unwrap();
    let svc = TokenService::new(fresh_keys(), 30).unwrap();
    let token = svc.issue(&a.id, 1_000);
    assert_eq!(svc.validate(&token, 1_000), Ok(a.id.clone()));
    assert_eq!(svc.validate(&token, 1_031), Err(AuthError::Expired));
}

#[test]
fn expiry_saturates() {
    let svc = TokenService::new(fresh_keys(), 10).unwrap();
    assert_eq!(svc.lifetime(), 10);
    assert_eq!(svc.expiry_for(5), 15);
    assert_eq!(svc.expiry_for(u64::MAX - 3), u64::MAX);
    let token = svc.issue("x", u64::MAX - 3);
    assert_eq!(svc.validate(&token, u64::MAX), Ok("x".to_string()));
}

#[test]
fn judge_claims_cases() {
    assert_eq!(judge_claims(None, 0), Err(AuthError::InvalidToken));
    assert_eq!(judge_claims(Some(("id".to_string(), 1, 10)), 10), Ok("id".to_string()));
    assert_eq!(judge_claims(Some(("id".to_string(), 1, 10)), 11), Err(AuthError::Expired));
    assert_eq!(judge_claims(Some(("id".to_string(), 1, 10)), 0), Ok("id".to_string()));
}

#[test]
fn register_scenario_alice_bob() {
    let h = fast_hasher();
    let mut table = AccountTable::new();
    let a = table.register(&h, "alice", "secret123").unwrap();
    assert_eq!(a.username, "alice");
    assert_eq!(a.id.len(), ACCOUNT_ID_LEN);
    assert_eq!(a.id.as_bytes()[14], b'4');
    assert!(matches!(a.id.as_bytes()[19], b'8' | b'9' | b'a' | b'b'));
    assert_eq!(a.id.matches('-').count(), 4);
    let again = table.register(&h, "alice", "other");
    assert_eq!(again.unwrap_err(), AuthError::Conflict);
    let b = table.register(&h, "bob", "secret123").unwrap();
    assert_ne!(a.id, b.id);
    assert_eq!(table.len(), 2);
    let stored = table.password_hash_of("alice").unwrap();
    assert_eq!(h.verify("secret123", &stored), Ok(true));
    assert_eq!(h.verify("other", &stored), Ok(false));
}

#[test]
fn register_same_username_repeatedly_conflicts() {
    let h = fast_hasher();
    let mut table = AccountTable::new();
    assert!(table.register(&h, "carol", "pw").is_ok());
    for p in ["pw", "pw2", "x"] {
        assert_eq!(table.register(&h, "carol", p).unwrap_err(), AuthError::Conflict);
    }
    assert_eq!(table.len(), 1);
}

#[test]
fn register_rejects_empty_fields() {
    let h = fast_hasher();
    let mut table = AccountTable::new();
    assert_eq!(table.register(&h, "", "pw").unwrap_err(), AuthError::InvalidInput);
    assert_eq!(table.register(&h, "dave", "").unwrap_err(), AuthError::InvalidInput);
    assert_eq!(table.len(), 0);
    assert!(!table.username_exists("dave"));
    assert_eq!(check_registration_input("", ""), Err(AuthError::InvalidInput));
    assert_eq!(check_registration_input("a", "b"), Ok(()));
}

#[test]
fn prepare_registration_cases() {
    let h = fast_hasher();
    assert_eq!(prepare_registration(&h, "erin", "pw", true).unwrap_err(), AuthError::Conflict);
    assert_eq!(prepare_registration(&h, "", "pw", true).unwrap_err(), AuthError::InvalidInput);
    let (a, c) = prepare_registration(&h, "erin", "pw", false).unwrap();
    assert_eq!(a.username, "erin");
    assert_eq!(a.id, c.account_id);
    assert_eq!(h.verify("pw", &c.password_hash), Ok(true));
}

#[test]
fn finish_registration_cases() {
    let acct = Account { id: "i".to_string(), username: "u".to_string() };
    let ok = finish_registration(acct.clone(), InsertOutcome::Inserted).unwrap();
    assert_eq!(ok.id, "i");
    assert_eq!(ok.username, "u");
    assert_eq!(
        finish_registration(acct.clone(), InsertOutcome::UniqueViolation).unwrap_err(),
        AuthError::Conflict
    );
    assert_eq!(
        finish_registration(acct, InsertOutcome::Unavailable).unwrap_err(),
        AuthError::StorageUnavailable
    );
}

#[test]
fn insert_rejects_duplicate_username_or_id() {
    let h = fast_hasher();
    let mut table = AccountTable::new();
    let (a, c) = prepare_registration(&h, "frank", "pw", false).unwrap();
    let same_id = Account { id: a.id.clone(), username: "gina".to_string() };
    let same_id_cred = c.clone();
    let dup_name = Account { id: "other-id".to_string(), username: "frank".to_string() };
    let mut dup_cred = c.clone();
    dup_cred.account_id = "other-id".to_string();
    assert_eq!(table.insert_account_and_credential(a, c), InsertOutcome::Inserted);
    assert_eq!(table.insert_account_and_credential(same_id, same_id_cred), InsertOutcome::UniqueViolation);
    assert_eq!(table.insert_account_and_credential(dup_name, dup_cred), InsertOutcome::UniqueViolation);
    assert_eq!(table.len(), 1);
    assert!(table.username_exists("frank"));
    assert!(!table.username_exists("gina"));
}

#[test]
fn generate_auth_token_matches_issue() {
    let (keys, row) = KeyManager::initialize(None).unwrap();
    let (same, _) = KeyManager::initialize(row).unwrap();
    let direct = generate_auth_token(&keys, "acct-9", 10, 20);
    let svc = TokenService::new(same, 10).unwrap();
    assert_eq!(svc.issue("acct-9", 10), direct);
    assert_eq!(svc.validate(&direct, 20), Ok("acct-9".to_string()));
    assert_eq!(svc.validate(&direct, 21), Err(AuthError::Expired));
}

#[test]
fn zero_lifetime_is_refused() {
    assert!(TokenService::new(fresh_keys(), 0).is_none());
    assert!(TokenService::new(fresh_keys(), 1).is_some());
}

#[test]
fn passwords_sharing_a_long_prefix_are_told_apart() {
    let h = fast_hasher();
    let prefix: String = std::iter::repeat('x').take(72).collect();
    let p1 = format!("{}one", prefix);
    let p2 = format!("{}two", prefix);
    let stored = h.hash(&p1).unwrap();
    assert_eq!(h.verify(&p1, &stored), Ok(true));
    assert_eq!(h.verify(&p2, &stored), Ok(false));
    assert_eq!(h.verify(&prefix, &stored), Ok(false));
}

#[test]
fn stored_hash_names_scheme_and_cost() {
    let h = PasswordHasher::with_cost(5).unwrap();
    let stored = h.hash("pw").unwrap();
    assert!(stored.starts_with("$2b$05$"));
    let (a, c) = prepare_registration(&h, "hank", "pw", false).unwrap();
    assert!(c.password_hash.starts_with("$2b$05$"));
    assert_eq!(a.id.len(), ACCOUNT_ID_LEN);
}
