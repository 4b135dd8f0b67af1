//! The one-time-code lifecycle and the security context.

use resto_core::auth_code::AuthCode;
use resto_core::claims::Claims;
use resto_core::context::{context_factory, redeem, Context, CODE_TTL_SECONDS};
use resto_core::errors::AuthError;
use resto_core::roles::Roles;
use resto_core::store::CredentialStore;
use resto_core::token::issue_session_token;

const SECRET: &[u8] = b"process-wide-signing-secret";

fn customer_record(subject: &str) -> String {
    AuthCode { client_id: subject.to_string(), role: Roles::Customer }.encode()
}

#[test]
fn issued_code_redeems_once_then_fails() {
    let mut store = CredentialStore::new();
    let now = 1_000;
    store.set(482913, customer_record("cust-001"), CODE_TTL_SECONDS, now);

    let first = redeem(&mut store, 482913, now + 1).unwrap();
    assert_eq!(first.client_id, "cust-001");
    assert_eq!(first.role, Roles::Customer);

    let second = redeem(&mut store, 482913, now + 2);
    assert_eq!(second.unwrap_err(), AuthError::CodeInvalid);
}

#[test]
fn exactly_one_of_two_redemptions_succeeds() {
    // Two redemptions of one still-valid code serialize through the
    // store's atomic get-and-delete; count the successes over the
    // interleaving.
    let mut store = CredentialStore::new();
    store.set(111222, customer_record("cust-002"), CODE_TTL_SECONDS, 0);
    let outcomes = [redeem(&mut store, 111222, 1), redeem(&mut store, 111222, 1)];
    let successes = outcomes.iter().filter(|r| r.is_ok()).count();
    assert_eq!(successes, 1);
    let failures: Vec<_> = outcomes.iter().filter_map(|r| r.as_ref().err()).collect();
    assert_eq!(failures, [&AuthError::CodeInvalid]);
}

#[test]
fn expired_code_is_indistinguishable_from_never_issued() {
    let mut store = CredentialStore::new();
    let now = 1_000;
    store.set(333444, customer_record("cust-003"), CODE_TTL_SECONDS, now);

    let expired = redeem(&mut store, 333444, now + CODE_TTL_SECONDS);
    let never_issued = redeem(&mut store, 999000, now + CODE_TTL_SECONDS);
    assert_eq!(expired.unwrap_err(), AuthError::CodeInvalid);
    assert_eq!(never_issued.unwrap_err(), AuthError::CodeInvalid);
}

#[test]
fn code_still_redeems_just_before_expiry() {
    let mut store = CredentialStore::new();
    let now = 1_000;
    store.set(555666, customer_record("cust-004"), CODE_TTL_SECONDS, now);
    let r = redeem(&mut store, 555666, now + CODE_TTL_SECONDS - 1).unwrap();
    assert_eq!(r.client_id, "cust-004");
}

#[test]
fn corrupt_stored_value_is_a_fatal_integrity_error() {
    let mut store = CredentialStore::new();
    store.set(777888, "not a record".to_string(), CODE_TTL_SECONDS, 0);
    let r = redeem(&mut store, 777888, 1);
    assert_eq!(r.unwrap_err(), AuthError::CorruptRecord);
}

#[test]
fn auth_code_wire_form_round_trips() {
    for role in [Roles::Admin, Roles::Customer, Roles::Partner] {
        let record = AuthCode { client_id: "id-123".to_string(), role };
        let decoded = AuthCode::decode(&record.encode()).unwrap();
        assert_eq!(decoded.client_id, "id-123");
        assert_eq!(decoded.role, role);
    }
    assert_eq!(AuthCode::decode("").unwrap_err(), AuthError::CorruptRecord);
    assert_eq!(AuthCode::decode("garbage").unwrap_err(), AuthError::CorruptRecord);
    assert_eq!(AuthCode::decode("X:abc").unwrap_err(), AuthError::CorruptRecord);
    let empty_subject = AuthCode::decode("A:").unwrap();
    assert_eq!(empty_subject.client_id, "");
    assert_eq!(empty_subject.role, Roles::Admin);
}

#[test]
fn authenticate_exchanges_code_for_token_once() {
    let mut store = CredentialStore::new();
    let now = 1_000;
    store.set(482913, customer_record("cust-001"), CODE_TTL_SECONDS, now);

    let anonymous = Context { claims: None };
    let token = anonymous.authenticate(&mut store, 482913, now + 1, SECRET).unwrap();
    let ctx = context_factory(Some(&token), SECRET, now + 2);
    let claims = ctx.claims.as_ref().unwrap();
    assert_eq!(claims.sub, "cust-001");
    assert_eq!(claims.role, Roles::Customer);

    let again = anonymous.authenticate(&mut store, 482913, now + 3, SECRET);
    assert_eq!(again.unwrap_err(), AuthError::CodeInvalid);
}

#[test]
fn authorization_gates_on_exact_role() {
    let roles = [Roles::Admin, Roles::Customer, Roles::Partner];
    for held in roles {
        let ctx = Context {
            claims: Some(Claims {
                sub: "subject".to_string(),
                company: "RRMDN".to_string(),
                exp: 10_000,
                role: held,
            }),
        };
        for required in roles {
            let r = ctx.authorize(required);
            if held == required {
                assert!(r.is_ok());
            } else {
                assert_eq!(r.unwrap_err(), AuthError::Unauthorized);
            }
        }
    }
    let anonymous = Context { claims: None };
    for required in roles {
        assert_eq!(anonymous.authorize(required).unwrap_err(), AuthError::Unauthenticated);
    }
}

#[test]
fn context_without_credential_is_anonymous() {
    let ctx = context_factory(None, SECRET, 0);
    assert!(ctx.claims.is_none());
    assert_eq!(ctx.authorize(Roles::Partner).unwrap_err(), AuthError::Unauthenticated);
    assert_eq!(ctx.get_client_id().unwrap_err(), AuthError::Unauthenticated);
}

#[test]
fn customer_context_is_not_a_partner() {
    let now = 1_000;
    let token = issue_session_token("cust-001", Roles::Customer, now, SECRET).unwrap();
    let ctx = context_factory(Some(&token), SECRET, now + 1);
    assert_eq!(ctx.authorize(Roles::Partner).unwrap_err(), AuthError::Unauthorized);
    assert!(ctx.authorize(Roles::Customer).is_ok());
    assert_eq!(ctx.get_client_id().unwrap().as_str(), "cust-001");
}

#[test]
fn invalid_credential_downgrades_to_anonymous() {
    let ctx = context_factory(Some("not-a-token"), SECRET, 0);
    assert!(ctx.claims.is_none());
    let now = 1_000;
    let token = issue_session_token("cust-001", Roles::Customer, now, SECRET).unwrap();
    let expired = context_factory(Some(&token), SECRET, now + 60 * 60 * 24 + 1);
    assert!(expired.claims.is_none());
    let wrong_secret = context_factory(Some(&token), b"other", now + 1);
    assert!(wrong_secret.claims.is_none());
}

#[test]
fn partner_restaurant_lookup_distinguishes_every_failure() {
    let partner_ctx = Context {
        claims: Some(Claims {
            sub: "partner-1".to_string(),
            company: "RRMDN".to_string(),
            exp: 10_000,
            role: Roles::Partner,
        }),
    };
    let found = partner_ctx.get_partner_restaurant_id(Some("resto-9".to_string()));
    assert_eq!(found.unwrap(), "resto-9");
    let stale = partner_ctx.get_partner_restaurant_id(None);
    assert_eq!(stale.unwrap_err(), AuthError::NotFound);

    let customer_ctx = Context {
        claims: Some(Claims {
            sub: "cust-1".to_string(),
            company: "RRMDN".to_string(),
            exp: 10_000,
            role: Roles::Customer,
        }),
    };
    let wrong_role = customer_ctx.get_partner_restaurant_id(Some("resto-9".to_string()));
    assert_eq!(wrong_role.unwrap_err(), AuthError::Unauthorized);

    let anonymous = Context { claims: None };
    let unauthenticated = anonymous.get_partner_restaurant_id(Some("resto-9".to_string()));
    assert_eq!(unauthenticated.unwrap_err(), AuthError::Unauthenticated);
}

#[test]
fn requesting_a_code_stores_it_for_the_found_customer() {
    let mut store = CredentialStore::new();
    let ctx = Context { claims: None };
    let now = 1_000;
    let code = ctx
        .request_customer_auth(&mut store, Some("cust-007".to_string()), Roles::Customer, now)
        .unwrap();
    assert!((100000..=999999).contains(&code));
    let redeemed = redeem(&mut store, code, now + 1).unwrap();
    assert_eq!(redeemed.client_id, "cust-007");
    assert_eq!(redeemed.role, Roles::Customer);
}

#[test]
fn requested_code_expires_after_its_ttl() {
    let mut store = CredentialStore::new();
    let ctx = Context { claims: None };
    let now = 1_000;
    let code = ctx
        .request_customer_auth(&mut store, Some("cust-008".to_string()), Roles::Customer, now)
        .unwrap();
    let r = redeem(&mut store, code, now + CODE_TTL_SECONDS);
    assert_eq!(r.unwrap_err(), AuthError::CodeInvalid);
}

#[test]
fn requesting_a_code_for_an_unknown_contact_is_not_found() {
    let mut store = CredentialStore::new();
    let ctx = Context { claims: None };
    let r = ctx.request_customer_auth(&mut store, None, Roles::Customer, 1_000);
    assert_eq!(r.unwrap_err(), AuthError::NotFound);
    assert!(store.get(100000, 1_000).is_none());
}

#[test]
fn reissuing_overwrites_the_older_pending_code() {
    let mut store = CredentialStore::new();
    store.set(121212, customer_record("cust-old"), CODE_TTL_SECONDS, 0);
    store.set(121212, customer_record("cust-new"), CODE_TTL_SECONDS, 5);
    let r = redeem(&mut store, 121212, 10).unwrap();
    assert_eq!(r.client_id, "cust-new");
}

#[test]
fn get_reads_without_consuming() {
    let mut store = CredentialStore::new();
    store.set(454545, customer_record("cust-g"), CODE_TTL_SECONDS, 0);
    assert!(store.get(454545, 1).is_some());
    assert!(store.get(454545, 1).is_some());
    assert!(store.get(454545, CODE_TTL_SECONDS).is_none());
}

#[test]
fn error_messages_name_the_failure() {
    assert_eq!(AuthError::Unauthenticated.message(), "Unauthenticated");
    assert_eq!(AuthError::Unauthorized.message(), "Unauthorized");
    assert_eq!(AuthError::CodeInvalid.message(), "Code is no longer valid");
    assert_eq!(AuthError::NotFound.message(), "Not found");
    assert_eq!(AuthError::CorruptRecord.message(), "Corrupt record");
    assert_eq!(AuthError::StoreUnavailable.message(), "Store unavailable");
}
