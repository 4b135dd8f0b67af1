//! The per-request security context and the authorization guard.
//!
//! A context is assembled once per inbound request from the optional
//! bearer credential: a credential that is absent or fails verification
//! leaves the caller anonymous, which is a valid state — only the guard
//! decides whether an anonymous or wrongly-roled caller may run a given
//! operation. The context also carries the one-time-code operations that
//! the login flow calls: issuing a code against the credential store and
//! redeeming it for a session token.

use vstd::prelude::*;

use crate::auth_code::AuthCode;
use crate::auth_code::lemma_auth_code_round_trip;
use crate::auth_code::spec_decode_auth_code;
use crate::auth_code::spec_encode_auth_code;
use crate::claims::Claims;
use crate::errors::AuthError;
use crate::roles::Roles;
use crate::roles::spec_role_label;
use crate::store::CredentialStore;
use crate::store::StoreEntrySpec;
use crate::store::live;
use crate::token::TOKEN_TTL_SECONDS;
use crate::token::issue_session_token;
use crate::token::spec_verify;
use crate::token::token_of;
use crate::token::verify_token;

verus! {

/// Lifetime of a pending one-time code: 1 hour from issuance.
pub const CODE_TTL_SECONDS: i64 = 60 * 60;

/// The inbound credential as the surrounding request layer hands it over.
pub struct AuthInfo {
    pub token: String,
}

/// The per-request security context: the verified claims of the caller,
/// or `None` for an anonymous caller. Built fresh for every request and
/// never shared across requests.
pub struct Context {
    pub claims: Option<Claims>,
}

/// Relies on rand::random_range over an inclusive range: the drawn code
/// lies within the six-digit bounds; which code comes back is up to the
/// thread-local generator, and nothing more is assumed of it.
#[verifier::external_body]
fn random_code() -> (r: u64)
    ensures
        100000 <= r <= 999999,
{
    rand::random_range(100000..=999999)
}

/// Exchanges a one-time code for the record it was bound to, atomically
/// invalidating the code: whatever the outcome, the store no longer holds
/// the code afterwards, so no later redemption of it can succeed. A code
/// that is absent, expired or already redeemed fails as invalid; a stored
/// value that does not decode is a fatal integrity error, kept distinct.
pub fn redeem(store: &mut CredentialStore, code: u64, now: i64) -> (r: Result<AuthCode, AuthError>)
    ensures
        final(store)@ == old(store)@.remove(code),
        !live(old(store)@, code, now as int) ==> r == Err::<AuthCode, AuthError>(
            AuthError::CodeInvalid,
        ),
        live(old(store)@, code, now as int) ==> match spec_decode_auth_code(
            old(store)@[code].value,
        ) {
            None => r == Err::<AuthCode, AuthError>(AuthError::CorruptRecord),
            Some(rec) => r matches Ok(ac) && ac.client_id@ == rec.0 && ac.role == rec.1,
        },
{
    match store.get_and_delete(code, now) {
        None => Err(AuthError::CodeInvalid),
        Some(value) => AuthCode::decode(value.as_str()),
    }
}

impl Context {
    /// The authorization guard: succeeds exactly when the context carries
    /// claims whose role is the required one; an anonymous caller is
    /// unauthenticated, a caller with any other role is unauthorized.
    pub fn authorize(&self, role: Roles) -> (r: Result<(), AuthError>)
        ensures
            r is Ok <==> (self.claims matches Some(c) && c.role == role),
            self.claims is None ==> r == Err::<(), AuthError>(AuthError::Unauthenticated),
            (self.claims matches Some(c) && c.role != role) ==> r == Err::<(), AuthError>(
                AuthError::Unauthorized,
            ),
    {
        match &self.claims {
            Some(claims) => {
                if claims.role == role {
                    Ok(())
                } else {
                    Err(AuthError::Unauthorized)
                }
            },
            None => Err(AuthError::Unauthenticated),
        }
    }

    /// The caller's own subject identifier, for operations that act on
    /// the caller's data; fails only for an anonymous caller.
    pub fn get_client_id(&self) -> (r: Result<&String, AuthError>)
        ensures
            r is Ok <==> self.claims is Some,
            r matches Ok(s) ==> self.claims matches Some(c) && s@ == c.sub@,
            r matches Err(e) ==> e == AuthError::Unauthenticated,
    {
        match &self.claims {
            Some(claims) => Ok(&claims.sub),
            None => Err(AuthError::Unauthenticated),
        }
    }

    /// The restaurant a partner caller operates, given the relational
    /// store's answer for the caller's subject identifier. Requires the
    /// Partner role; an identity row that has gone stale since token
    /// issuance surfaces as not-found, never as a crash.
    pub fn get_partner_restaurant_id(&self, restaurant_row: Option<String>) -> (r: Result<
        String,
        AuthError,
    >)
        ensures
            self.claims is None ==> r == Err::<String, AuthError>(AuthError::Unauthenticated),
            (self.claims matches Some(c) && c.role != Roles::Partner) ==> r == Err::<
                String,
                AuthError,
            >(AuthError::Unauthorized),
            (self.claims matches Some(c) && c.role == Roles::Partner) ==> match restaurant_row {
                None => r == Err::<String, AuthError>(AuthError::NotFound),
                Some(id) => r matches Ok(s) && s@ == id@,
            },
    {
        match self.authorize(Roles::Partner) {
            Err(e) => Err(e),
            Ok(()) => match restaurant_row {
                None => Err(AuthError::NotFound),
                Some(id) => Ok(id),
            },
        }
    }

    /// Issues a one-time code for the customer the relational store found
    /// for the requested contact, binding {customer, role} to a fresh
    /// six-digit code stored for one hour. A contact with no identity row
    /// is not found; a collision with a live code silently overwrites the
    /// older pending code, which simply becomes unusable early.
    pub fn request_customer_auth(
        &self,
        store: &mut CredentialStore,
        customer_row: Option<String>,
        role: Roles,
        now: i64,
    ) -> (r: Result<u64, AuthError>)
        requires
            now + CODE_TTL_SECONDS <= i64::MAX,
        ensures
            customer_row is None ==> r == Err::<u64, AuthError>(AuthError::NotFound)
                && final(store)@ == old(store)@,
            customer_row matches Some(id) ==> r matches Ok(code) && 100000 <= code <= 999999
                && final(store)@ == old(store)@.insert(
                code,
                StoreEntrySpec {
                    value: spec_encode_auth_code(id@, role),
                    expires_at: now + CODE_TTL_SECONDS,
                },
            ),
    {
        match customer_row {
            None => Err(AuthError::NotFound),
            Some(client_id) => {
                let code = random_code();
                let record = AuthCode { client_id, role };
                store.set(code, record.encode(), CODE_TTL_SECONDS, now);
                Ok(code)
            },
        }
    }

    /// Exchanges a one-time code for a signed session token: redeems the
    /// code (destructively, whatever the outcome) and issues a token for
    /// the recorded subject and role, valid for 24 hours from `now`. On a
    /// live code whose stored record is well formed, a token is owed.
    pub fn authenticate(
        &self,
        store: &mut CredentialStore,
        code: u64,
        now: i64,
        secret: &[u8],
    ) -> (r: Result<String, AuthError>)
        requires
            now + TOKEN_TTL_SECONDS <= i64::MAX,
        ensures
            final(store)@ == old(store)@.remove(code),
            !live(old(store)@, code, now as int) ==> r == Err::<String, AuthError>(
                AuthError::CodeInvalid,
            ),
            live(old(store)@, code, now as int) ==> match spec_decode_auth_code(
                old(store)@[code].value,
            ) {
                None => r == Err::<String, AuthError>(AuthError::CorruptRecord),
                Some(rec) => r matches Ok(t) && {
                    &&& t@ == token_of(
                        rec.0,
                        "RRMDN"@,
                        spec_role_label(rec.1),
                        now + TOKEN_TTL_SECONDS,
                        secret@,
                    )
                    &&& forall|later: int|
                        later <= now + TOKEN_TTL_SECONDS ==> spec_verify(t@, secret@, later)
                            == Some((rec.0, "RRMDN"@, rec.1, (now + TOKEN_TTL_SECONDS) as int))
                },
            },
    {
        let auth_code = match redeem(store, code, now) {
            Ok(auth_code) => auth_code,
            Err(e) => {
                return Err(e);
            },
        };
        issue_session_token(auth_code.client_id.as_str(), auth_code.role, now, secret)
    }
}

/// Assembles the security context for one inbound request. An absent
/// credential, and a credential that fails verification in any way, both
/// leave the caller anonymous; a verified credential authenticates the
/// caller with exactly the claims the token carries.
pub fn context_factory(credential: Option<&str>, secret: &[u8], now: i64) -> (c: Context)
    ensures
        credential is None ==> c.claims is None,
        credential matches Some(t) ==> {
            &&& c.claims is Some <==> spec_verify(t@, secret@, now as int) is Some
            &&& c.claims matches Some(cl) ==> spec_verify(t@, secret@, now as int) == Some(
                (cl.sub@, cl.company@, cl.role, cl.exp as int),
            )
        },
{
    let claims = match credential {
        None => None,
        Some(token) => verify_token(token, secret, now),
    };
    Context { claims }
}

/// A freshly issued code, redeemed at any moment before its lifetime runs
/// out, is live and its stored record decodes to exactly the identity and
/// role it was issued for.
pub proof fn lemma_issued_code_redeems(
    m: Map<u64, StoreEntrySpec>,
    code: u64,
    client_id: Seq<char>,
    role: Roles,
    now: int,
    later: int,
)
    requires
        later < now + CODE_TTL_SECONDS,
    ensures
        live(
            m.insert(
                code,
                StoreEntrySpec {
                    value: spec_encode_auth_code(client_id, role),
                    expires_at: now + CODE_TTL_SECONDS,
                },
            ),
            code,
            later,
        ),
        spec_decode_auth_code(
            m.insert(
                code,
                StoreEntrySpec {
                    value: spec_encode_auth_code(client_id, role),
                    expires_at: now + CODE_TTL_SECONDS,
                },
            )[code].value,
        ) == Some((client_id, role)),
{
    lemma_auth_code_round_trip(client_id, role);
}

} // verus!
