//! The ephemeral one-time-code record and its stored wire form.
//!
//! The credential store keeps, under each pending code, a serialized
//! {client identifier, role} pair. The wire form is a one-character role
//! tag, a colon, and the raw client identifier; it round-trips for every
//! identifier, and anything else decodes to a corrupt-record failure.

use vstd::prelude::*;
use vstd::string::StrSliceExecFns;
use vstd::string::StringExecFns;

use crate::errors::AuthError;
use crate::roles::Roles;

verus! {

/// The value bound to a pending one-time code: whom the code was issued
/// to, and the role a session opened with it will carry.
#[derive(Clone, Debug)]
pub struct AuthCode {
    pub client_id: String,
    pub role: Roles,
}

/// The stored prefix that tags a record with its role.
pub open spec fn spec_role_tag(role: Roles) -> Seq<char> {
    match role {
        Roles::Admin => "A:"@,
        Roles::Customer => "C:"@,
        Roles::Partner => "P:"@,
    }
}

/// The stored wire form of a {client identifier, role} pair.
pub open spec fn spec_encode_auth_code(client_id: Seq<char>, role: Roles) -> Seq<char> {
    spec_role_tag(role) + client_id
}

/// The pair a stored value decodes to, or `None` when the value is not a
/// well-formed record.
pub open spec fn spec_decode_auth_code(value: Seq<char>) -> Option<(Seq<char>, Roles)> {
    if value.len() >= 2 && value[1] == ':' {
        if value[0] == 'A' {
            Some((value.subrange(2, value.len() as int), Roles::Admin))
        } else if value[0] == 'C' {
            Some((value.subrange(2, value.len() as int), Roles::Customer))
        } else if value[0] == 'P' {
            Some((value.subrange(2, value.len() as int), Roles::Partner))
        } else {
            None
        }
    } else {
        None
    }
}

impl AuthCode {
    /// Serializes the record into its stored wire form.
    pub fn encode(&self) -> (r: String)
        ensures
            r@ == spec_encode_auth_code(self.client_id@, self.role),
    {
        let tag = match self.role {
            Roles::Admin => "A:",
            Roles::Customer => "C:",
            Roles::Partner => "P:",
        };
        let mut out = tag.to_owned();
        out.append(self.client_id.as_str());
        out
    }

    /// Parses a stored value back into a record. A value that is not the
    /// wire form of any record is a fatal integrity error, distinct from
    /// an invalid code.
    pub fn decode(value: &str) -> (r: Result<AuthCode, AuthError>)
        ensures
            r matches Ok(code) ==> spec_decode_auth_code(value@) == Some(
                (code.client_id@, code.role),
            ),
            r is Err <==> spec_decode_auth_code(value@) is None,
            r matches Err(e) ==> e == AuthError::CorruptRecord,
    {
        let n = value.unicode_len();
        if n < 2 {
            return Err(AuthError::CorruptRecord);
        }
        if value.get_char(1) != ':' {
            return Err(AuthError::CorruptRecord);
        }
        let tag = value.get_char(0);
        let role = if tag == 'A' {
            Roles::Admin
        } else if tag == 'C' {
            Roles::Customer
        } else if tag == 'P' {
            Roles::Partner
        } else {
            return Err(AuthError::CorruptRecord);
        };
        let client_id = value.substring_char(2, n).to_owned();
        Ok(AuthCode { client_id, role })
    }
}

/// Encoding then decoding gives back exactly the record that was stored,
/// for every client identifier and every role.
pub proof fn lemma_auth_code_round_trip(client_id: Seq<char>, role: Roles)
    ensures
        spec_decode_auth_code(spec_encode_auth_code(client_id, role)) == Some((client_id, role)),
{
    reveal_strlit("A:");
    reveal_strlit("C:");
    reveal_strlit("P:");
    let encoded = spec_encode_auth_code(client_id, role);
    assert(spec_role_tag(role).len() == 2);
    assert(encoded[0] == spec_role_tag(role)[0]);
    assert(encoded[1] == spec_role_tag(role)[1]);
    assert(encoded.subrange(2, encoded.len() as int) =~= client_id);
}

} // verus!
