//! Token verification: locating the `Authorization` header, extracting
//! the bearer token, and validating it as an RS256 JWT.

use vstd::prelude::*;
use crate::bytes_util::{bytes_eq, eq_ignore_ascii_case, spec_lower};
use crate::errors::{ErrorKind, ServiceError};
use crate::text::{auth_header_name, bearer_prefix, desc_bad_token, desc_missing_token, spec_auth_header_name, spec_bearer_prefix, spec_desc_bad_token, spec_desc_missing_token};

verus! {

/// One HTTP request header, name and value as raw bytes.
pub struct Header {
    pub name: Vec<u8>,
    pub value: Vec<u8>,
}

/// Value of the first header whose lower-cased name is `name`
/// (callers pass `name` already in lower case).
pub open spec fn spec_header_value(hs: Seq<Header>, name: Seq<u8>) -> Option<Seq<u8>>
    decreases hs.len(),
{
    if hs.len() == 0 {
        None
    } else if spec_lower(hs[0].name@) == name {
        Some(hs[0].value@)
    } else {
        spec_header_value(hs.subrange(1, hs.len() as int), name)
    }
}

/// Looks a header up by its lower-cased name.
pub fn header_value<'a>(hs: &'a [Header], name: &[u8]) -> (r: Option<&'a Vec<u8>>)
    ensures
        match r {
            Some(v) => spec_header_value(hs@, name@) == Some(v@),
            None => spec_header_value(hs@, name@) == None::<Seq<u8>>,
        },
    decreases hs@.len(),
{
    if hs.len() == 0 {
        None
    } else if eq_ignore_ascii_case(hs[0].name.as_slice(), name) {
        Some(&hs[0].value)
    } else {
        let rest = vstd::slice::slice_subrange(hs, 1, hs.len());
        let r = header_value(rest, name);
        proof {
            assert(rest@ =~= hs@.subrange(1, hs@.len() as int));
        }
        r
    }
}

/// The bearer token of a request: the part of the `Authorization`
/// header after the `Bearer ` prefix, if the header is present and so
/// shaped.
pub open spec fn spec_bearer_token(hs: Seq<Header>) -> Option<Seq<u8>> {
    match spec_header_value(hs, spec_auth_header_name()) {
        None => None,
        Some(v) => if v.len() >= 7 && v.subrange(0, 7) == spec_bearer_prefix() {
            Some(v.subrange(7, v.len() as int))
        } else {
            None
        },
    }
}

/// Extracts the bearer token from the request headers.
pub fn bearer_token(hs: &[Header]) -> (r: Option<Vec<u8>>)
    ensures
        match r {
            Some(t) => spec_bearer_token(hs@) == Some(t@),
            None => spec_bearer_token(hs@) == None::<Seq<u8>>,
        },
{
    let name = auth_header_name();
    match header_value(hs, name.as_slice()) {
        None => None,
        Some(v) => {
            if v.len() < 7 {
                return None;
            }
            let prefix = vstd::slice::slice_subrange(v.as_slice(), 0, 7);
            let expected = bearer_prefix();
            if bytes_eq(prefix, expected.as_slice()) {
                let token = vstd::slice::slice_to_vec(
                    vstd::slice::slice_subrange(v.as_slice(), 7, v.len()),
                );
                Some(token)
            } else {
                None
            }
        },
    }
}

/// The claims this service reads out of a JWT.
#[derive(Clone, Copy, Debug, PartialEq, Eq, Structural)]
pub struct JWTPayload {
    pub user_id: i32,
    pub exp: i64,
}

/// Relies on jsonwebtoken::decode with `Validation::new(Algorithm::RS256)`
/// and the given leeway: claims come back only for a well-formed JWT whose
/// header names RS256, whose signature verifies against the PEM-encoded
/// RSA public key, and whose `exp` claim lies no more than `leeway`
/// seconds in the past. The outcome also depends on the clock, so nothing
/// is promised of it here; callers state what holds either way.
#[verifier::external_body]
fn decode_rs256(token: &[u8], key: &[u8], leeway: u64) -> (r: Option<JWTPayload>) {
    let mut validation = jsonwebtoken::Validation::new(jsonwebtoken::Algorithm::RS256);
    validation.leeway = leeway;
    let key = jsonwebtoken::DecodingKey::from_rsa_pem(key).ok()?;
    let data = jsonwebtoken::decode::<serde_json::Value>(token, &key, &validation).ok()?;
    let user_id = data.claims.get("user_id")?.as_i64()?;
    let exp = data.claims.get("exp")?.as_i64()?;
    Some(JWTPayload { user_id: i32::try_from(user_id).ok()?, exp })
}

/// Turns the outcome of JWT decoding into the pipeline's own result:
/// accepted claims pass through, anything else is an `Unauthorized`
/// failure that reports a token parse failure.
pub fn payload_or_unauthorized(decoded: Option<JWTPayload>) -> (r: Result<JWTPayload, ServiceError>)
    ensures
        match r {
            Ok(p) => decoded == Some(p),
            Err(e) => decoded is None && e.kind == ErrorKind::Unauthorized && e.description@
                == spec_desc_bad_token(),
        },
{
    match decoded {
        Some(p) => Ok(p),
        None => Err(ServiceError { kind: ErrorKind::Unauthorized, description: desc_bad_token() }),
    }
}

/// Verifies the request's JWT: a missing or malformed `Authorization`
/// header is rejected outright; a present bearer token is decoded and
/// validated as an RS256 JWT against `jwt_key` with `leeway` seconds of
/// clock tolerance (a negative leeway counts as zero).
pub fn verify_token(jwt_key: &Vec<u8>, leeway: i64, headers: &Vec<Header>) -> (r: Result<
    JWTPayload,
    ServiceError,
>)
    ensures
        spec_bearer_token(headers@) is None ==> r is Err,
        r is Ok ==> spec_bearer_token(headers@) is Some,
        match r {
            Ok(_) => true,
            Err(e) => e.kind == ErrorKind::Unauthorized && e.description@ == (
            if spec_bearer_token(headers@) is None {
                spec_desc_missing_token()
            } else {
                spec_desc_bad_token()
            }),
        },
{
    match bearer_token(headers.as_slice()) {
        None => Err(
            ServiceError { kind: ErrorKind::Unauthorized, description: desc_missing_token() },
        ),
        Some(token) => {
            let lw: u64 = if leeway >= 0 {
                leeway as u64
            } else {
                0
            };
            let decoded = decode_rs256(token.as_slice(), jwt_key.as_slice(), lw);
            payload_or_unauthorized(decoded)
        },
    }
}

} // verus!
