use vstd::prelude::*;
use vstd::string::*;
use vstd::utf8::*;
use crate::api_error::ApiError;
use crate::auth::constant::bearer;
use crate::auth::entity::Claims;
use crate::text::{has_prefix, lemma_trim_start_all, owned, starts_with, trim_start_all, trim_start_matches};

verus! {

/// How long a token issued at login stays valid, in seconds.
pub const TOKEN_LIFETIME_SECONDS: i64 = 60;

/// `std::str::from_utf8`: the bytes read as text exactly when they are valid
/// UTF-8, and the text then has those bytes.
#[verifier::external_body]
fn utf8(v: &[u8]) -> (r: Option<&str>)
    ensures
        r is Some <==> valid_utf8(v@),
        r matches Some(s) ==> s.spec_bytes() == v@,
{
    std::str::from_utf8(v).ok()
}

/// The claims of a token issued at `now` (seconds since the epoch) for a
/// user id and a role: it expires a minute later.
pub fn jwt_claims(uid: &str, role: &str, now: i64) -> (c: Claims)
    requires
        now <= i64::MAX - TOKEN_LIFETIME_SECONDS,
    ensures
        c.sub matches Some(s) && s@ == uid@,
        c.role matches Some(r) && r@ == role@,
        c.exp == Some(((now + TOKEN_LIFETIME_SECONDS) as usize)),
        c.permissions is None,
        c.scope is None,
{
    let expiration: i64 = now + TOKEN_LIFETIME_SECONDS;
    Claims {
        permissions: None,
        sub: Some(owned(uid)),
        role: Some(owned(role)),
        exp: Some(expiration as usize),
        scope: None,
    }
}

/// What a failure to sign an issued token is answered with.
pub fn token_issue_failure() -> (e: ApiError)
    ensures
        e.status_code == 401,
        e.message@ == "Unauthorized"@,
{
    ApiError::new(401, owned("Unauthorized"))
}

/// The outcome of reading the token from an `Authorization` header value:
/// no header, or one that is not text, is refused as "No auth header"; one
/// that does not begin with "Bearer " as "Invalid auth header"; otherwise the
/// token is what follows every leading "Bearer ".
pub open spec fn jwt_from_header_result(authorization: Option<Seq<u8>>) -> Result<Seq<char>, (u16, Seq<char>)> {
    match authorization {
        None => Err((401u16, "No auth header"@)),
        Some(bytes) => if !valid_utf8(bytes) {
            Err((401u16, "No auth header"@))
        } else if !has_prefix(decode_utf8(bytes), bearer()) {
            Err((401u16, "Invalid auth header"@))
        } else {
            Ok(trim_start_all(decode_utf8(bytes), bearer()))
        },
    }
}

/// The view of an optional header value.
pub open spec fn header_view(authorization: Option<&[u8]>) -> Option<Seq<u8>> {
    match authorization {
        None => None,
        Some(b) => Some(b@),
    }
}

/// Reads the bearer token from the value of a request's `Authorization`
/// header, `None` when the request has none.
pub fn jwt_from_header(authorization: Option<&[u8]>) -> (r: Result<String, ApiError>)
    ensures
        match jwt_from_header_result(header_view(authorization)) {
            Ok(token) => r matches Ok(t) && t@ == token,
            Err((code, message)) => r matches Err(e) && e.status_code == code && e.message@ == message,
        },
{
    let bytes = match authorization {
        Some(b) => b,
        None => return Err(ApiError::new(401, owned("No auth header"))),
    };
    let text = match utf8(bytes) {
        Some(t) => t,
        None => return Err(ApiError::new(401, owned("No auth header"))),
    };
    proof {
        encode_utf8_decode_utf8(text@);
    }
    assert(text@ == decode_utf8(bytes@));
    if !starts_with(text, "Bearer ") {
        return Err(ApiError::new(401, owned("Invalid auth header")));
    }
    Ok(owned(trim_start_matches(text, "Bearer ")))
}

/// A token read from a header is what ends the header's text, and it does
/// not itself begin with "Bearer ": every leading repetition is taken off.
pub proof fn lemma_token_is_bearer_free_suffix(authorization: Option<Seq<u8>>)
    requires
        jwt_from_header_result(authorization) is Ok,
    ensures
        ({
            let text = decode_utf8(authorization->0);
            let token = jwt_from_header_result(authorization)->Ok_0;
            &&& !has_prefix(token, bearer())
            &&& token.len() <= text.len()
            &&& token == text.subrange(text.len() - token.len(), text.len() as int)
        }),
{
    reveal_strlit("Bearer ");
    lemma_trim_start_all(decode_utf8(authorization->0), bearer());
}

} // verus!
