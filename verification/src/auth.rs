//! The guard in front of every handler that needs to know who is calling.
//!
//! The credential travels in the `Authorization` header, whose value is the
//! credential itself, with no scheme word before it. A request is admitted
//! when the header is there and its credential verifies; the handler then
//! receives the claims. Every other request is turned down as unauthorized,
//! and the client is not told why.
use crate::jwt::{verification, verify_bytes, Claims, ClaimsView, VerificationError};
use crate::response::{ErrorKind, ErrorKindView};
use crate::trusted::current_time;
use vstd::prelude::*;

verus! {

/// The bytes of the header's value, if the header is there.
pub open spec fn header_value(authorization: Option<&[u8]>) -> Option<Seq<u8>> {
    match authorization {
        Some(value) => Some(value@),
        None => None,
    }
}

/// The claims that a request is admitted with at the second `now`, if it is
/// admitted: those of the credential in its header, where that verifies.
pub open spec fn admitted(secret: Seq<u8>, authorization: Option<Seq<u8>>, now: int) -> Option<
    ClaimsView,
> {
    match authorization {
        None => None,
        Some(token) => match verification(secret, token, now) {
            Ok(claims) => Some(claims),
            Err(_) => None,
        },
    }
}

/// Whether a request is admitted with the given claims at the second `now`.
pub open spec fn admits(
    secret: Seq<u8>,
    authorization: Option<Seq<u8>>,
    now: int,
    claims: ClaimsView,
) -> bool {
    admitted(secret, authorization, now) == Some(claims)
}

/// Whether `result` is the guard's decision on a request at the second `now`.
pub open spec fn is_decision_at(
    secret: Seq<u8>,
    authorization: Option<Seq<u8>>,
    now: i64,
    result: Result<Claims, ErrorKind>,
) -> bool {
    match result {
        Ok(claims) => admitted(secret, authorization, now as int) == Some(claims@),
        Err(e) => e@ == ErrorKindView::Unauthorized && admitted(secret, authorization, now as int)
            is None,
    }
}

/// Whether `result` is what a guarded handler comes to at the second `now`:
/// the handler's own result for the claims the request is admitted with, or a
/// refusal where the request is not admitted.
pub open spec fn is_guarded_at<R, F: FnOnce(Claims) -> R>(
    secret: Seq<u8>,
    authorization: Option<Seq<u8>>,
    now: i64,
    handler: F,
    result: Result<R, ErrorKind>,
) -> bool {
    match result {
        Ok(reply) => exists|claims: Claims|
            admitted(secret, authorization, now as int) == Some(claims@) && call_ensures(
                handler,
                (claims,),
                reply,
            ),
        Err(e) => e@ == ErrorKindView::Unauthorized && admitted(secret, authorization, now as int)
            is None,
    }
}

/// Decides on a request at the second `now`: the claims it is admitted with,
/// or a refusal.
pub fn authorize(secret: &[u8], authorization: Option<&[u8]>, now: i64) -> (result: Result<
    Claims,
    ErrorKind,
>)
    ensures
        is_decision_at(secret@, header_value(authorization), now, result),
{
    match authorization {
        None => Err(ErrorKind::Unauthorized),
        Some(token) => match verify_bytes(secret, token, now) {
            Ok(claims) => Ok(claims),
            Err(_) => Err(ErrorKind::Unauthorized),
        },
    }
}

/// Runs a handler behind the guard at the second `now`.
///
/// The handler is asked to accept only claims that the request is admitted
/// with. So it cannot be called for a request without a header or with a
/// credential that does not verify: no claims exist to call it with. Where it
/// is called, its result is handed on as it is.
pub fn guard<R, F: FnOnce(Claims) -> R>(
    secret: &[u8],
    authorization: Option<&[u8]>,
    now: i64,
    handler: F,
) -> (result: Result<R, ErrorKind>)
    requires
        forall|claims: Claims| #[trigger]
            admits(secret@, header_value(authorization), now as int, claims@) ==> call_requires(
                handler,
                (claims,),
            ),
    ensures
        is_guarded_at(secret@, header_value(authorization), now, handler, result),
{
    match authorize(secret, authorization, now) {
        Err(e) => Err(e),
        Ok(claims) => {
            assert(admits(secret@, header_value(authorization), now as int, claims@));
            let reply = handler(claims);
            assert(admitted(secret@, header_value(authorization), now as int) == Some(claims@)
                && call_ensures(handler, (claims,), reply));
            Ok(reply)
        },
    }
}

/// Runs a handler behind the guard at the present second.
///
/// Whatever the clock says, the result is what [`guard`] gives for that second.
pub fn check_auth_middleware<R, F: FnOnce(Claims) -> R>(
    secret: &[u8],
    authorization: Option<&[u8]>,
    next: F,
) -> (result: Result<R, ErrorKind>)
    requires
        forall|claims: Claims, now: int| #[trigger]
            admits(secret@, header_value(authorization), now, claims@) ==> call_requires(
                next,
                (claims,),
            ),
    ensures
        exists|now: i64| is_guarded_at(secret@, header_value(authorization), now, next, result),
{
    let reading = current_time();
    let result = guard(secret, authorization, reading.0, next);
    assert(is_guarded_at(secret@, header_value(authorization), reading.0, next, result));
    result
}

} // verus!
