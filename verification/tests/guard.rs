use post_service::auth::{authorize, check_auth_middleware, guard};
use post_service::jwt::{encode_jwt, mint, Claims};
use post_service::response::ErrorKind;
use std::cell::Cell;

const SECRET: &[u8] = b"top-secret";
const NOW: i64 = 1_700_000_000;

#[test]
fn request_without_header_is_unauthorized() {
    assert_eq!(authorize(SECRET, None, NOW), Err(ErrorKind::Unauthorized));
}

#[test]
fn request_with_a_good_credential_is_admitted() {
    let token = mint(SECRET, 3, "c@d.e".to_string(), NOW).unwrap();
    let claims = authorize(SECRET, Some(token.as_bytes()), NOW + 60).unwrap();
    assert_eq!(
        claims,
        Claims {
            exp: NOW as usize + 86_400,
            iat: NOW as usize,
            email: "c@d.e".to_string(),
            id: 3
        }
    );
}

#[test]
fn every_verification_failure_is_unauthorized() {
    let token = mint(SECRET, 3, "c@d.e".to_string(), NOW).unwrap();
    let forged = format!("{}0", token);
    assert_eq!(authorize(SECRET, Some(b"garbage"), NOW), Err(ErrorKind::Unauthorized));
    assert_eq!(authorize(SECRET, Some(b""), NOW), Err(ErrorKind::Unauthorized));
    assert_eq!(authorize(SECRET, Some(&[0xff, 0xfe]), NOW), Err(ErrorKind::Unauthorized));
    assert_eq!(authorize(SECRET, Some(forged.as_bytes()), NOW), Err(ErrorKind::Unauthorized));
    assert_eq!(
        authorize(SECRET, Some(token.as_bytes()), NOW + 86_401),
        Err(ErrorKind::Unauthorized)
    );
    assert_eq!(authorize(b"other", Some(token.as_bytes()), NOW), Err(ErrorKind::Unauthorized));
}

#[test]
fn scheme_word_before_the_credential_is_not_accepted() {
    let token = mint(SECRET, 3, "c@d.e".to_string(), NOW).unwrap();
    let bearer = format!("Bearer {}", token);
    assert_eq!(authorize(SECRET, Some(bearer.as_bytes()), NOW), Err(ErrorKind::Unauthorized));
}

#[test]
fn handler_is_not_called_without_header() {
    let calls = Cell::new(0);
    let result = guard(SECRET, None, NOW, |_claims: Claims| {
        calls.set(calls.get() + 1);
        "handled"
    });
    assert_eq!(result, Err(ErrorKind::Unauthorized));
    assert_eq!(calls.get(), 0);
}

#[test]
fn handler_is_not_called_when_verification_fails() {
    let token = mint(SECRET, 3, "c@d.e".to_string(), NOW).unwrap();
    let forged = format!("{}0", token);
    let calls = Cell::new(0);
    for (header, now) in [
        (forged.as_bytes(), NOW),
        (token.as_bytes(), NOW + 86_401),
        (b"no credential".as_slice(), NOW),
    ] {
        let result = guard(SECRET, Some(header), now, |_claims: Claims| {
            calls.set(calls.get() + 1);
            "handled"
        });
        assert_eq!(result, Err(ErrorKind::Unauthorized));
    }
    assert_eq!(calls.get(), 0);
}

#[test]
fn handler_is_called_once_with_the_claims() {
    let token = mint(SECRET, 3, "c@d.e".to_string(), NOW).unwrap();
    let calls = Cell::new(0);
    let result = guard(SECRET, Some(token.as_bytes()), NOW, |claims: Claims| {
        calls.set(calls.get() + 1);
        format!("{} <{}>", claims.id, claims.email)
    });
    assert_eq!(result, Ok("3 <c@d.e>".to_string()));
    assert_eq!(calls.get(), 1);
}

#[test]
fn handler_result_passes_through_unchanged() {
    let token = mint(SECRET, 3, "c@d.e".to_string(), NOW).unwrap();
    let failing: Result<Result<u8, ErrorKind>, ErrorKind> =
        guard(SECRET, Some(token.as_bytes()), NOW, |_claims: Claims| Err(ErrorKind::NotFound));
    assert_eq!(failing, Ok(Err(ErrorKind::NotFound)));
    let fine: Result<Result<u8, ErrorKind>, ErrorKind> =
        guard(SECRET, Some(token.as_bytes()), NOW, |_claims: Claims| Ok(200));
    assert_eq!(fine, Ok(Ok(200)));
}

#[test]
fn middleware_admits_a_credential_minted_now() {
    let token = encode_jwt(SECRET, "now@example.com".to_string(), 11).unwrap();
    let result = check_auth_middleware(SECRET, Some(token.as_bytes()), |claims: Claims| claims.id);
    assert_eq!(result, Ok(11));
}

#[test]
fn middleware_turns_down_what_does_not_verify() {
    let old = mint(SECRET, 11, "old@example.com".to_string(), 1_000).unwrap();
    let calls = Cell::new(0);
    let count = |_claims: Claims| calls.set(calls.get() + 1);
    assert_eq!(check_auth_middleware(SECRET, None, count), Err(ErrorKind::Unauthorized));
    assert_eq!(
        check_auth_middleware(SECRET, Some(old.as_bytes()), count),
        Err(ErrorKind::Unauthorized)
    );
    assert_eq!(
        check_auth_middleware(SECRET, Some(b"x.y"), count),
        Err(ErrorKind::Unauthorized)
    );
    assert_eq!(calls.get(), 0);
}

#[test]
fn refusal_reads_the_same_whatever_went_wrong() {
    let response = ErrorKind::Unauthorized.response();
    assert_eq!(response.status_code, 401);
    assert_eq!(response.body, "Unathorized");
}
