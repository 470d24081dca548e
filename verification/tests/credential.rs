use post_service::hex::{decode_hex, encode_hex};
use post_service::jwt::{
    decode_jwt, encode_jwt, mint, verify, verify_bytes, VerificationError, TOKEN_LIFETIME_SECS,
};

const SECRET: &[u8] = b"top-secret";
const NOW: i64 = 1_700_000_000;

fn with_signature(token: &str, signature: &str) -> String {
    let at = token.find('.').unwrap();
    format!("{}.{}", &token[..at], signature)
}

#[test]
fn minted_credential_has_the_documented_layout() {
    let token = mint(SECRET, 7, "a@b.c".to_string(), NOW).unwrap();
    assert_eq!(
        token,
        "0700008000f153650000000080425565000000006140622e63.\
         2e0cc4e105571f28eb5e5a2a63708eb5f587c05e763a00552386dae35416486f"
    );
}

#[test]
fn minted_credential_for_negative_id_and_wide_email() {
    let token = mint(SECRET, -1, "üser@example.com".to_string(), 0).unwrap();
    assert_eq!(
        token,
        "ffffff7f00000000000000008051010000000000c3bc736572406578616d706c652e636f6d.\
         d8b210c23741cf2de50352c5b6045c06d3108de415497856c6a1f2798449ed31"
    );
    let claims = verify(SECRET, &token, 0).unwrap();
    assert_eq!(claims.id, -1);
    assert_eq!(claims.email, "üser@example.com");
}

#[test]
fn minted_credential_verifies_at_once() {
    let token = mint(SECRET, 42, "ann@example.com".to_string(), NOW).unwrap();
    let claims = verify(SECRET, &token, NOW).unwrap();
    assert_eq!(claims.id, 42);
    assert_eq!(claims.email, "ann@example.com");
    assert_eq!(claims.iat, NOW as usize);
    assert_eq!(claims.exp, NOW as usize + 86_400);
}

#[test]
fn lifetime_is_one_day() {
    assert_eq!(TOKEN_LIFETIME_SECS, 24 * 60 * 60);
}

#[test]
fn credential_is_good_through_its_last_second() {
    let token = mint(SECRET, 1, "a@b.c".to_string(), NOW).unwrap();
    assert!(verify(SECRET, &token, NOW + 86_400).is_ok());
    assert!(verify(SECRET, &token, NOW - 5).is_ok());
    assert!(verify(SECRET, &token, -1).is_ok());
}

#[test]
fn expired_credential_is_rejected() {
    let token = mint(SECRET, 1, "a@b.c".to_string(), NOW).unwrap();
    assert_eq!(verify(SECRET, &token, NOW + 86_401), Err(VerificationError::Expired));
    assert_eq!(verify(SECRET, &token, i64::MAX), Err(VerificationError::Expired));
}

#[test]
fn expired_credential_is_expired_whatever_its_signature() {
    let token = mint(SECRET, 1, "a@b.c".to_string(), NOW).unwrap();
    let forged = with_signature(&token, "00");
    assert_eq!(verify(SECRET, &forged, NOW + 86_401), Err(VerificationError::Expired));
    assert_eq!(verify(b"other", &token, NOW + 86_401), Err(VerificationError::Expired));
}

#[test]
fn tampered_signature_is_rejected() {
    let token = mint(SECRET, 1, "a@b.c".to_string(), NOW).unwrap();
    let at = token.find('.').unwrap();
    let last = token.chars().last().unwrap();
    let flipped = if last == '0' { '1' } else { '0' };
    let mut forged = token[..token.len() - 1].to_string();
    forged.push(flipped);
    assert_eq!(verify(SECRET, &forged, NOW), Err(VerificationError::SignatureInvalid));
    assert_eq!(
        verify(SECRET, &with_signature(&token, ""), NOW),
        Err(VerificationError::SignatureInvalid)
    );
    assert_eq!(
        verify(SECRET, &with_signature(&token, "not hex at all"), NOW),
        Err(VerificationError::SignatureInvalid)
    );
    let doubled = format!("{}.{}", token, &token[at + 1..]);
    assert_eq!(verify(SECRET, &doubled, NOW), Err(VerificationError::SignatureInvalid));
    let upper = with_signature(&token, &token[at + 1..].to_uppercase());
    assert_eq!(verify(SECRET, &upper, NOW), Err(VerificationError::SignatureInvalid));
}

#[test]
fn tampered_payload_is_rejected() {
    let token = mint(SECRET, 1, "a@b.c".to_string(), NOW).unwrap();
    let other = mint(SECRET, 2, "a@b.c".to_string(), NOW).unwrap();
    let at = token.find('.').unwrap();
    let swapped = with_signature(&other, &token[at + 1..]);
    assert_eq!(verify(SECRET, &swapped, NOW), Err(VerificationError::SignatureInvalid));
}

#[test]
fn credential_of_another_secret_is_rejected() {
    let token = mint(b"someone else", 1, "a@b.c".to_string(), NOW).unwrap();
    assert_eq!(verify(SECRET, &token, NOW), Err(VerificationError::SignatureInvalid));
    assert!(verify(b"someone else", &token, NOW).is_ok());
}

#[test]
fn text_that_is_no_credential_is_malformed() {
    for text in ["", "abc", ".", "zz.zz", "0.00", "abc.", "0700008000F1.00", "07 00.00"] {
        assert_eq!(verify(SECRET, text, NOW), Err(VerificationError::Malformed), "{:?}", text);
    }
}

#[test]
fn payload_that_is_too_short_is_malformed() {
    let token = "00000000000000000000000000000000000000.\
                 e3a1abfe6f10d196816acfe28199b14f3b33e754f36bd94e15e1ac8a055f7032";
    assert_eq!(verify(SECRET, token, 0), Err(VerificationError::Malformed));
}

#[test]
fn payload_with_an_email_that_is_not_utf8_is_malformed() {
    let token = "010000800a000000000000001400000000000000fffe.\
                 00c4089c6fb5644f1f5b97db368031ef429daf24ef79abc3412b90c91602d8d3";
    assert_eq!(verify(SECRET, token, 15), Err(VerificationError::Malformed));
}

#[test]
fn payload_with_an_empty_email_is_accepted() {
    let token = "000000800a000000000000001400000000000000.\
                 b806d4242ffe4f191d7482e1fff0fb746a0957c142a0bd3156453e94a695e09b";
    let claims = verify(SECRET, token, 15).unwrap();
    assert_eq!(claims.id, 0);
    assert_eq!(claims.iat, 10);
    assert_eq!(claims.exp, 20);
    assert_eq!(claims.email, "");
    assert_eq!(verify(SECRET, token, 20).unwrap().exp, 20);
    assert_eq!(verify(SECRET, token, 21), Err(VerificationError::Expired));
}

#[test]
fn verify_bytes_agrees_with_verify() {
    let token = mint(SECRET, 9, "z@y.x".to_string(), NOW).unwrap();
    assert_eq!(verify_bytes(SECRET, token.as_bytes(), NOW), verify(SECRET, &token, NOW));
    assert_eq!(verify_bytes(SECRET, &[0xff, 0x2e, 0x00], NOW), Err(VerificationError::Malformed));
}

#[test]
fn no_credential_before_the_epoch() {
    assert_eq!(mint(SECRET, 1, "a@b.c".to_string(), -1), Err(()));
    assert_eq!(mint(SECRET, 1, "a@b.c".to_string(), i64::MIN), Err(()));
    assert!(mint(SECRET, 1, "a@b.c".to_string(), 0).is_ok());
}

#[test]
fn latest_second_can_be_minted_where_the_word_is_wide() {
    if usize::BITS >= 64 {
        let token = mint(SECRET, 1, "a@b.c".to_string(), i64::MAX).unwrap();
        let claims = verify(SECRET, &token, i64::MAX).unwrap();
        assert_eq!(claims.iat as u64, i64::MAX as u64);
        assert_eq!(claims.exp as u64, i64::MAX as u64 + 86_400);
    } else {
        assert_eq!(mint(SECRET, 1, "a@b.c".to_string(), i64::MAX), Err(()));
    }
}

#[test]
fn extreme_ids_survive() {
    for id in [i32::MIN, -1, 0, 1, i32::MAX] {
        let token = mint(SECRET, id, "a@b.c".to_string(), NOW).unwrap();
        assert_eq!(verify(SECRET, &token, NOW).unwrap().id, id);
    }
}

#[test]
fn credential_minted_now_verifies_now() {
    let token = encode_jwt(SECRET, "who@example.com".to_string(), 5).unwrap();
    let claims = decode_jwt(SECRET, &token).unwrap();
    assert_eq!(claims.id, 5);
    assert_eq!(claims.email, "who@example.com");
    assert_eq!(claims.exp - claims.iat, 86_400);
    assert!(claims.iat > 1_700_000_000);
}

#[test]
fn credential_that_ran_out_long_ago_fails_now() {
    let token = mint(SECRET, 1, "a@b.c".to_string(), 1_000).unwrap();
    assert_eq!(decode_jwt(SECRET, &token), Err(VerificationError::Expired));
}

#[test]
fn hex_of_known_bytes() {
    assert_eq!(encode_hex(&[]), b"".to_vec());
    assert_eq!(encode_hex(&[0x00, 0x0f, 0xa5, 0xff]), b"000fa5ff".to_vec());
    assert_eq!(decode_hex(b"000fa5ff"), Some(vec![0x00, 0x0f, 0xa5, 0xff]));
    assert_eq!(decode_hex(b""), Some(vec![]));
}

#[test]
fn hex_rejects_what_it_would_not_write() {
    assert_eq!(decode_hex(b"0"), None);
    assert_eq!(decode_hex(b"0g"), None);
    assert_eq!(decode_hex(b"AB"), None);
    assert_eq!(decode_hex(b"0 "), None);
    assert_eq!(decode_hex(b"/0"), None);
    assert_eq!(decode_hex(b":0"), None);
    assert_eq!(decode_hex(b"`0"), None);
}

#[test]
fn hex_round_trip_of_every_byte() {
    let all: Vec<u8> = (0..=255).collect();
    let text = encode_hex(&all);
    assert_eq!(text.len(), 512);
    assert_eq!(decode_hex(&text), Some(all));
}
