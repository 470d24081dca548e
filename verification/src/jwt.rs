//! Bearer credentials: signed, time-bound statements of who the caller is.
//!
//! A credential is a line of ASCII text in two parts with a full stop between
//! them. The first part is the hexadecimal text of the payload, which is the
//! claims laid out as bytes; the second is the hexadecimal text of the payload's
//! HMAC-SHA256 tag under the service's secret. Nothing is stored: whether a
//! credential is good depends on its signature and on the clock alone.
use crate::hex::{
    decode_hex, encode_hex, hex_decode, hex_encode, is_hex, lemma_hex_is_plain,
    lemma_hex_round_trip,
};
use crate::trusted::{current_time, hmac_sha256, hmac_sha256_tag, string_from_utf8};
use vstd::bytes::{
    lemma_auto_spec_u32_to_from_le_bytes, lemma_auto_spec_u64_to_from_le_bytes,
    spec_u32_from_le_bytes, spec_u32_to_le_bytes, spec_u64_from_le_bytes, spec_u64_to_le_bytes,
    u32_from_le_bytes, u32_to_le_bytes, u64_from_le_bytes, u64_to_le_bytes,
};
use vstd::prelude::*;
use vstd::slice::{slice_subrange, slice_to_vec};
use vstd::string::StrSliceExecFns;
use vstd::utf8::{
    decode_utf8, decode_utf8_encode_utf8, encode_utf8, encode_utf8_decode_utf8,
    encode_utf8_valid_utf8, is_ascii_chars, is_ascii_chars_encode_utf8, valid_utf8,
};

verus! {

/// How long a credential stays good, in seconds: one day.
pub const TOKEN_LIFETIME_SECS: u64 = 86_400;

/// The ASCII code of the full stop that parts payload and signature.
pub const SEPARATOR: u8 = 46;

/// The identity that a credential states: the user's id and email, the second
/// the credential was issued and the last second it is good for.
#[derive(Debug, Clone, PartialEq, Eq)]
pub struct Claims {
    pub exp: usize,
    pub iat: usize,
    pub email: String,
    pub id: i32,
}

/// The mathematical content of [`Claims`].
pub struct ClaimsView {
    pub exp: usize,
    pub iat: usize,
    pub email: Seq<char>,
    pub id: i32,
}

impl View for Claims {
    type V = ClaimsView;

    open spec fn view(&self) -> ClaimsView {
        ClaimsView { exp: self.exp, iat: self.iat, email: self.email@, id: self.id }
    }
}

/// Why a credential was turned down.
#[derive(Debug, Clone, Copy, PartialEq, Eq)]
pub enum VerificationError {
    /// The signature is not the one the secret gives for the payload.
    SignatureInvalid,
    /// The credential's last good second has passed.
    Expired,
    /// The text is not a credential at all.
    Malformed,
}

/// The claims laid out as bytes: the id moved up by 2^31 so that it is not
/// negative, in four bytes; the second of issue and the last good second, in
/// eight bytes each; all three least significant byte first; then the email
/// in UTF-8, to the end.
pub open spec fn payload(claims: ClaimsView) -> Seq<u8> {
    spec_u32_to_le_bytes((claims.id + 0x8000_0000) as u32) + spec_u64_to_le_bytes(
        claims.iat as u64,
    ) + spec_u64_to_le_bytes(claims.exp as u64) + encode_utf8(claims.email)
}

/// The claims that a payload states, if it states any: it must hold the three
/// numbers, the two times must fit the machine's word, and what follows must be
/// UTF-8.
pub open spec fn decode_claims(bytes: Seq<u8>) -> Option<ClaimsView> {
    if bytes.len() < 20 {
        None
    } else {
        let id = spec_u32_from_le_bytes(bytes.subrange(0, 4));
        let iat = spec_u64_from_le_bytes(bytes.subrange(4, 12));
        let exp = spec_u64_from_le_bytes(bytes.subrange(12, 20));
        let email = bytes.subrange(20, bytes.len() as int);
        if iat > usize::MAX || exp > usize::MAX || !valid_utf8(email) {
            None
        } else {
            Some(
                ClaimsView {
                    exp: exp as usize,
                    iat: iat as usize,
                    email: decode_utf8(email),
                    id: (id - 0x8000_0000) as i32,
                },
            )
        }
    }
}

/// The signature that the secret gives for a payload.
pub open spec fn signature(secret: Seq<u8>, payload: Seq<u8>) -> Seq<u8> {
    hex_encode(hmac_sha256_tag(secret, payload))
}

/// The credential for some claims under a secret, as ASCII bytes.
pub open spec fn credential(secret: Seq<u8>, claims: ClaimsView) -> Seq<u8> {
    hex_encode(payload(claims)) + seq![SEPARATOR] + signature(secret, payload(claims))
}

/// Whether a text holds a full stop.
pub open spec fn has_separator(token: Seq<u8>) -> bool {
    exists|i: int| 0 <= i < token.len() && token[i] == SEPARATOR
}

/// Whether the text's first full stop is at `at`.
pub open spec fn is_first_separator(token: Seq<u8>, at: int) -> bool {
    &&& 0 <= at < token.len()
    &&& token[at] == SEPARATOR
    &&& forall|j: int| 0 <= j < at ==> token[j] != SEPARATOR
}

/// Where the text's first full stop is.
pub open spec fn first_separator(token: Seq<u8>) -> int
    recommends
        has_separator(token),
{
    choose|at: int| is_first_separator(token, at)
}

/// The part of a credential before the first full stop.
pub open spec fn token_body(token: Seq<u8>) -> Seq<u8> {
    token.subrange(0, first_separator(token))
}

/// The part of a credential after the first full stop.
pub open spec fn token_signature(token: Seq<u8>) -> Seq<u8> {
    token.subrange(first_separator(token) + 1, token.len() as int)
}

/// The claims that a text states, signed or not. A text without a full stop
/// states none, nor one whose first part is not hexadecimal or does not hold a
/// payload.
pub open spec fn stated_claims(token: Seq<u8>) -> Option<ClaimsView> {
    if !has_separator(token) {
        None
    } else {
        match hex_decode(token_body(token)) {
            None => None,
            Some(bytes) => decode_claims(bytes),
        }
    }
}

/// Whether the text's second part is the signature that the secret gives for
/// its first.
pub open spec fn is_signed_by(secret: Seq<u8>, token: Seq<u8>) -> bool {
    hex_decode(token_body(token)) matches Some(bytes) && token_signature(token) == signature(
        secret,
        bytes,
    )
}

/// What verifying a text at a given second comes to. A text that states no
/// claims is malformed. One that does is expired once its last good second has
/// passed, whoever signed it; before that it is accepted if the signature is
/// the secret's, and otherwise its signature is invalid.
pub open spec fn verification(secret: Seq<u8>, token: Seq<u8>, now: int) -> Result<
    ClaimsView,
    VerificationError,
> {
    match stated_claims(token) {
        None => Err(VerificationError::Malformed),
        Some(claims) => if now > claims.exp {
            Err(VerificationError::Expired)
        } else if !is_signed_by(secret, token) {
            Err(VerificationError::SignatureInvalid)
        } else {
            Ok(claims)
        },
    }
}

/// Whether a credential can be minted at the given second: the second is not
/// before the epoch, and the last good second fits the machine's word.
pub open spec fn can_mint(now: int) -> bool {
    0 <= now && now + TOKEN_LIFETIME_SECS <= usize::MAX
}

/// The claims of a credential minted at the given second.
pub open spec fn minted_claims(id: i32, email: Seq<char>, now: int) -> ClaimsView
    recommends
        can_mint(now),
{
    ClaimsView { exp: (now + TOKEN_LIFETIME_SECS) as usize, iat: now as usize, email, id }
}

/// Whether `result` is what minting at the second `now` comes to: the
/// credential for the minted claims where one can be minted, and a failure
/// where none can.
pub open spec fn is_minting_at(
    secret: Seq<u8>,
    id: i32,
    email: Seq<char>,
    now: i64,
    result: Result<String, ()>,
) -> bool {
    match result {
        Ok(token) => can_mint(now as int) && encode_utf8(token@) == credential(
            secret,
            minted_claims(id, email, now as int),
        ),
        Err(_) => !can_mint(now as int),
    }
}

/// Whether `result` is what verifying the text at the second `now` comes to.
pub open spec fn is_verification_at(
    secret: Seq<u8>,
    token: Seq<u8>,
    now: i64,
    result: Result<Claims, VerificationError>,
) -> bool {
    match result {
        Ok(claims) => verification(secret, token, now as int) == Ok::<
            ClaimsView,
            VerificationError,
        >(claims@),
        Err(e) => verification(secret, token, now as int) == Err::<ClaimsView, VerificationError>(
            e,
        ),
    }
}

/// A text has one first full stop at most.
proof fn lemma_first_separator_is_unique(token: Seq<u8>, at: int)
    requires
        is_first_separator(token, at),
    ensures
        has_separator(token),
        first_separator(token) == at,
{
    let chosen = first_separator(token);
    assert(is_first_separator(token, chosen));
    if chosen < at {
        assert(token[chosen] != SEPARATOR);
    } else if at < chosen {
        assert(token[at] != SEPARATOR);
    }
}

/// A text put together from a first part without a full stop, a full stop, and
/// a second part comes apart into the same two.
pub proof fn lemma_token_parts(body: Seq<u8>, sig: Seq<u8>)
    requires
        forall|i: int| 0 <= i < body.len() ==> body[i] != SEPARATOR,
    ensures
        has_separator(body + seq![SEPARATOR] + sig),
        token_body(body + seq![SEPARATOR] + sig) == body,
        token_signature(body + seq![SEPARATOR] + sig) == sig,
{
    let token = body + seq![SEPARATOR] + sig;
    assert(is_first_separator(token, body.len() as int));
    lemma_first_separator_is_unique(token, body.len() as int);
    assert(token_body(token) =~= body);
    assert(token_signature(token) =~= sig);
}

/// Bytes below 128 are UTF-8 as they stand.
proof fn lemma_ascii_is_utf8(bytes: Seq<u8>)
    requires
        forall|i: int| 0 <= i < bytes.len() ==> bytes[i] < 128,
    ensures
        valid_utf8(bytes),
{
    let chars = Seq::new(bytes.len(), |i: int| bytes[i] as char);
    assert(is_ascii_chars(chars));
    is_ascii_chars_encode_utf8(chars);
    assert(encode_utf8(chars) =~= bytes);
    encode_utf8_valid_utf8(chars);
}

/// Reading a payload gives back the claims it was laid out from.
pub proof fn lemma_payload_round_trip(claims: ClaimsView)
    ensures
        decode_claims(payload(claims)) == Some(claims),
{
    lemma_auto_spec_u32_to_from_le_bytes();
    lemma_auto_spec_u64_to_from_le_bytes();
    let id = spec_u32_to_le_bytes((claims.id + 0x8000_0000) as u32);
    let iat = spec_u64_to_le_bytes(claims.iat as u64);
    let exp = spec_u64_to_le_bytes(claims.exp as u64);
    let email = encode_utf8(claims.email);
    let bytes = payload(claims);
    assert(bytes.len() == 20 + email.len());
    assert(bytes.subrange(0, 4) =~= id);
    assert(bytes.subrange(4, 12) =~= iat);
    assert(bytes.subrange(12, 20) =~= exp);
    assert(bytes.subrange(20, bytes.len() as int) =~= email);
    encode_utf8_valid_utf8(claims.email);
    encode_utf8_decode_utf8(claims.email);
}

/// A credential is accepted, with the claims it was made for, at every second
/// up to its last good one.
pub proof fn lemma_credential_verifies(secret: Seq<u8>, claims: ClaimsView, now: int)
    requires
        now <= claims.exp,
    ensures
        verification(secret, credential(secret, claims), now) == Ok::<
            ClaimsView,
            VerificationError,
        >(claims),
{
    let body = hex_encode(payload(claims));
    lemma_hex_round_trip(payload(claims));
    lemma_hex_is_plain(body);
    lemma_token_parts(body, signature(secret, payload(claims)));
    lemma_payload_round_trip(claims);
}

/// A freshly minted credential is accepted at the second it was minted, and
/// states the id and the email it was minted for.
pub proof fn lemma_minted_credential_verifies(
    secret: Seq<u8>,
    id: i32,
    email: Seq<char>,
    now: int,
)
    requires
        can_mint(now),
    ensures
        verification(secret, credential(secret, minted_claims(id, email, now)), now) == Ok::<
            ClaimsView,
            VerificationError,
        >(minted_claims(id, email, now)),
        minted_claims(id, email, now).id == id,
        minted_claims(id, email, now).email == email,
{
    lemma_credential_verifies(secret, minted_claims(id, email, now), now);
}

/// A credential whose last good second has passed is turned down as expired,
/// be its signature good or bad.
pub proof fn lemma_expired_is_rejected(secret: Seq<u8>, token: Seq<u8>, now: int)
    requires
        stated_claims(token) matches Some(claims) && claims.exp < now,
    ensures
        verification(secret, token, now) == Err::<ClaimsView, VerificationError>(
            VerificationError::Expired,
        ),
{
}

/// A credential whose signature was replaced by anything else is turned down
/// for its signature, as long as it has not yet expired.
pub proof fn lemma_tampered_signature_is_rejected(
    secret: Seq<u8>,
    claims: ClaimsView,
    forged: Seq<u8>,
    now: int,
)
    requires
        now <= claims.exp,
        forged != signature(secret, payload(claims)),
    ensures
        verification(secret, hex_encode(payload(claims)) + seq![SEPARATOR] + forged, now)
            == Err::<ClaimsView, VerificationError>(VerificationError::SignatureInvalid),
{
    let body = hex_encode(payload(claims));
    lemma_hex_round_trip(payload(claims));
    lemma_hex_is_plain(body);
    lemma_token_parts(body, forged);
    lemma_payload_round_trip(claims);
}

/// Tells whether two texts are the same.
fn same_bytes(a: &[u8], b: &[u8]) -> (same: bool)
    ensures
        same == (a@ == b@),
{
    if a.len() != b.len() {
        return false;
    }
    let mut i: usize = 0;
    while i < a.len()
        invariant
            i <= a.len(),
            a.len() == b.len(),
            forall|j: int| 0 <= j < i ==> a@[j] == b@[j],
        decreases a.len() - i,
    {
        if a[i] != b[i] {
            return false;
        }
        i += 1;
    }
    assert(a@ =~= b@);
    true
}

/// Lays claims out as bytes.
fn encode_payload(claims: &Claims) -> (bytes: Vec<u8>)
    ensures
        bytes@ == payload(claims@),
{
    let mut bytes = u32_to_le_bytes((claims.id as i64 + 0x8000_0000) as u32);
    let mut iat = u64_to_le_bytes(claims.iat as u64);
    let mut exp = u64_to_le_bytes(claims.exp as u64);
    let mut email = claims.email.as_str().as_bytes_vec();
    bytes.append(&mut iat);
    bytes.append(&mut exp);
    bytes.append(&mut email);
    bytes
}

/// Reads claims back from a payload.
fn decode_payload(bytes: &[u8]) -> (claims: Option<Claims>)
    ensures
        match claims {
            Some(c) => decode_claims(bytes@) == Some(c@),
            None => decode_claims(bytes@) is None,
        },
{
    if bytes.len() < 20 {
        return None;
    }
    let id = u32_from_le_bytes(slice_subrange(bytes, 0, 4));
    let iat = u64_from_le_bytes(slice_subrange(bytes, 4, 12));
    let exp = u64_from_le_bytes(slice_subrange(bytes, 12, 20));
    if iat > usize::MAX as u64 || exp > usize::MAX as u64 {
        return None;
    }
    let email = slice_to_vec(slice_subrange(bytes, 20, bytes.len()));
    match string_from_utf8(email) {
        None => None,
        Some(email) => Some(
            Claims {
                exp: exp as usize,
                iat: iat as usize,
                email,
                id: (id as i64 - 0x8000_0000) as i32,
            },
        ),
    }
}

/// Mints the credential that states `id` and `email`, issued at the second
/// `now` and good for a day.
///
/// Fails only when no credential can be minted at that second.
pub fn mint(secret: &[u8], id: i32, email: String, now: i64) -> (result: Result<String, ()>)
    ensures
        is_minting_at(secret@, id, email@, now, result),
{
    if now < 0 || now as u64 > usize::MAX as u64 - TOKEN_LIFETIME_SECS {
        return Err(());
    }
    let claims = Claims {
        exp: (now as u64 + TOKEN_LIFETIME_SECS) as usize,
        iat: now as usize,
        email,
        id,
    };
    let payload = encode_payload(&claims);
    let tag = hmac_sha256(secret, payload.as_slice());
    let mut token = encode_hex(payload.as_slice());
    let mut sig = encode_hex(tag.as_slice());
    token.push(SEPARATOR);
    token.append(&mut sig);
    proof {
        let body = hex_encode(payload@);
        lemma_hex_round_trip(payload@);
        lemma_hex_round_trip(tag@);
        lemma_hex_is_plain(body);
        lemma_hex_is_plain(hex_encode(tag@));
        assert(token@ =~= credential(secret@, claims@));
        lemma_ascii_is_utf8(token@);
        decode_utf8_encode_utf8(token@);
    }
    match string_from_utf8(token) {
        Some(text) => Ok(text),
        None => Err(()),
    }
}

/// Verifies a credential at the second `now`: all of it is accepted, or none.
pub fn verify(secret: &[u8], token: &str, now: i64) -> (result: Result<Claims, VerificationError>)
    ensures
        is_verification_at(secret@, encode_utf8(token@), now, result),
{
    verify_bytes(secret, token.as_bytes(), now)
}

/// Verifies a credential, given as the bytes of its text, at the second `now`.
pub fn verify_bytes(secret: &[u8], bytes: &[u8], now: i64) -> (result: Result<
    Claims,
    VerificationError,
>)
    ensures
        is_verification_at(secret@, bytes@, now, result),
{
    let mut at: usize = 0;
    while at < bytes.len() && bytes[at] != SEPARATOR
        invariant
            at <= bytes.len(),
            forall|j: int| 0 <= j < at ==> bytes@[j] != SEPARATOR,
        decreases bytes.len() - at,
    {
        at += 1;
    }
    if at == bytes.len() {
        return Err(VerificationError::Malformed);
    }
    proof {
        lemma_first_separator_is_unique(bytes@, at as int);
    }
    let body = slice_subrange(bytes, 0, at);
    let sig = slice_subrange(bytes, at + 1, bytes.len());
    let payload = match decode_hex(body) {
        None => {
            return Err(VerificationError::Malformed);
        },
        Some(payload) => payload,
    };
    let claims = match decode_payload(payload.as_slice()) {
        None => {
            return Err(VerificationError::Malformed);
        },
        Some(claims) => claims,
    };
    if now > 0 && now as u64 > claims.exp as u64 {
        return Err(VerificationError::Expired);
    }
    let tag = hmac_sha256(secret, payload.as_slice());
    let expected = encode_hex(tag.as_slice());
    if !same_bytes(sig, expected.as_slice()) {
        return Err(VerificationError::SignatureInvalid);
    }
    Ok(claims)
}

/// Mints a credential for a user at the present second.
///
/// Whatever the clock says, the result is what [`mint`] gives for that second.
pub fn encode_jwt(secret: &[u8], email: String, id: i32) -> (result: Result<String, ()>)
    ensures
        exists|now: i64| is_minting_at(secret@, id, email@, now, result),
{
    let reading = current_time();
    let result = mint(secret, id, email, reading.0);
    assert(is_minting_at(secret@, id, email@, reading.0, result));
    result
}

/// Verifies a credential at the present second.
///
/// Whatever the clock says, the result is what [`verify`] gives for that
/// second.
pub fn decode_jwt(secret: &[u8], token: &str) -> (result: Result<Claims, VerificationError>)
    ensures
        exists|now: i64| is_verification_at(secret@, encode_utf8(token@), now, result),
{
    let reading = current_time();
    let result = verify(secret, token, reading.0);
    assert(is_verification_at(secret@, encode_utf8(token@), reading.0, result));
    result
}

} // verus!
