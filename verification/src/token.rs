//! Signed identity tokens: three parts joined by dots. The first is a fixed
//! header, the second the claims, both as base64 text of JSON, and the third
//! the signature of the first two under a secret.

use crate::base64url::{decode, decode_text, encode, encode_into, is_text, lemma_encode_is_text};
use crate::bytes::{ascii, push_all, same_bytes};
use crate::decimal::{
    decimal, lemma_decimal_round_trip, lemma_decimal_shape, parse_decimal_u64, read_decimal,
    write_decimal,
};
use crate::error::TokenError;
use crate::oid::{lemma_object_id_round_trip, parse_object_id, ObjectId};
use vstd::prelude::*;
use vstd::slice::slice_subrange;
use vstd::string::is_ascii_spec_bytes;

verus! {

/// What a token asserts: who its bearer is, and until when, in seconds of
/// Unix time.
#[derive(Clone, Copy, Debug, PartialEq, Eq, Structural)]
pub struct Claims {
    pub user_id: ObjectId,
    pub exp: u64,
}

/// What stands before the user id in the text of claims.
pub open spec fn claims_prefix() -> Seq<u8> {
    ascii("{\"user_id\":{\"$oid\":\""@)
}

/// What stands between the user id and the expiry.
pub open spec fn claims_middle() -> Seq<u8> {
    ascii("\"},\"exp\":"@)
}

/// The text of claims: a JSON object that holds the user id, as an object
/// with its hex digits under `$oid`, and then the expiry.
pub open spec fn claims_text(claims: Claims) -> Seq<u8> {
    claims_prefix() + claims.user_id.hex() + claims_middle() + decimal(claims.exp as nat)
        + seq![125u8]
}

/// The claims that `text` holds, if it is the text of claims.
pub open spec fn parse_claims(text: Seq<u8>) -> Option<Claims> {
    if text.len() < 55 || text.subrange(0, 20) != claims_prefix() || text.subrange(44, 53)
        != claims_middle() || text.last() != 125 {
        None
    } else {
        match (
            parse_object_id(text.subrange(20, 44)),
            parse_decimal_u64(text.subrange(53, text.len() - 1)),
        ) {
            (Some(user_id), Some(exp)) => Some(Claims { user_id, exp }),
            _ => None,
        }
    }
}

/// The JSON of the header that every token has.
pub open spec fn header_json() -> Seq<u8> {
    ascii("{\"typ\":\"JWT\",\"alg\":\"HS256\"}"@)
}

/// The first part of every token.
pub open spec fn header_text() -> Seq<u8> {
    encode(header_json())
}

/// What is signed: the header and the claims, joined by a dot.
pub open spec fn message(claims: Claims) -> Seq<u8> {
    header_text() + seq![46u8] + encode(claims_text(claims))
}

/// The signature of `message` under `secret`, as `jsonwebtoken` writes it:
/// the text of the message's HMAC-SHA256.
pub uninterp spec fn hs256_signature(message: Seq<u8>, secret: Seq<u8>) -> Seq<u8>;

/// The token that asserts `claims` under `secret`.
pub open spec fn token_text(claims: Claims, secret: Seq<u8>) -> Seq<u8> {
    message(claims) + seq![46u8] + hs256_signature(message(claims), secret)
}

/// The number of bytes of `text` before its first dot; the length of
/// `text` if it has none.
pub open spec fn dot_index(text: Seq<u8>) -> int
    decreases text.len(),
{
    if text.len() == 0 || text[0] == 46 {
        0
    } else {
        1 + dot_index(text.skip(1))
    }
}

/// The parts of a token.
pub ghost struct Parts {
    pub header: Seq<u8>,
    pub payload: Seq<u8>,
    pub signature: Seq<u8>,
    /// What the signature is of: the header, a dot, and the payload.
    pub message: Seq<u8>,
}

/// `token` cut at its first two dots. What follows the second dot is the
/// signature, whatever it holds.
pub open spec fn split(token: Seq<u8>) -> Option<Parts> {
    let i = dot_index(token);
    if i >= token.len() {
        None
    } else {
        let rest = token.skip(i + 1);
        let j = dot_index(rest);
        if j >= rest.len() {
            None
        } else {
            Some(
                Parts {
                    header: token.take(i),
                    payload: rest.take(j),
                    signature: rest.skip(j + 1),
                    message: token.take(i + 1 + j),
                },
            )
        }
    }
}

/// The parts of `token`, if it has three and the first is the header.
pub open spec fn framed(token: Seq<u8>) -> Option<Parts> {
    match split(token) {
        Some(parts) if parts.header == header_text() => Some(parts),
        _ => None,
    }
}

/// The signature among `parts` is the one that `secret` gives.
pub open spec fn signed(parts: Parts, secret: Seq<u8>) -> bool {
    parts.signature == hs256_signature(parts.message, secret)
}

/// The claims that the payload among `parts` holds, if it holds any.
pub open spec fn carried(parts: Parts) -> Option<Claims> {
    match decode(parts.payload) {
        Some(json) => parse_claims(json),
        None => None,
    }
}

/// What checking `token` against `secret` at time `now` gives. The frame
/// is checked first, then the signature, then the claims, then the expiry.
pub open spec fn validate_spec(token: Seq<u8>, secret: Seq<u8>, now: u64) -> Result<
    Claims,
    TokenError,
> {
    match framed(token) {
        None => Err(TokenError::Malformed),
        Some(parts) => if !signed(parts, secret) {
            Err(TokenError::BadSignature)
        } else {
            match carried(parts) {
                None => Err(TokenError::Malformed),
                Some(claims) => if claims.exp < now {
                    Err(TokenError::Expired)
                } else {
                    Ok(claims)
                },
            }
        },
    }
}

/// The lengths of the fixed texts.
pub proof fn lemma_fixed_texts()
    ensures
        claims_prefix().len() == 20,
        claims_middle().len() == 9,
        header_json().len() == 27,
{
    reveal_strlit("{\"user_id\":{\"$oid\":\"");
    reveal_strlit("\"},\"exp\":");
    reveal_strlit("{\"typ\":\"JWT\",\"alg\":\"HS256\"}");
}

/// Reading the text of claims gives the claims.
pub proof fn lemma_claims_round_trip(claims: Claims)
    ensures
        parse_claims(claims_text(claims)) == Some(claims),
{
    let text = claims_text(claims);
    let digits = decimal(claims.exp as nat);
    lemma_fixed_texts();
    lemma_object_id_round_trip(claims.user_id);
    lemma_decimal_shape(claims.exp as nat);
    lemma_decimal_round_trip(claims.exp as nat);
    assert(text.len() == 54 + digits.len());
    assert(text.subrange(0, 20) =~= claims_prefix());
    assert(text.subrange(20, 44) =~= claims.user_id.hex());
    assert(text.subrange(44, 53) =~= claims_middle());
    assert(text.subrange(53, text.len() - 1) =~= digits);
    assert(text.last() == 125);
}

/// No byte of `text` is a dot.
pub open spec fn dot_free(text: Seq<u8>) -> bool {
    forall|k: int| 0 <= k < text.len() ==> text[k] != 46
}

/// The first dot of a dot-free text, a dot and more text is the dot
/// between them.
pub proof fn lemma_dot_index_join(head: Seq<u8>, tail: Seq<u8>)
    requires
        dot_free(head),
    ensures
        dot_index(head + seq![46u8] + tail) == head.len(),
    decreases head.len(),
{
    let text = head + seq![46u8] + tail;
    if head.len() == 0 {
        assert(text[0] == 46);
    } else {
        assert(text[0] == head[0]);
        assert(text.skip(1) =~= head.skip(1) + seq![46u8] + tail);
        assert forall|k: int| 0 <= k < head.skip(1).len() implies head.skip(1)[k] != 46 by {
            assert(head.skip(1)[k] == head[k + 1]);
        }
        lemma_dot_index_join(head.skip(1), tail);
    }
}

/// A header and a payload without dots, joined with a signature by dots,
/// are found again by `split`.
pub proof fn lemma_split_join(header: Seq<u8>, payload: Seq<u8>, signature: Seq<u8>)
    requires
        dot_free(header),
        dot_free(payload),
    ensures
        split(header + seq![46u8] + payload + seq![46u8] + signature) == Some(
            Parts { header, payload, signature, message: header + seq![46u8] + payload },
        ),
{
    let token = header + seq![46u8] + payload + seq![46u8] + signature;
    let after = payload + seq![46u8] + signature;
    assert(token =~= header + seq![46u8] + after);
    lemma_dot_index_join(header, after);
    lemma_dot_index_join(payload, signature);
    let i = dot_index(token);
    let rest = token.skip(i + 1);
    assert(rest =~= after);
    let j = dot_index(rest);
    assert(token.take(i) =~= header);
    assert(rest.take(j) =~= payload);
    assert(rest.skip(j + 1) =~= signature);
    assert(token.take(i + 1 + j) =~= header + seq![46u8] + payload);
}

/// Text of the base64 alphabet holds no dot.
pub proof fn lemma_text_dot_free(text: Seq<u8>)
    requires
        is_text(text),
    ensures
        dot_free(text),
{
    assert forall|k: int| 0 <= k < text.len() implies text[k] != 46 by {
        assert(crate::base64url::symbol_value(text[k]) is Some);
    }
}

/// The token for `claims` has three parts: the header, the text of the
/// claims, and their signature.
pub proof fn lemma_token_parts(claims: Claims, secret: Seq<u8>)
    ensures
        framed(token_text(claims, secret)) == Some(
            Parts {
                header: header_text(),
                payload: encode(claims_text(claims)),
                signature: hs256_signature(message(claims), secret),
                message: message(claims),
            },
        ),
        carried(framed(token_text(claims, secret))->Some_0) == Some(claims),
{
    let payload = encode(claims_text(claims));
    lemma_encode_is_text(header_json());
    lemma_encode_is_text(claims_text(claims));
    lemma_text_dot_free(header_text());
    lemma_text_dot_free(payload);
    lemma_split_join(header_text(), payload, hs256_signature(message(claims), secret));
    crate::base64url::lemma_round_trip(claims_text(claims));
    lemma_claims_round_trip(claims);
}

/// A token that was made for `claims` under a secret validates under the
/// same secret to these claims, at every time up to their expiry, and is
/// expired after it.
pub proof fn lemma_issue_then_validate(claims: Claims, secret: Seq<u8>, now: u64)
    ensures
        validate_spec(token_text(claims, secret), secret, now) == if claims.exp < now {
            Err::<Claims, TokenError>(TokenError::Expired)
        } else {
            Ok(claims)
        },
{
    lemma_token_parts(claims, secret);
}

/// A token that was made for `claims` validates to them at every time up to
/// their expiry.
pub proof fn lemma_valid_until_expiry(claims: Claims, secret: Seq<u8>)
    ensures
        forall|at: u64|
            at <= claims.exp ==> #[trigger] validate_spec(token_text(claims, secret), secret, at)
                == Ok::<Claims, TokenError>(claims),
{
    assert forall|at: u64| at <= claims.exp implies #[trigger] validate_spec(
        token_text(claims, secret),
        secret,
        at,
    ) == Ok::<Claims, TokenError>(claims) by {
        lemma_issue_then_validate(claims, secret, at);
    }
}

/// A well-framed token with the right signature whose claims expire before
/// `now` is rejected as expired.
pub proof fn lemma_expired(token: Seq<u8>, secret: Seq<u8>, now: u64)
    ensures
        (framed(token) matches Some(parts) && signed(parts, secret) && (carried(parts) matches Some(
            claims,
        ) && claims.exp < now)) ==> validate_spec(token, secret, now) == Err::<Claims, TokenError>(
            TokenError::Expired,
        ),
{
}

/// A well-framed token whose signature is not the one that `secret` gives
/// is rejected for its signature, whatever it claims and whenever it is
/// checked.
pub proof fn lemma_bad_signature(token: Seq<u8>, secret: Seq<u8>, now: u64)
    ensures
        (framed(token) matches Some(parts) && !signed(parts, secret)) ==> validate_spec(
            token,
            secret,
            now,
        ) == Err::<Claims, TokenError>(TokenError::BadSignature),
{
}

/// A token made under one secret is rejected for its signature under every
/// secret that signs its message differently.
pub proof fn lemma_other_secret(claims: Claims, secret: Seq<u8>, other: Seq<u8>, now: u64)
    ensures
        hs256_signature(message(claims), other) != hs256_signature(message(claims), secret)
            ==> validate_spec(token_text(claims, secret), other, now) == Err::<Claims, TokenError>(
            TokenError::BadSignature,
        ),
{
    lemma_token_parts(claims, secret);
}

/// Calls `jsonwebtoken::crypto::sign` with a key made by
/// `EncodingKey::from_secret` and the algorithm HS256. For that algorithm
/// the call always succeeds: it returns the base64 text of the HMAC of
/// `message`. The contract names that text and claims that it is there.
#[verifier::external_body]
fn sign_hs256(message: &[u8], secret: &[u8]) -> (signature: Option<Vec<u8>>)
    ensures
        signature is Some,
        signature->Some_0@ == hs256_signature(message@, secret@),
{
    let key = jsonwebtoken::EncodingKey::from_secret(secret);
    jsonwebtoken::crypto::sign(message, &key, jsonwebtoken::Algorithm::HS256).ok().map(
        String::into_bytes,
    )
}

/// Calls `jsonwebtoken::crypto::verify` with a key made by
/// `DecodingKey::from_secret` and the algorithm HS256. For that algorithm
/// the call signs `message` again and compares the two signatures in
/// constant time, so it tells whether `signature` is the text that signing
/// gives. A `signature` that is no UTF-8 text is none that signing gives.
#[verifier::external_body]
fn verify_hs256(signature: &[u8], message: &[u8], secret: &[u8]) -> (good: bool)
    ensures
        good == (signature@ == hs256_signature(message@, secret@)),
{
    let key = jsonwebtoken::DecodingKey::from_secret(secret);
    match core::str::from_utf8(signature) {
        Ok(text) => matches!(
            jsonwebtoken::crypto::verify(text, message, &key, jsonwebtoken::Algorithm::HS256),
            Ok(true)
        ),
        Err(_) => false,
    }
}

fn claims_prefix_bytes() -> (bytes: &'static [u8])
    ensures
        bytes@ == claims_prefix(),
{
    let text = "{\"user_id\":{\"$oid\":\"";
    proof {
        reveal_strlit("{\"user_id\":{\"$oid\":\"");
        assert(text.is_ascii());
        is_ascii_spec_bytes(text);
    }
    text.as_bytes()
}

fn claims_middle_bytes() -> (bytes: &'static [u8])
    ensures
        bytes@ == claims_middle(),
{
    let text = "\"},\"exp\":";
    proof {
        reveal_strlit("\"},\"exp\":");
        assert(text.is_ascii());
        is_ascii_spec_bytes(text);
    }
    text.as_bytes()
}

fn header_json_bytes() -> (bytes: &'static [u8])
    ensures
        bytes@ == header_json(),
{
    let text = "{\"typ\":\"JWT\",\"alg\":\"HS256\"}";
    proof {
        reveal_strlit("{\"typ\":\"JWT\",\"alg\":\"HS256\"}");
        assert(text.is_ascii());
        is_ascii_spec_bytes(text);
    }
    text.as_bytes()
}

/// The text of `claims`.
pub fn write_claims(claims: &Claims) -> (text: Vec<u8>)
    ensures
        text@ == claims_text(*claims),
{
    let mut text: Vec<u8> = Vec::new();
    push_all(&mut text, claims_prefix_bytes());
    let mut id = claims.user_id.to_hex();
    text.append(&mut id);
    push_all(&mut text, claims_middle_bytes());
    write_decimal(claims.exp, &mut text);
    text.push(125);
    text
}

/// The claims that `text` holds, if it is the text of claims.
pub fn read_claims(text: &[u8]) -> (claims: Option<Claims>)
    ensures
        claims == parse_claims(text@),
{
    let len: usize = text.len();
    proof {
        lemma_fixed_texts();
    }
    if len < 55 {
        return None;
    }
    if !same_bytes(slice_subrange(text, 0, 20), claims_prefix_bytes()) {
        return None;
    }
    if !same_bytes(slice_subrange(text, 44, 53), claims_middle_bytes()) {
        return None;
    }
    if text[len - 1] != 125 {
        return None;
    }
    let user_id = ObjectId::parse_str(slice_subrange(text, 20, 44));
    let exp = read_decimal(slice_subrange(text, 53, len - 1));
    match (user_id, exp) {
        (Some(user_id), Some(exp)) => Some(Claims { user_id, exp }),
        _ => None,
    }
}

/// The index of the first dot of `text` at or after `from`; the length of
/// `text` if there is none.
fn find_dot(text: &[u8], from: usize) -> (at: usize)
    requires
        from <= text@.len(),
    ensures
        at == from + dot_index(text@.skip(from as int)),
        from <= at <= text@.len(),
{
    let mut i: usize = from;
    while i < text.len() && text[i] != 46
        invariant
            from <= i <= text@.len(),
            dot_index(text@.skip(from as int)) == (i - from) + dot_index(text@.skip(i as int)),
        decreases text@.len() - i,
    {
        proof {
            assert(text@.skip(i as int).skip(1) =~= text@.skip(i + 1));
        }
        i = i + 1;
    }
    i
}

/// What is signed for `claims`.
fn signed_part(claims: &Claims) -> (text: Vec<u8>)
    ensures
        text@ == message(*claims),
{
    let mut text: Vec<u8> = Vec::new();
    encode_into(header_json_bytes(), &mut text);
    text.push(46);
    let json = write_claims(claims);
    encode_into(json.as_slice(), &mut text);
    text
}

/// When the tokens of a codec expire.
#[derive(Clone, Copy, Debug, PartialEq, Eq, Structural)]
pub enum Lifetime {
    /// This many seconds after they are issued.
    Seconds(u64),
    /// At this second of Unix time, whenever they are issued.
    Until(u64),
}

impl Lifetime {
    /// The expiry of a token that is issued at `now`. There is none where
    /// the clock cannot hold it, or where it would lie before `now`.
    pub open spec fn expiry(self, now: u64) -> Option<u64> {
        match self {
            Lifetime::Seconds(ttl) => if now + ttl <= u64::MAX {
                Some((now + ttl) as u64)
            } else {
                None
            },
            Lifetime::Until(end) => if now <= end {
                Some(end)
            } else {
                None
            },
        }
    }

    /// The expiry of a token that is issued at `now`, if there is one.
    pub fn expiry_at(&self, now: u64) -> (expiry: Option<u64>)
        ensures
            expiry == self.expiry(now),
            expiry matches Some(exp) ==> now <= exp,
    {
        match self {
            Lifetime::Seconds(ttl) => if now > u64::MAX - *ttl {
                None
            } else {
                Some(now + *ttl)
            },
            Lifetime::Until(end) => if now <= *end {
                Some(*end)
            } else {
                None
            },
        }
    }
}

/// Issues and checks tokens under one secret, which it keeps to itself.
pub struct TokenCodec {
    secret: Vec<u8>,
    lifetime: Lifetime,
}

impl TokenCodec {
    /// The secret that tokens are signed with.
    pub closed spec fn secret(&self) -> Seq<u8> {
        self.secret@
    }

    /// When the tokens that are issued expire.
    pub closed spec fn lifetime(&self) -> Lifetime {
        self.lifetime
    }

    /// A codec for the process's secret and token lifetime.
    pub fn new(secret: Vec<u8>, lifetime: Lifetime) -> (codec: Self)
        ensures
            codec.secret() == secret@,
            codec.lifetime() == lifetime,
    {
        TokenCodec { secret, lifetime }
    }

    /// The expiry of a token that is issued at `now`, if there is one.
    pub fn expiry_at(&self, now: u64) -> (expiry: Option<u64>)
        ensures
            expiry == self.lifetime().expiry(now),
    {
        self.lifetime.expiry_at(now)
    }

    /// The claims of a token that is issued for `user_id` at time `now`,
    /// where there is an expiry for it.
    pub open spec fn claims_at(&self, user_id: ObjectId, now: u64) -> Claims {
        Claims { user_id, exp: self.lifetime().expiry(now)->Some_0 }
    }

    /// A token for `user_id`, issued at `now`. Checked under the same
    /// secret at any time up to its expiry, and so at `now`, it gives its
    /// claims again.
    pub fn issue(&self, user_id: ObjectId, now: u64) -> (token: Vec<u8>)
        requires
            self.lifetime().expiry(now) is Some,
        ensures
            token@ == token_text(self.claims_at(user_id, now), self.secret()),
            validate_spec(token@, self.secret(), now) == Ok::<Claims, TokenError>(
                self.claims_at(user_id, now),
            ),
            forall|at: u64|
                at <= self.claims_at(user_id, now).exp ==> #[trigger] validate_spec(
                    token@,
                    self.secret(),
                    at,
                ) == Ok::<Claims, TokenError>(self.claims_at(user_id, now)),
    {
        let exp = match self.lifetime.expiry_at(now) {
            Some(exp) => exp,
            None => vstd::pervasive::unreached(),
        };
        let claims = Claims { user_id, exp };
        let mut token = signed_part(&claims);
        match sign_hs256(token.as_slice(), self.secret.as_slice()) {
            Some(mut signature) => {
                token.push(46);
                token.append(&mut signature);
            },
            None => {},
        }
        proof {
            lemma_valid_until_expiry(claims, self.secret());
        }
        token
    }

    /// Checks `token` at time `now`: its frame, its signature, its claims
    /// and its expiry, in this order.
    pub fn validate(&self, token: &[u8], now: u64) -> (checked: Result<Claims, TokenError>)
        ensures
            checked == validate_spec(token@, self.secret(), now),
    {
        let len: usize = token.len();
        proof {
            assert(token@.skip(0) =~= token@);
        }
        let first: usize = find_dot(token, 0);
        if first >= len {
            return Err(TokenError::Malformed);
        }
        let second: usize = find_dot(token, first + 1);
        if second >= len {
            return Err(TokenError::Malformed);
        }
        let header = slice_subrange(token, 0, first);
        let payload = slice_subrange(token, first + 1, second);
        let signature = slice_subrange(token, second + 1, len);
        let signed_part = slice_subrange(token, 0, second);
        proof {
            let rest = token@.skip(first + 1);
            let j = dot_index(rest);
            assert(second == first + 1 + j);
            assert(header@ =~= token@.take(first as int));
            assert(payload@ =~= rest.take(j));
            assert(signature@ =~= rest.skip(j + 1));
            assert(signed_part@ =~= token@.take(first + 1 + j));
        }
        let mut expected: Vec<u8> = Vec::new();
        encode_into(header_json_bytes(), &mut expected);
        if !same_bytes(header, expected.as_slice()) {
            return Err(TokenError::Malformed);
        }
        if !verify_hs256(signature, signed_part, self.secret.as_slice()) {
            return Err(TokenError::BadSignature);
        }
        let json = match decode_text(payload) {
            Some(json) => json,
            None => {
                return Err(TokenError::Malformed);
            },
        };
        match read_claims(json.as_slice()) {
            None => Err(TokenError::Malformed),
            Some(claims) => if claims.exp < now {
                Err(TokenError::Expired)
            } else {
                Ok(claims)
            },
        }
    }
}

} // verus!
