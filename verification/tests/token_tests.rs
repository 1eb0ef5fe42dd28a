use campus_auth::error::{Error, TokenError};
use campus_auth::oid::ObjectId;
use campus_auth::schema::get_token;
use campus_auth::token::{read_claims, write_claims, Claims, Lifetime, TokenCodec};

const HEADER: &str = "eyJ0eXAiOiJKV1QiLCJhbGciOiJIUzI1NiJ9";

fn sample_id() -> ObjectId {
    ObjectId { timestamp: 0x65f0_12ab, tail: 0x0123_4567_89ab_cdef }
}

fn text(token: &[u8]) -> String {
    String::from_utf8(token.to_vec()).unwrap()
}

fn signed(message: &str, secret: &[u8]) -> String {
    jsonwebtoken::crypto::sign(
        message.as_bytes(),
        &jsonwebtoken::EncodingKey::from_secret(secret),
        jsonwebtoken::Algorithm::HS256,
    )
    .unwrap()
}

/// A token with the given payload text and the right signature.
fn forged(payload: &str, secret: &[u8]) -> Vec<u8> {
    let mut message = String::from(HEADER);
    message.push('.');
    let mut part = Vec::new();
    campus_auth::base64url::encode_into(payload.as_bytes(), &mut part);
    message.push_str(&text(&part));
    let signature = signed(&message, secret);
    format!("{message}.{signature}").into_bytes()
}

#[test]
fn issued_token_validates_to_its_claims() {
    let codec = TokenCodec::new(b"secret".to_vec(), Lifetime::Seconds(3600));
    let token = codec.issue(sample_id(), 1_700_000_000);
    let claims = codec.validate(&token, 1_700_000_100);
    assert_eq!(claims, Ok(Claims { user_id: sample_id(), exp: 1_700_003_600 }));
}

#[test]
fn token_of_another_secret_has_bad_signature() {
    let codec = TokenCodec::new(b"secret".to_vec(), Lifetime::Seconds(3600));
    let other = TokenCodec::new(b"another secret".to_vec(), Lifetime::Seconds(3600));
    let token = codec.issue(sample_id(), 1_700_000_000);
    assert_eq!(other.validate(&token, 1_700_000_100), Err(TokenError::BadSignature));
}

#[test]
fn claims_as_text() {
    let claims = Claims { user_id: sample_id(), exp: 2_000_000_000 };
    assert_eq!(
        text(&write_claims(&claims)),
        "{\"user_id\":{\"$oid\":\"65f012ab0123456789abcdef\"},\"exp\":2000000000}"
    );
    assert_eq!(read_claims(&write_claims(&claims)), Some(claims));
}

#[test]
fn claims_are_read_from_their_own_text_only() {
    let good = "{\"user_id\":{\"$oid\":\"65f012ab0123456789abcdef\"},\"exp\":7}";
    assert_eq!(read_claims(good.as_bytes()), Some(Claims { user_id: sample_id(), exp: 7 }));
    for bad in [
        "",
        "{}",
        "{\"user_id\":{\"$oid\":\"65f012ab0123456789abcdef\"},\"exp\":}",
        "{\"user_id\":{\"$oid\":\"65f012ab0123456789abcdef\"},\"exp\":07}",
        "{\"user_id\":{\"$oid\":\"65f012ab0123456789abcdef\"},\"exp\":7",
        "{\"user_id\":{\"$oid\":\"65f012ab0123456789abcdeg\"},\"exp\":7}",
        "{\"user_id\":{\"$oid\":\"65f012ab0123456789abcdef\"}, \"exp\":7}",
        "{\"exp\":7,\"user_id\":{\"$oid\":\"65f012ab0123456789abcdef\"}}",
        "{\"user_id\":{\"$oid\":\"65f012ab0123456789abcdef\"},\"exp\":18446744073709551616}",
    ] {
        assert_eq!(read_claims(bad.as_bytes()), None, "{bad}");
    }
}

#[test]
fn token_has_the_fixed_header_the_claims_and_the_signature() {
    let codec = TokenCodec::new(b"secret".to_vec(), Lifetime::Seconds(100));
    let token = text(&codec.issue(sample_id(), 1_999_999_900));
    let parts: Vec<&str> = token.split('.').collect();
    assert_eq!(parts.len(), 3);
    assert_eq!(parts[0], HEADER);
    let payload = campus_auth::base64url::decode_text(parts[1].as_bytes()).unwrap();
    assert_eq!(
        text(&payload),
        "{\"user_id\":{\"$oid\":\"65f012ab0123456789abcdef\"},\"exp\":2000000000}"
    );
    let message = format!("{}.{}", parts[0], parts[1]);
    assert_eq!(parts[2], signed(&message, b"secret"));
    assert_ne!(parts[2], message);
    assert_eq!(parts[2].len(), 43);
}

#[test]
fn token_is_read_by_the_signing_crate_itself() {
    let codec = TokenCodec::new(b"secret".to_vec(), Lifetime::Seconds(3600));
    let token = text(&codec.issue(sample_id(), 4_000_000_000));
    let data = jsonwebtoken::decode::<serde_json::Value>(
        &token,
        &jsonwebtoken::DecodingKey::from_secret(b"secret"),
        &jsonwebtoken::Validation::default(),
    )
    .unwrap();
    assert_eq!(data.header.alg, jsonwebtoken::Algorithm::HS256);
    assert_eq!(data.claims["exp"].as_u64(), Some(4_000_003_600));
    assert_eq!(data.claims["user_id"]["$oid"].as_str(), Some("65f012ab0123456789abcdef"));
}

#[test]
fn token_is_valid_up_to_its_expiry_and_expired_after() {
    let codec = TokenCodec::new(b"secret".to_vec(), Lifetime::Seconds(60));
    let token = codec.issue(sample_id(), 1000);
    let claims = Claims { user_id: sample_id(), exp: 1060 };
    assert_eq!(codec.validate(&token, 0), Ok(claims));
    assert_eq!(codec.validate(&token, 1000), Ok(claims));
    assert_eq!(codec.validate(&token, 1060), Ok(claims));
    assert_eq!(codec.validate(&token, 1061), Err(TokenError::Expired));
    assert_eq!(codec.validate(&token, u64::MAX), Err(TokenError::Expired));
}

#[test]
fn token_with_a_changed_signature_is_rejected() {
    let codec = TokenCodec::new(b"secret".to_vec(), Lifetime::Seconds(60));
    let mut token = codec.issue(sample_id(), 1000);
    let last = token.len() - 1;
    token[last] = if token[last] == b'A' { b'B' } else { b'A' };
    assert_eq!(codec.validate(&token, 1000), Err(TokenError::BadSignature));
    let mut cut = codec.issue(sample_id(), 1000);
    cut.pop();
    assert_eq!(codec.validate(&cut, 1000), Err(TokenError::BadSignature));
    let mut longer = codec.issue(sample_id(), 1000);
    longer.extend_from_slice(b".x");
    assert_eq!(codec.validate(&longer, 1000), Err(TokenError::BadSignature));
    let mut not_text = codec.issue(sample_id(), 1000);
    not_text.push(0xff);
    assert_eq!(codec.validate(&not_text, 1000), Err(TokenError::BadSignature));
}

#[test]
fn token_with_changed_claims_is_rejected() {
    let codec = TokenCodec::new(b"secret".to_vec(), Lifetime::Seconds(60));
    let token = text(&codec.issue(sample_id(), 1000));
    let parts: Vec<&str> = token.split('.').collect();
    let other = text(&TokenCodec::new(b"x".to_vec(), Lifetime::Seconds(61)).issue(sample_id(), 1000));
    let later: Vec<&str> = other.split('.').collect();
    let mixed = format!("{}.{}.{}", parts[0], later[1], parts[2]);
    assert_eq!(codec.validate(mixed.as_bytes(), 1000), Err(TokenError::BadSignature));
}

#[test]
fn expired_token_of_another_secret_has_bad_signature() {
    let codec = TokenCodec::new(b"secret".to_vec(), Lifetime::Seconds(60));
    let other = TokenCodec::new(b"another secret".to_vec(), Lifetime::Seconds(60));
    let token = other.issue(sample_id(), 1000);
    assert_eq!(other.validate(&token, 5000), Err(TokenError::Expired));
    assert_eq!(codec.validate(&token, 5000), Err(TokenError::BadSignature));
}

#[test]
fn secrets_that_sign_alike_validate_alike() {
    // An HMAC key is padded with zero bytes, so these two sign alike.
    let codec = TokenCodec::new(b"k".to_vec(), Lifetime::Seconds(60));
    let padded = TokenCodec::new(b"k\0".to_vec(), Lifetime::Seconds(60));
    let token = codec.issue(sample_id(), 1000);
    assert_eq!(padded.validate(&token, 1000), codec.validate(&token, 1000));
}

#[test]
fn string_that_is_no_token_is_malformed() {
    let codec = TokenCodec::new(b"secret".to_vec(), Lifetime::Seconds(60));
    for bad in ["", "abc", "a.b", ".", "..", "a.b.c", "a..c"] {
        assert_eq!(codec.validate(bad.as_bytes(), 0), Err(TokenError::Malformed), "{bad}");
    }
    let wrong_header = format!("{}x.e30.sig", HEADER);
    assert_eq!(codec.validate(wrong_header.as_bytes(), 0), Err(TokenError::Malformed));
}

#[test]
fn frame_is_checked_before_the_signature() {
    let codec = TokenCodec::new(b"secret".to_vec(), Lifetime::Seconds(60));
    let right_header = format!("{}.e30.sig", HEADER);
    assert_eq!(codec.validate(right_header.as_bytes(), 0), Err(TokenError::BadSignature));
    assert_eq!(codec.validate(b"e30.e30.sig", 0), Err(TokenError::Malformed));
}

#[test]
fn signed_payload_that_holds_no_claims_is_malformed() {
    let codec = TokenCodec::new(b"secret".to_vec(), Lifetime::Seconds(60));
    assert_eq!(codec.validate(&forged("{}", b"secret"), 0), Err(TokenError::Malformed));
    assert_eq!(
        codec.validate(&forged("{\"exp\":1,\"user_id\":\"x\"}", b"secret"), 0),
        Err(TokenError::Malformed)
    );
    let message = format!("{}.{}", HEADER, "!!!");
    let token = format!("{}.{}", message, signed(&message, b"secret"));
    assert_eq!(codec.validate(token.as_bytes(), 0), Err(TokenError::Malformed));
}

#[test]
fn signed_claims_of_the_right_text_are_accepted() {
    let codec = TokenCodec::new(b"secret".to_vec(), Lifetime::Seconds(60));
    let token = forged(
        "{\"user_id\":{\"$oid\":\"65f012ab0123456789abcdef\"},\"exp\":2000000000}",
        b"secret",
    );
    assert_eq!(
        codec.validate(&token, 1_900_000_000),
        Ok(Claims { user_id: sample_id(), exp: 2_000_000_000 })
    );
    assert_eq!(codec.validate(&token, 2_000_000_001), Err(TokenError::Expired));
}

#[test]
fn expiry_of_each_kind_of_lifetime() {
    assert_eq!(Lifetime::Seconds(42).expiry_at(100), Some(142));
    assert_eq!(Lifetime::Seconds(0).expiry_at(100), Some(100));
    assert_eq!(Lifetime::Seconds(1).expiry_at(u64::MAX - 1), Some(u64::MAX));
    assert_eq!(Lifetime::Seconds(1).expiry_at(u64::MAX), None);
    assert_eq!(Lifetime::Until(2_000_000_000).expiry_at(100), Some(2_000_000_000));
    assert_eq!(Lifetime::Until(2_000_000_000).expiry_at(2_000_000_000), Some(2_000_000_000));
    assert_eq!(Lifetime::Until(2_000_000_000).expiry_at(2_000_000_001), None);
    let codec = TokenCodec::new(b"s".to_vec(), Lifetime::Seconds(42));
    assert_eq!(codec.expiry_at(100), Some(142));
}

#[test]
fn token_with_a_fixed_expiry() {
    let codec = TokenCodec::new(b"secret".to_vec(), Lifetime::Until(2_000_000_000));
    let claims = Claims { user_id: sample_id(), exp: 2_000_000_000 };
    for now in [0, 1_700_000_000, 2_000_000_000] {
        let token = codec.issue(sample_id(), now);
        assert_eq!(codec.validate(&token, now), Ok(claims));
        assert_eq!(codec.validate(&token, 2_000_000_000), Ok(claims));
        assert_eq!(codec.validate(&token, 2_000_000_001), Err(TokenError::Expired));
        assert_eq!(get_token(sample_id(), now, &codec), Ok(token));
    }
    assert_eq!(get_token(sample_id(), 2_000_000_001, &codec), Err(Error::MiscError));
}

#[test]
fn get_token_issues_unless_the_expiry_overflows() {
    let codec = TokenCodec::new(b"secret".to_vec(), Lifetime::Seconds(3600));
    let token = get_token(sample_id(), 1_700_000_000, &codec).unwrap();
    assert_eq!(token, codec.issue(sample_id(), 1_700_000_000));
    assert_eq!(
        codec.validate(&token, 1_700_000_000),
        Ok(Claims { user_id: sample_id(), exp: 1_700_003_600 })
    );
    assert_eq!(get_token(sample_id(), u64::MAX - 3599, &codec), Err(Error::MiscError));
    assert!(get_token(sample_id(), u64::MAX - 3600, &codec).is_ok());
}
