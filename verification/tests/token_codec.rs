use blog_backend::jwt::{
    check_payload, generate_jwt, generate_jwt_at, issued_token, validate_jwt, validate_jwt_at,
    JwtError, JwtFault, Payload, TOKEN_VALIDITY_SECS,
};

const SECRET: &[u8] = b"a secret for the tests";
const OTHER_SECRET: &[u8] = b"another secret";
const T0: i64 = 1_700_000_000;

fn craft(claims: serde_json::Map<String, serde_json::Value>, header: jsonwebtoken::Header) -> String {
    jsonwebtoken::encode(&header, &claims, &jsonwebtoken::EncodingKey::from_secret(SECRET)).unwrap()
}

fn fault_of(token: &str, secret: &[u8], now: i64) -> JwtFault {
    match validate_jwt_at(token, secret, now) {
        Ok(claims) => panic!("accepted: {:?}", claims),
        Err(JwtError(fault)) => fault,
    }
}

#[test]
fn validity_is_24_hours() {
    assert_eq!(TOKEN_VALIDITY_SECS, 24 * 60 * 60);
}

#[test]
fn issued_token_verifies_with_its_subject() {
    let token = generate_jwt_at("alice", SECRET, T0).unwrap();
    let claims = validate_jwt_at(&token, SECRET, T0).unwrap();
    assert_eq!(claims.sub, "alice");
    assert_eq!(claims.exp, 1_700_086_400);
}

#[test]
fn issued_token_is_not_its_subject() {
    let token = generate_jwt_at("alice", SECRET, T0).unwrap();
    assert_ne!(token, "alice");
    assert_eq!(token.matches('.').count(), 2);
}

#[test]
fn token_is_what_the_encoder_gives_for_the_two_claims() {
    let mut claims = serde_json::Map::new();
    claims.insert("sub".to_string(), serde_json::Value::from("alice"));
    claims.insert("exp".to_string(), serde_json::Value::from(1_700_086_400u64));
    let expected = craft(claims, jsonwebtoken::Header::default());
    assert_eq!(generate_jwt_at("alice", SECRET, T0).unwrap(), expected);
}

#[test]
fn issuing_twice_at_one_instant_gives_one_token() {
    let a = generate_jwt_at("alice", SECRET, T0).unwrap();
    let b = generate_jwt_at("alice", SECRET, T0).unwrap();
    assert_eq!(a, b);
    assert_ne!(a, generate_jwt_at("bob", SECRET, T0).unwrap());
    assert_ne!(a, generate_jwt_at("alice", SECRET, T0 + 1).unwrap());
    assert_ne!(a, generate_jwt_at("alice", OTHER_SECRET, T0).unwrap());
}

#[test]
fn token_is_accepted_one_second_before_expiry() {
    let token = generate_jwt_at("alice", SECRET, T0).unwrap();
    let claims = validate_jwt_at(&token, SECRET, T0 + 86_400 - 1).unwrap();
    assert_eq!(claims.sub, "alice");
}

#[test]
fn token_is_refused_at_expiry() {
    let token = generate_jwt_at("alice", SECRET, T0).unwrap();
    assert_eq!(fault_of(&token, SECRET, T0 + 86_400), JwtFault::Expired);
}

#[test]
fn token_is_refused_one_second_after_expiry() {
    let token = generate_jwt_at("alice", SECRET, T0).unwrap();
    assert_eq!(fault_of(&token, SECRET, T0 + 86_400 + 1), JwtFault::Expired);
}

#[test]
fn token_is_accepted_before_it_was_issued() {
    let token = generate_jwt_at("alice", SECRET, T0).unwrap();
    assert!(validate_jwt_at(&token, SECRET, 0).is_ok());
    assert!(validate_jwt_at(&token, SECRET, -5).is_ok());
    assert!(validate_jwt_at(&token, SECRET, i64::MIN).is_ok());
}

#[test]
fn changing_any_byte_of_a_token_is_detected() {
    let token = generate_jwt_at("alice", SECRET, T0).unwrap();
    assert!(token.is_ascii());
    for i in 0..token.len() {
        for replacement in [b'A', b'z', b'.', b'-', b'0'] {
            let mut bytes = token.clone().into_bytes();
            if bytes[i] == replacement {
                continue;
            }
            bytes[i] = replacement;
            let changed = String::from_utf8(bytes).unwrap();
            let fault = fault_of(&changed, SECRET, T0);
            assert!(
                fault == JwtFault::Signature || fault == JwtFault::Malformed,
                "byte {} as {}: {:?}",
                i,
                replacement,
                fault
            );
        }
    }
}

#[test]
fn dropping_or_adding_a_byte_is_detected() {
    let token = generate_jwt_at("alice", SECRET, T0).unwrap();
    let shorter = &token[..token.len() - 1];
    assert_eq!(fault_of(shorter, SECRET, T0), JwtFault::Signature);
    let longer = format!("{}A", token);
    assert_eq!(fault_of(&longer, SECRET, T0), JwtFault::Signature);
}

#[test]
fn wrong_secret_is_a_signature_fault() {
    let token = generate_jwt_at("alice", SECRET, T0).unwrap();
    assert_eq!(fault_of(&token, OTHER_SECRET, T0), JwtFault::Signature);
}

#[test]
fn signature_is_checked_before_expiry() {
    let token = generate_jwt_at("alice", SECRET, T0).unwrap();
    assert_eq!(fault_of(&token, OTHER_SECRET, T0 + 100_000), JwtFault::Signature);
}

#[test]
fn text_that_is_no_token_is_malformed() {
    assert_eq!(fault_of("", SECRET, T0), JwtFault::Malformed);
    assert_eq!(fault_of("alice", SECRET, T0), JwtFault::Malformed);
    assert_eq!(fault_of("a.b", SECRET, T0), JwtFault::Malformed);
    assert_eq!(fault_of("a.b.c", SECRET, T0), JwtFault::Malformed);
    assert_eq!(fault_of("a.b.c.d", SECRET, T0), JwtFault::Malformed);
}

#[test]
fn token_without_subject_is_malformed() {
    let mut claims = serde_json::Map::new();
    claims.insert("exp".to_string(), serde_json::Value::from(1_700_086_400u64));
    let token = craft(claims, jsonwebtoken::Header::default());
    assert_eq!(fault_of(&token, SECRET, T0), JwtFault::Malformed);
}

#[test]
fn token_without_expiry_is_malformed() {
    let mut claims = serde_json::Map::new();
    claims.insert("sub".to_string(), serde_json::Value::from("alice"));
    let token = craft(claims, jsonwebtoken::Header::default());
    assert_eq!(fault_of(&token, SECRET, T0), JwtFault::Malformed);
}

#[test]
fn token_with_claims_of_the_wrong_type_is_malformed() {
    let mut claims = serde_json::Map::new();
    claims.insert("sub".to_string(), serde_json::Value::from(7u64));
    claims.insert("exp".to_string(), serde_json::Value::from(1_700_086_400u64));
    let token = craft(claims, jsonwebtoken::Header::default());
    assert_eq!(fault_of(&token, SECRET, T0), JwtFault::Malformed);

    let mut claims = serde_json::Map::new();
    claims.insert("sub".to_string(), serde_json::Value::from("alice"));
    claims.insert("exp".to_string(), serde_json::Value::from("tomorrow"));
    let token = craft(claims, jsonwebtoken::Header::default());
    assert_eq!(fault_of(&token, SECRET, T0), JwtFault::Malformed);

    let mut claims = serde_json::Map::new();
    claims.insert("sub".to_string(), serde_json::Value::from("alice"));
    claims.insert("exp".to_string(), serde_json::Value::from(-1i64));
    let token = craft(claims, jsonwebtoken::Header::default());
    assert_eq!(fault_of(&token, SECRET, T0), JwtFault::Malformed);
}

#[test]
fn token_under_another_algorithm_is_malformed() {
    let mut claims = serde_json::Map::new();
    claims.insert("sub".to_string(), serde_json::Value::from("alice"));
    claims.insert("exp".to_string(), serde_json::Value::from(1_700_086_400u64));
    let token = craft(claims, jsonwebtoken::Header::new(jsonwebtoken::Algorithm::HS384));
    assert_eq!(fault_of(&token, SECRET, T0), JwtFault::Malformed);
}

#[test]
fn further_claims_are_passed_over() {
    let mut claims = serde_json::Map::new();
    claims.insert("sub".to_string(), serde_json::Value::from("alice"));
    claims.insert("exp".to_string(), serde_json::Value::from(1_700_086_400u64));
    claims.insert("role".to_string(), serde_json::Value::from("admin"));
    let token = craft(claims, jsonwebtoken::Header::default());
    let claims = validate_jwt_at(&token, SECRET, T0).unwrap();
    assert_eq!(claims.sub, "alice");
    assert_eq!(claims.exp, 1_700_086_400);
}

#[test]
fn subject_of_any_characters_comes_back() {
    let subject = "\u{e5}lice \"q\" \\ \n\t\u{0} \u{1F980} Bearer ";
    let token = generate_jwt_at(subject, SECRET, T0).unwrap();
    let claims = validate_jwt_at(&token, SECRET, T0).unwrap();
    assert_eq!(claims.sub, subject);
    let token = generate_jwt_at("", SECRET, T0).unwrap();
    assert_eq!(validate_jwt_at(&token, SECRET, T0).unwrap().sub, "");
}

#[test]
fn empty_secret_signs_and_verifies() {
    let token = generate_jwt_at("alice", b"", T0).unwrap();
    assert_eq!(validate_jwt_at(&token, b"", T0).unwrap().sub, "alice");
    assert_eq!(fault_of(&token, SECRET, T0), JwtFault::Signature);
}

#[test]
fn issuing_before_the_epoch_fails_on_the_clock() {
    assert_eq!(generate_jwt_at("alice", SECRET, -1), Err(JwtError(JwtFault::Clock)));
    assert_eq!(generate_jwt_at("alice", SECRET, i64::MIN), Err(JwtError(JwtFault::Clock)));
}

#[test]
fn issuing_at_the_epoch_expires_a_day_later() {
    let token = generate_jwt_at("alice", SECRET, 0).unwrap();
    assert_eq!(validate_jwt_at(&token, SECRET, 0).unwrap().exp, 86_400);
    assert_eq!(fault_of(&token, SECRET, 86_400), JwtFault::Expired);
}

#[test]
fn issuing_at_the_last_instant_of_the_clock() {
    let outcome = generate_jwt_at("alice", SECRET, i64::MAX);
    if (usize::MAX as u128) < i64::MAX as u128 + 86_400 {
        assert_eq!(outcome, Err(JwtError(JwtFault::Clock)));
    } else {
        let claims = validate_jwt_at(&outcome.unwrap(), SECRET, i64::MAX).unwrap();
        assert_eq!(claims.exp as u128, i64::MAX as u128 + 86_400);
    }
}

#[test]
fn payload_is_checked_against_the_clock() {
    let payload = |sub: Option<&str>, exp: Option<u64>| Payload { sub: sub.map(String::from), exp };
    let claims = check_payload(payload(Some("alice"), Some(100)), 99).unwrap();
    assert_eq!(claims.sub, "alice");
    assert_eq!(claims.exp, 100);
    assert_eq!(check_payload(payload(Some("alice"), Some(100)), 100).unwrap_err(), JwtError(JwtFault::Expired));
    assert_eq!(check_payload(payload(Some("alice"), Some(100)), 101).unwrap_err(), JwtError(JwtFault::Expired));
    assert_eq!(check_payload(payload(Some("alice"), Some(0)), 0).unwrap_err(), JwtError(JwtFault::Expired));
    assert!(check_payload(payload(Some("alice"), Some(0)), -1).is_ok());
    assert_eq!(check_payload(payload(None, Some(100)), 99).unwrap_err(), JwtError(JwtFault::Malformed));
    assert_eq!(check_payload(payload(Some("alice"), None), 99).unwrap_err(), JwtError(JwtFault::Malformed));
    assert_eq!(check_payload(payload(None, None), 99).unwrap_err(), JwtError(JwtFault::Malformed));
    assert_eq!(check_payload(payload(None, Some(100)), 200).unwrap_err(), JwtError(JwtFault::Malformed));
}

#[test]
fn encoder_failure_is_an_encoding_fault() {
    let failure = jsonwebtoken::decode_header("no token").unwrap_err();
    assert_eq!(issued_token(Err(failure)), Err(JwtError(JwtFault::Encoding)));
    assert_eq!(issued_token(Ok("t".to_string())), Ok("t".to_string()));
}

#[test]
fn refusals_are_unauthorized_and_issuance_faults_are_server_errors() {
    assert_eq!(JwtError(JwtFault::Signature).status(), 401);
    assert_eq!(JwtError(JwtFault::Malformed).status(), 401);
    assert_eq!(JwtError(JwtFault::Expired).status(), 401);
    assert_eq!(JwtError(JwtFault::Clock).status(), 500);
    assert_eq!(JwtError(JwtFault::Encoding).status(), 500);
}

fn system_time() -> i64 {
    std::time::SystemTime::now().duration_since(std::time::UNIX_EPOCH).unwrap().as_secs() as i64
}

#[test]
fn token_issued_now_verifies_now() {
    let before = system_time();
    let token = generate_jwt("alice", SECRET).unwrap();
    let claims = validate_jwt(&token, SECRET).unwrap();
    let after = system_time();
    assert_eq!(claims.sub, "alice");
    assert!(before + 86_400 <= claims.exp as i64);
    assert!(claims.exp as i64 <= after + 86_400);
}

#[test]
fn token_that_expired_half_a_minute_ago_is_refused_now() {
    let token = generate_jwt_at("alice", SECRET, system_time() - 86_400 - 30).unwrap();
    assert_eq!(validate_jwt(&token, SECRET).unwrap_err(), JwtError(JwtFault::Expired));
}

#[test]
fn token_of_another_secret_is_refused_now() {
    let token = generate_jwt("alice", SECRET).unwrap();
    assert_eq!(validate_jwt(&token, OTHER_SECRET).unwrap_err(), JwtError(JwtFault::Signature));
}

#[test]
fn issuing_never_fails_on_the_subject() {
    let long = "a.b c\"d\\e\u{e9}\u{1F980}\n".repeat(2_000);
    for subject in ["", ".", "..", " ", "\"", "{\"sub\":1}", "Bearer x", long.as_str()] {
        let token = generate_jwt_at(subject, SECRET, T0).unwrap();
        let claims = validate_jwt_at(&token, SECRET, T0).unwrap();
        assert_eq!(claims.sub, subject);
        assert_eq!(claims.exp, 1_700_086_400);
    }
    assert!(generate_jwt_at("alice", b"", 0).is_ok());
    assert!(generate_jwt("", SECRET).is_ok());
}
