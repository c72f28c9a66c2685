use user_api::token::{
    authorize, check_claims, claims_at, create_jwt, create_jwt_at, rejection_text,
    validate_token, Claims, DecodeFailure, TokenError, JWT,
};

const SECRET: &[u8] = b"a server secret";
const T0: i64 = 1_700_000_000;

fn bearer(token: &str) -> String {
    format!("Bearer {}", token)
}

#[test]
fn issued_claims_expire_a_minute_later() {
    assert_eq!(claims_at(7, T0), Ok(Claims { subject_id: 7, exp: 1_700_000_060 }));
}

#[test]
fn issuing_before_representable_time_fails() {
    assert_eq!(claims_at(7, -61), Err(TokenError::InvalidTimestamp));
    assert_eq!(create_jwt_at(7, -61, SECRET), Err(TokenError::InvalidTimestamp));
    assert_eq!(claims_at(7, -60), Ok(Claims { subject_id: 7, exp: 0 }));
}

#[test]
fn issued_token_has_three_parts() {
    let token = create_jwt_at(7, T0, SECRET).unwrap();
    assert_eq!(token.split('.').count(), 3);
}

#[test]
fn issuing_is_deterministic_for_one_time() {
    let a = create_jwt_at(7, T0, SECRET).unwrap();
    let b = create_jwt_at(7, T0, SECRET).unwrap();
    let c = create_jwt_at(8, T0, SECRET).unwrap();
    assert_eq!(a, b);
    assert_ne!(a, c);
}

#[test]
fn fresh_token_is_accepted() {
    let token = create_jwt_at(7, T0, SECRET).unwrap();
    let now = (T0 + 59) as u64;
    let expected = JWT { claims: Claims { subject_id: 7, exp: 1_700_000_060 } };
    assert_eq!(authorize(Some(&bearer(&token)), SECRET, now), Ok(expected.clone()));
    assert_eq!(authorize(Some(&token), SECRET, T0 as u64), Ok(expected));
}

#[test]
fn token_at_expiry_is_rejected_as_expired() {
    let token = create_jwt_at(7, T0, SECRET).unwrap();
    for age in [60i64, 61, 3600] {
        let r = authorize(Some(&bearer(&token)), SECRET, (T0 + age) as u64);
        assert_eq!(r, Err("Error validating JWT token - Expired Token".to_string()));
    }
}

#[test]
fn token_of_other_secret_is_invalid() {
    let token = create_jwt_at(7, T0, b"another secret").unwrap();
    let r = authorize(Some(&bearer(&token)), SECRET, T0 as u64);
    assert_eq!(r, Err("Error validating JWT token - Invalid Token".to_string()));
}

#[test]
fn tampered_token_is_invalid() {
    let token = create_jwt_at(7, T0, SECRET).unwrap();
    let other = create_jwt_at(8, T0, SECRET).unwrap();
    let parts: Vec<&str> = token.split('.').collect();
    let other_parts: Vec<&str> = other.split('.').collect();
    let forged = format!("{}.{}.{}", parts[0], other_parts[1], parts[2]);
    assert_eq!(validate_token(&forged, SECRET, T0 as u64), Err(TokenError::Invalid));
}

#[test]
fn missing_header_is_rejected() {
    let r = authorize(None, SECRET, T0 as u64);
    assert_eq!(r, Err("Error validating JWT token - No token provided".to_string()));
}

#[test]
fn malformed_token_is_invalid() {
    let r = authorize(Some("Bearer not-a-token"), SECRET, T0 as u64);
    assert_eq!(r, Err("Error validating JWT token - Invalid Token".to_string()));
}

#[test]
fn token_without_subject_is_rejected() {
    let decoded = Ok((None, Some(1_700_000_060)));
    assert_eq!(check_claims(decoded, T0 as u64), Err(TokenError::MissingClaims));
    let too_large = Ok((Some(1i128 << 40), Some(1_700_000_060)));
    assert_eq!(check_claims(too_large, T0 as u64), Err(TokenError::MissingClaims));
}

#[test]
fn check_claims_maps_decoding_failures() {
    assert_eq!(check_claims(Err(DecodeFailure::Malformed), 0), Err(TokenError::Invalid));
    assert_eq!(check_claims(Err(DecodeFailure::BadSignature), 0), Err(TokenError::Invalid));
    assert_eq!(
        check_claims(Err(DecodeFailure::Other("InvalidAlgorithm".to_string())), 0),
        Err(TokenError::Other("InvalidAlgorithm".to_string()))
    );
}

#[test]
fn check_claims_accepts_strictly_before_expiry() {
    let decoded = Ok((Some(3), Some(100)));
    assert_eq!(check_claims(decoded.clone(), 99), Ok(Claims { subject_id: 3, exp: 100 }));
    assert_eq!(check_claims(decoded, 100), Err(TokenError::Expired));
}

#[test]
fn rejection_messages() {
    assert_eq!(rejection_text(TokenError::Expired), "Error validating JWT token - Expired Token");
    assert_eq!(rejection_text(TokenError::Invalid), "Error validating JWT token - Invalid Token");
    assert_eq!(
        rejection_text(TokenError::Other("InvalidAlgorithm".to_string())),
        "Error validating JWT token - InvalidAlgorithm"
    );
}

#[test]
fn token_issued_now_is_accepted_now() {
    let token = create_jwt(7, SECRET).unwrap();
    let now = std::time::SystemTime::now()
        .duration_since(std::time::UNIX_EPOCH)
        .unwrap()
        .as_secs();
    let r = authorize(Some(&bearer(&token)), SECRET, now);
    assert_eq!(r.unwrap().claims.subject_id, 7);
    let later = authorize(Some(&bearer(&token)), SECRET, now + 61);
    assert!(later.unwrap_err().contains("Expired"));
}
