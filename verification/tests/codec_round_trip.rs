use classroom_auth::claims::Claims;
use classroom_auth::codec::{sign_claims, verify_claims};
use classroom_auth::errors::CodecError;
use classroom_auth::role::Role;

fn sample_claims() -> Claims {
    Claims { id: 7, email: String::from("kim@example.org"), role: Role::Teacher, exp: 1234567 }
}

#[test]
fn sign_verify_round_trip() {
    let key = b"token-signing-secret";
    let claims = sample_claims();
    let token = sign_claims(&claims, key).expect("signing should succeed");
    let decoded = verify_claims(token.as_str(), key).expect("verification should succeed");
    assert_eq!(decoded.id, 7);
    assert_eq!(decoded.email, "kim@example.org");
    assert_eq!(decoded.role, Role::Teacher);
    assert_eq!(decoded.exp, 1234567);
}

#[test]
fn signing_is_deterministic() {
    let key = b"token-signing-secret";
    let a = sign_claims(&sample_claims(), key).unwrap();
    let b = sign_claims(&sample_claims(), key).unwrap();
    assert_eq!(a, b);
}

#[test]
fn cross_key_rejection() {
    let access_key = b"access-secret";
    let refresh_key = b"refresh-secret";
    let claims = sample_claims();
    let access_token = sign_claims(&claims, access_key).unwrap();
    let refresh_token = sign_claims(&claims, refresh_key).unwrap();
    assert_eq!(
        verify_claims(access_token.as_str(), refresh_key).unwrap_err(),
        CodecError::InvalidSignature
    );
    assert_eq!(
        verify_claims(refresh_token.as_str(), access_key).unwrap_err(),
        CodecError::InvalidSignature
    );
}

#[test]
fn malformed_tokens_rejected() {
    let key = b"token-signing-secret";
    assert_eq!(verify_claims("", key).unwrap_err(), CodecError::Malformed);
    assert_eq!(verify_claims("not-a-token", key).unwrap_err(), CodecError::Malformed);
    assert_eq!(verify_claims("a.b.c", key).unwrap_err(), CodecError::Malformed);
}

#[test]
fn tampered_token_rejected() {
    let key = b"token-signing-secret";
    let token = sign_claims(&sample_claims(), key).unwrap();
    // Flip the last character of the signature part.
    let mut tampered: Vec<char> = token.chars().collect();
    let last = *tampered.last().unwrap();
    *tampered.last_mut().unwrap() = if last == 'A' { 'B' } else { 'A' };
    let tampered: String = tampered.into_iter().collect();
    assert!(verify_claims(tampered.as_str(), key).is_err());
}

#[test]
fn verify_claims_rejects_wrong_assertion_checks() {
    // The decoded claim set is exactly what was signed, not merely similar.
    let key = b"token-signing-secret";
    let claims = Claims { id: 1, email: String::from("e@x.y"), role: Role::Student, exp: 9 };
    let token = sign_claims(&claims, key).unwrap();
    let decoded = verify_claims(token.as_str(), key).unwrap();
    assert_ne!(decoded.id, 2);
    assert_ne!(decoded.role, Role::Admin);
    assert_ne!(decoded.exp, 10);
}

#[test]
fn round_trip_keeps_unicode_email() {
    let key = b"token-signing-secret";
    let claims = Claims {
        id: 3,
        email: String::from("p\u{e4}ivi@\u{e9}cole.example"),
        role: Role::Student,
        exp: 42,
    };
    let token = sign_claims(&claims, key).unwrap();
    let decoded = verify_claims(token.as_str(), key).unwrap();
    assert_eq!(decoded.email, "p\u{e4}ivi@\u{e9}cole.example");
}
