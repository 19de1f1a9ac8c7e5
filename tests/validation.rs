use esirs::auth::{
    accept_callback, same_text, validate_token, Code2TokenError, EsiClaims, UnvalidatedToken,
};

fn raw_token() -> UnvalidatedToken {
    UnvalidatedToken {
        access_token: String::from("header.payload.signature"),
        expires_in: 1199,
        token_type: String::from("Bearer"),
        refresh_token: String::from("refresh"),
    }
}

fn claims(iss: &str, exp: u64) -> EsiClaims {
    EsiClaims {
        scp: vec![String::from("esi-skills.read_skills.v1")],
        jti: String::from("jti"),
        kid: String::from("JWT-Signature-Key"),
        sub: String::from("CHARACTER:EVE:123456"),
        azp: String::from("my_client_id"),
        name: String::from("Some Pilot"),
        owner: String::from("owner-hash"),
        exp,
        iss: String::from(iss),
    }
}

#[test]
fn issuer_mismatch_is_its_own_error() {
    let r = validate_token(raw_token(), Ok(claims("evil.example.com", 1700000000)), "login.eveonline.com");
    assert!(matches!(r, Err(Code2TokenError::IssuerMismatchError(ref i)) if i == "evil.example.com"));
}

#[test]
fn issuer_prefix_is_a_mismatch() {
    let r = validate_token(raw_token(), Ok(claims("login.eveonline.co", 5)), "login.eveonline.com");
    assert!(matches!(r, Err(Code2TokenError::IssuerMismatchError(_))));
}

#[test]
fn failed_signature_is_validation_error() {
    let r = validate_token(raw_token(), Err(String::from("InvalidSignature")), "login.eveonline.com");
    assert!(matches!(r, Err(Code2TokenError::ValidationError(ref m)) if m == "InvalidSignature"));
}

#[test]
fn expiry_is_the_signed_exp() {
    let t = validate_token(raw_token(), Ok(claims("login.eveonline.com", 1700000000)), "login.eveonline.com")
        .unwrap();
    assert_eq!(t.expires_at, 1700000000);
    assert_eq!(t.claims.exp, 1700000000);
    assert_eq!(t.access_token, "header.payload.signature");
    assert_eq!(t.token_type, "Bearer");
    assert_eq!(t.refresh_token, "refresh");
    assert_eq!(t.claims.sub, "CHARACTER:EVE:123456");
}

#[test]
fn expiry_at_epoch_start() {
    let t = validate_token(raw_token(), Ok(claims("login.eveonline.com", 0)), "login.eveonline.com").unwrap();
    assert_eq!(t.expires_at, 0);
}

#[test]
fn same_text_compares_exactly() {
    assert!(same_text("", ""));
    assert!(same_text("secret_state_key", "secret_state_key"));
    assert!(same_text("héllo", "héllo"));
    assert!(!same_text("secret_state_key", "secret_state_kez"));
    assert!(!same_text("secret", "secret_state_key"));
    assert!(!same_text("é", "e"));
}

#[test]
fn callback_with_wrong_state_is_rejected() {
    assert_eq!(accept_callback("secret_state_key", "a-valid-code", "other_state"), None);
    assert_eq!(accept_callback("secret_state_key", "", "other_state"), None);
    assert_eq!(accept_callback("secret_state_key", "code", "Secret_state_key"), None);
    assert_eq!(accept_callback("secret_state_key", "code", ""), None);
}

#[test]
fn callback_with_issued_state_gives_code() {
    assert_eq!(
        accept_callback("secret_state_key", "a-valid-code", "secret_state_key"),
        Some(String::from("a-valid-code"))
    );
}
