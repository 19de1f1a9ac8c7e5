use esirs::auth::{
    basic_auth_value, exchange_result, token_request_form, Code2TokenError, ExchangeOutcome,
    UnvalidatedToken,
};

fn raw_token() -> UnvalidatedToken {
    UnvalidatedToken {
        access_token: String::from("header.payload.signature"),
        expires_in: 1199,
        token_type: String::from("Bearer"),
        refresh_token: String::from("refresh"),
    }
}

#[test]
fn basic_auth_value_encodes_credentials() {
    assert_eq!(basic_auth_value("my_client_id", "my_secret"), "Basic bXlfY2xpZW50X2lkOm15X3NlY3JldA==");
}

#[test]
fn basic_auth_value_encodes_utf8_bytes() {
    assert_eq!(basic_auth_value("é", "ü"), "Basic w6k6w7w=");
}

#[test]
fn token_request_form_holds_code() {
    let form = token_request_form("abc123");
    assert_eq!(
        form,
        vec![
            (String::from("grant_type"), String::from("authorization_code")),
            (String::from("code"), String::from("abc123")),
        ]
    );
}

#[test]
fn transport_failure_is_transport_error() {
    let r = exchange_result(ExchangeOutcome::TransportFailed(String::from("connection refused")));
    assert!(matches!(r, Err(Code2TokenError::TransportError(ref m)) if m == "connection refused"));
}

#[test]
fn malformed_body_is_decode_error() {
    let r = exchange_result(ExchangeOutcome::Undecodable(String::from("expected value at line 1")));
    assert!(matches!(r, Err(Code2TokenError::DecodeError(ref m)) if m == "expected value at line 1"));
}

#[test]
fn decoded_body_is_the_token() {
    let r = exchange_result(ExchangeOutcome::Received(raw_token())).unwrap();
    assert_eq!(r.access_token, "header.payload.signature");
    assert_eq!(r.expires_in, 1199);
    assert_eq!(r.token_type, "Bearer");
    assert_eq!(r.refresh_token, "refresh");
}
