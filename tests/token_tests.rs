use todo_grpc::auth::{require_identity, AuthExtension, AuthInterceptor};
use todo_grpc::rpc::Code;
use todo_grpc::token::{TokenCodec, TokenError};

fn codec() -> TokenCodec {
    TokenCodec::new(b"test-signing-secret".to_vec())
}

#[test]
fn sign_then_verify_gives_username_back() {
    let c = codec();
    let token = c.sign(&String::from("alice"));
    assert_eq!(c.verify(&token), Ok(String::from("alice")));
}

#[test]
fn token_has_three_parts() {
    let token = codec().sign(&String::from("alice"));
    assert_eq!(token.split('.').count(), 3);
    assert_ne!(token, "alice");
}

#[test]
fn signing_is_deterministic() {
    let c = codec();
    assert_eq!(c.sign(&String::from("bob")), c.sign(&String::from("bob")));
    assert_ne!(c.sign(&String::from("bob")), c.sign(&String::from("alice")));
}

#[test]
fn token_from_another_key_is_refused() {
    let token = TokenCodec::new(b"another-secret".to_vec()).sign(&String::from("alice"));
    assert_eq!(codec().verify(&token), Err(TokenError::Invalid));
}

#[test]
fn garbage_is_refused() {
    let c = codec();
    assert_eq!(c.verify(""), Err(TokenError::Invalid));
    assert_eq!(c.verify("not-a-token"), Err(TokenError::Invalid));
    assert_eq!(c.verify("a.b.c"), Err(TokenError::Invalid));
}

#[test]
fn empty_subject_is_refused() {
    let c = codec();
    let token = c.sign(&String::new());
    assert_eq!(c.verify(&token), Err(TokenError::NoSubject));
}

#[test]
fn every_single_bit_flip_is_refused() {
    let c = codec();
    let token = c.sign(&String::from("alice"));
    let bytes = token.as_bytes().to_vec();
    for i in 0..bytes.len() {
        for bit in 0..8 {
            let mut tampered = bytes.clone();
            tampered[i] ^= 1u8 << bit;
            if let Ok(s) = String::from_utf8(tampered) {
                assert!(c.verify(&s).is_err(), "flip of bit {} in byte {} verified", bit, i);
            }
        }
    }
}

#[test]
fn interceptor_refuses_a_call_without_token() {
    let interceptor = AuthInterceptor::new(codec());
    let e = interceptor.call(None).unwrap_err();
    assert_eq!(e.code, Code::Unauthenticated);
    assert_eq!(e.message, "No valid auth token");
}

#[test]
fn interceptor_refuses_a_bad_token() {
    let interceptor = AuthInterceptor::new(codec());
    let e = interceptor.call(Some("abc")).unwrap_err();
    assert_eq!(e.code, Code::Unauthenticated);
    assert_eq!(e.message, "No valid auth token");
}

#[test]
fn interceptor_attaches_the_username() {
    let c = codec();
    let token = c.sign(&String::from("alice"));
    let interceptor = AuthInterceptor::new(c);
    let ext = interceptor.call(Some(token.as_str())).unwrap();
    assert_eq!(ext.username, "alice");
}

#[test]
fn handler_needs_an_identity() {
    let e = require_identity(None).unwrap_err();
    assert_eq!(e.code, Code::Unauthenticated);
    assert_eq!(e.message, "Unauthorized request");
    let ext = AuthExtension { username: String::from("carol") };
    assert_eq!(require_identity(Some(&ext)).unwrap(), "carol");
}
