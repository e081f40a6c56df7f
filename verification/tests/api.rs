use sso::api_handler::{access_token, lookup, system_info, LookupReply};
use sso::api_result::{failure, success, Cred};
use sso::errno::{
    BAD_REQQUEST, BAD_REQUEST_STR, INTERNAL_SERVER_ERROR, INVALID_TOKEN, INVALID_TOKEN_STR,
    NOT_FOUND, NOT_FOUND_STR, UNAUTHORIZED, UNAUTHORIZED_STR,
};
use sso::store::Store;
use sso::token_store::TokenStore;

const T1: &'static str = "AAAAAAAAAAAAAAAAAAAAAAAAAAAAAAAAAAAAAAAAAAAAAAAAA1";

#[test]
fn error_numbers() {
    assert_eq!(BAD_REQQUEST, 400);
    assert_eq!(UNAUTHORIZED, 401);
    assert_eq!(NOT_FOUND, 404);
    assert_eq!(INVALID_TOKEN, 498);
    assert_eq!(INTERNAL_SERVER_ERROR, 500);
    assert_eq!(BAD_REQUEST_STR, "Bad request");
    assert_eq!(UNAUTHORIZED_STR, "Access denied");
    assert_eq!(NOT_FOUND_STR, "Not found");
    assert_eq!(INVALID_TOKEN_STR, "Invalid token");
}

#[test]
fn payloads() {
    let payload = success(7u32);
    assert_eq!(payload.error.code, 0);
    assert_eq!(payload.error.desc, "");
    assert_eq!(payload.result, 7);
    let payload = failure(498, "Invalid token");
    assert_eq!(payload.error.code, 498);
    assert_eq!(payload.error.desc, "Invalid token");
    let cred = Cred::new("euler".to_string());
    assert_eq!(cred.uid, "euler");
    assert_eq!(cred.dn, None);
    let cred = Cred::with_dn("euler".to_string(), "dc=example,dc=com".to_string());
    assert_eq!(cred.uid, "euler");
    assert_eq!(cred.dn, Some("dc=example,dc=com".to_string()));
}

#[test]
fn system_information() {
    let payload = system_info(1_600_000_000_123, "abcdef0", "0.1.0");
    assert_eq!(payload.error.code, 0);
    assert_eq!(payload.error.desc, "");
    assert_eq!(payload.result.server_time, 1_600_000_000_123);
    assert_eq!(payload.result.git_rev, "abcdef0");
    assert_eq!(payload.result.version, "0.1.0");
}

#[test]
fn access_token_of_a_request() {
    assert_eq!(access_token(Some(T1)), T1);
    assert_eq!(access_token(None), "");
}

#[test]
fn lookup_of_a_live_token() {
    let mut tokens = TokenStore::new(Store::new(""));
    tokens.rotate_with("euler", "dc=example,dc=com", T1);
    match lookup(&tokens, T1) {
        LookupReply::Authentic(payload) => {
            assert_eq!(payload.error.code, 0);
            assert_eq!(payload.error.desc, "");
            assert_eq!(payload.result.uid, "euler");
            assert_eq!(payload.result.dn, Some("dc=example,dc=com".to_string()));
        }
        LookupReply::Invalid(_) => panic!("a live token was refused"),
    }
}

#[test]
fn lookup_of_an_unknown_token() {
    let mut tokens = TokenStore::new(Store::new(""));
    tokens.rotate_with("euler", "dc=example,dc=com", T1);
    for token in ["not-a-real-token", "", "euler", "dn_AAAA"] {
        match lookup(&tokens, token) {
            LookupReply::Authentic(_) => panic!("{} was accepted", token),
            LookupReply::Invalid(payload) => {
                assert_eq!(payload.error.code, 498);
                assert_eq!(payload.error.desc, "Invalid token");
            }
        }
    }
}
