use sha2::{Digest, Sha256};
use sptf_core::auth::{
    parse_auth_token, parse_stored_user, uuid_text, TokenCache, REDIS_CACHE_EXPIRATION_IN_SECONDS,
};
use sptf_core::error::{
    FileError, ProtobufError, RedisCacheError, SignupError, SPTFError, UnexpectedError,
    ValidateError,
};
use sptf_core::user::{
    check_credentials, check_signup, generate_password, new_user_record, same_digest, uuid_bytes,
    validate_password, UserRecord,
};

const USER1: u128 = 0x0123_4567_89ab_cdef_0123_4567_89ab_cdef;

#[test]
fn issue_validate_revoke() {
    let mut cache = TokenCache::new();
    let token = cache.add_user_cache(USER1, 1_000);
    let text = uuid_text(token);
    assert_eq!(cache.validate_auth_token(&text, 1_000), Ok(USER1));
    cache.logout(&text);
    assert_eq!(
        cache.validate_auth_token(&text, 1_000),
        Err(RedisCacheError::ValidateAuthTokenFailed)
    );
}

#[test]
fn tokens_expire_when_idle_and_slide_when_used() {
    let mut cache = TokenCache::new();
    let token = cache.add_user_cache(USER1, 0);
    let text = uuid_text(token);
    let ttl = REDIS_CACHE_EXPIRATION_IN_SECONDS;
    assert_eq!(ttl, 1800);
    assert_eq!(cache.validate_auth_token(&text, ttl - 1), Ok(USER1));
    assert_eq!(cache.validate_auth_token(&text, 2 * ttl - 2), Ok(USER1));
    assert_eq!(
        cache.validate_auth_token(&text, 4 * ttl),
        Err(RedisCacheError::ValidateAuthTokenFailed)
    );
}

#[test]
fn several_tokens_per_user() {
    let mut cache = TokenCache::new();
    let t1 = uuid_text(cache.add_user_cache(USER1, 0));
    let t2 = uuid_text(cache.add_user_cache(USER1, 0));
    assert_ne!(t1, t2);
    cache.logout(&t1);
    assert_eq!(cache.validate_auth_token(&t2, 1), Ok(USER1));
}

#[test]
fn malformed_or_unknown_token_fails() {
    let mut cache = TokenCache::new();
    assert_eq!(
        cache.validate_auth_token("not-a-token", 0),
        Err(RedisCacheError::ValidateAuthTokenFailed)
    );
    assert_eq!(
        cache.validate_auth_token(&uuid_text(42), 0),
        Err(RedisCacheError::ValidateAuthTokenFailed)
    );
    cache.logout("not-a-token");
}

#[test]
fn uuid_text_form() {
    assert_eq!(uuid_text(USER1), "01234567-89ab-cdef-0123-456789abcdef");
    assert_eq!(parse_auth_token("01234567-89ab-cdef-0123-456789abcdef"), Ok(USER1));
    assert_eq!(parse_stored_user(Some(uuid_text(7))), Ok(7));
    assert_eq!(parse_stored_user(None), Err(RedisCacheError::ValidateAuthTokenFailed));
    assert_eq!(
        parse_stored_user(Some("garbage".to_string())),
        Err(RedisCacheError::ValidateAuthTokenFailed)
    );
}

#[test]
fn error_codes_are_stable() {
    assert_eq!(UnexpectedError.error_code(), 0x0);
    assert_eq!(ValidateError::NoUsername.error_code(), 0x1);
    assert_eq!(ValidateError::UnmatchedPassword.error_code(), 0x2);
    assert_eq!(ValidateError::WrongCookie.error_code(), 0x3);
    assert_eq!(RedisCacheError::UpdateAuthTokenFailed.error_code(), 0x4);
    assert_eq!(RedisCacheError::ValidateAuthTokenFailed.error_code(), 0x5);
    assert_eq!(FileError::PermissionDenied.error_code(), 0x6);
    assert_eq!(ProtobufError::WrongFormat.error_code(), 0x7);
    assert_eq!(SignupError::UsernameExist.error_code(), 0x8);
    assert_eq!(SPTFError::Unexpected.error_code(), 0x0);
    assert_eq!(SPTFError::RedisCache(RedisCacheError::ValidateAuthTokenFailed).error_code(), 0x5);
    assert_eq!(SPTFError::Protobuf(ProtobufError::WrongFormat).error_code(), 0x7);
}

#[test]
fn error_json_body() {
    assert_eq!(SPTFError::Protobuf(ProtobufError::WrongFormat).to_json_string(), "{\"errorCode\":7}");
    assert_eq!(SPTFError::Unexpected.to_json_string(), "{\"errorCode\":0}");
}

#[test]
fn password_digest_is_salted_sha256() {
    let digest = generate_password("secret", b"salt");
    let expected = Sha256::digest(b"saltsecret").to_vec();
    assert_eq!(digest, expected);
    assert!(validate_password("secret", b"salt", &expected));
    assert!(!validate_password("Secret", b"salt", &expected));
    assert!(!validate_password("secret", b"pepper", &expected));
    assert!(same_digest(&[1, 2], &[1, 2]));
    assert!(!same_digest(&[1, 2], &[1]));
}

fn record(id: u128, password: &str) -> UserRecord {
    UserRecord { id, salt: b"s".to_vec(), password_digest: generate_password(password, b"s") }
}

#[test]
fn login_decisions() {
    assert_eq!(
        check_credentials(&vec![], "pw"),
        Err(SPTFError::Validate(ValidateError::NoUsername))
    );
    assert_eq!(
        check_credentials(&vec![record(1, "pw"), record(2, "pw")], "pw"),
        Err(SPTFError::Unexpected)
    );
    assert_eq!(
        check_credentials(&vec![record(1, "pw")], "wrong"),
        Err(SPTFError::Validate(ValidateError::UnmatchedPassword))
    );
    assert_eq!(check_credentials(&vec![record(1, "pw")], "pw"), Ok(1));
}

#[test]
fn signup_decisions() {
    assert_eq!(check_signup(0), Ok(()));
    assert_eq!(check_signup(1), Err(SignupError::UsernameExist));
    let r = new_user_record(5, 0x0102, "pw");
    assert_eq!(r.id, 5);
    let mut salt = vec![0u8; 14];
    salt.extend_from_slice(&[1, 2]);
    assert_eq!(r.salt, salt);
    assert!(validate_password("pw", &r.salt, &r.password_digest));
    assert_eq!(uuid_bytes(USER1), USER1.to_be_bytes().to_vec());
}

#[test]
fn token_store_commands() {
    let mut cache = TokenCache::new();
    cache.set_ex(1, 10, 5, 100);
    assert_eq!(cache.get(1, 104), Some(10));
    assert_eq!(cache.get(1, 105), None);
    assert_eq!(cache.get(2, 100), None);
    cache.update_user_cache(11, 1, 200);
    assert_eq!(cache.get(1, 200 + REDIS_CACHE_EXPIRATION_IN_SECONDS - 1), Some(11));
    cache.del(1);
    assert_eq!(cache.get(1, 201), None);
    cache.set_ex(3, 30, 10, u64::MAX - 1);
    assert_eq!(cache.get(3, u64::MAX - 1), Some(30));
}
