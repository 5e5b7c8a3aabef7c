//! Closed error taxonomy with stable numeric codes shared by the HTTP
//! endpoints and the live connection.

use vstd::prelude::*;

verus! {

pub const UNEXPECTED_ERROR_CODE: u64 = 0x0;
pub const VALIDATE_ERROR_NO_USERNAME_ERROR_CODE: u64 = 0x1;
pub const VALIDATE_ERROR_UNMATCHED_PASSWORD_ERROR_CODE: u64 = 0x2;
pub const VALIDATE_ERROR_WRONG_COOKIE_ERROR_CODE: u64 = 0x3;
pub const REDIS_CACHE_ERROR_UPDATE_AUTH_TOKEN_FAILED_ERROR_CODE: u64 = 0x4;
pub const REDIS_CACHE_ERROR_VALIDATE_AUTH_TOKEN_FAILED_ERROR_CODE: u64 = 0x5;
pub const FILE_ERROR_PERMISSION_DENIED_ERROR_CODE: u64 = 0x6;
pub const PROTOBUF_ERROR_WRONG_FORMAT_ERROR_CODE: u64 = 0x7;
pub const SIGNUP_ERROR_USERNAME_EXIST_ERROR_CODE: u64 = 0x8;

/// An internal fault that is reported to the caller only as an opaque code.
#[derive(Debug, Clone, Copy, PartialEq, Eq, Structural)]
pub struct UnexpectedError;

impl UnexpectedError {
    pub fn error_code(&self) -> (r: u64)
        ensures
            r == UNEXPECTED_ERROR_CODE,
    {
        UNEXPECTED_ERROR_CODE
    }
}

/// Authentication failures that are safe to report.
#[derive(Debug, Clone, Copy, PartialEq, Eq, Structural)]
pub enum ValidateError {
    NoUsername,
    UnmatchedPassword,
    WrongCookie,
}

impl ValidateError {
    pub open spec fn spec_code(self) -> u64 {
        match self {
            ValidateError::NoUsername => VALIDATE_ERROR_NO_USERNAME_ERROR_CODE,
            ValidateError::UnmatchedPassword => VALIDATE_ERROR_UNMATCHED_PASSWORD_ERROR_CODE,
            ValidateError::WrongCookie => VALIDATE_ERROR_WRONG_COOKIE_ERROR_CODE,
        }
    }

    pub fn error_code(&self) -> (r: u64)
        ensures
            r == self.spec_code(),
    {
        match self {
            ValidateError::NoUsername => VALIDATE_ERROR_NO_USERNAME_ERROR_CODE,
            ValidateError::UnmatchedPassword => VALIDATE_ERROR_UNMATCHED_PASSWORD_ERROR_CODE,
            ValidateError::WrongCookie => VALIDATE_ERROR_WRONG_COOKIE_ERROR_CODE,
        }
    }
}

/// Faults of the token store.
#[derive(Debug, Clone, Copy, PartialEq, Eq, Structural)]
pub enum RedisCacheError {
    UpdateAuthTokenFailed,
    ValidateAuthTokenFailed,
}

impl RedisCacheError {
    pub open spec fn spec_code(self) -> u64 {
        match self {
            RedisCacheError::UpdateAuthTokenFailed =>
                REDIS_CACHE_ERROR_UPDATE_AUTH_TOKEN_FAILED_ERROR_CODE,
            RedisCacheError::ValidateAuthTokenFailed =>
                REDIS_CACHE_ERROR_VALIDATE_AUTH_TOKEN_FAILED_ERROR_CODE,
        }
    }

    pub fn error_code(&self) -> (r: u64)
        ensures
            r == self.spec_code(),
    {
        match self {
            RedisCacheError::UpdateAuthTokenFailed =>
                REDIS_CACHE_ERROR_UPDATE_AUTH_TOKEN_FAILED_ERROR_CODE,
            RedisCacheError::ValidateAuthTokenFailed =>
                REDIS_CACHE_ERROR_VALIDATE_AUTH_TOKEN_FAILED_ERROR_CODE,
        }
    }
}

/// Path resolution or file I/O denial.
#[derive(Debug, Clone, Copy, PartialEq, Eq, Structural)]
pub enum FileError {
    PermissionDenied,
}

impl FileError {
    pub fn error_code(&self) -> (r: u64)
        ensures
            r == FILE_ERROR_PERMISSION_DENIED_ERROR_CODE,
    {
        FILE_ERROR_PERMISSION_DENIED_ERROR_CODE
    }
}

/// A frame that could not be decoded or carries a stale protocol version.
#[derive(Debug, Clone, Copy, PartialEq, Eq, Structural)]
pub enum ProtobufError {
    WrongFormat,
}

impl ProtobufError {
    pub fn error_code(&self) -> (r: u64)
        ensures
            r == PROTOBUF_ERROR_WRONG_FORMAT_ERROR_CODE,
    {
        PROTOBUF_ERROR_WRONG_FORMAT_ERROR_CODE
    }
}

/// A signup that conflicts with an existing account.
#[derive(Debug, Clone, Copy, PartialEq, Eq, Structural)]
pub enum SignupError {
    UsernameExist,
}

impl SignupError {
    pub fn error_code(&self) -> (r: u64)
        ensures
            r == SIGNUP_ERROR_USERNAME_EXIST_ERROR_CODE,
    {
        SIGNUP_ERROR_USERNAME_EXIST_ERROR_CODE
    }
}

/// Every failure the core reports, as one closed tagged union.
#[derive(Debug, Clone, Copy, PartialEq, Eq, Structural)]
pub enum SPTFError {
    Unexpected,
    Validate(ValidateError),
    RedisCache(RedisCacheError),
    File(FileError),
    Protobuf(ProtobufError),
    Signup(SignupError),
}

impl SPTFError {
    pub open spec fn spec_code(self) -> u64 {
        match self {
            SPTFError::Unexpected => UNEXPECTED_ERROR_CODE,
            SPTFError::Validate(e) => e.spec_code(),
            SPTFError::RedisCache(e) => e.spec_code(),
            SPTFError::File(_) => FILE_ERROR_PERMISSION_DENIED_ERROR_CODE,
            SPTFError::Protobuf(_) => PROTOBUF_ERROR_WRONG_FORMAT_ERROR_CODE,
            SPTFError::Signup(_) => SIGNUP_ERROR_USERNAME_EXIST_ERROR_CODE,
        }
    }

    pub fn error_code(&self) -> (r: u64)
        ensures
            r == self.spec_code(),
    {
        match self {
            SPTFError::Unexpected => UNEXPECTED_ERROR_CODE,
            SPTFError::Validate(e) => e.error_code(),
            SPTFError::RedisCache(e) => e.error_code(),
            SPTFError::File(e) => e.error_code(),
            SPTFError::Protobuf(e) => e.error_code(),
            SPTFError::Signup(e) => e.error_code(),
        }
    }

    /// The JSON body an HTTP endpoint answers with: `{"errorCode": <code>}`.
    pub fn to_json_string(&self) -> (r: String)
        ensures
            r@ == json_number_object_of("errorCode"@, self.spec_code()),
    {
        json_number_object("errorCode", self.error_code())
    }
}

/// What serde_json renders for an object holding one key mapped to one
/// unsigned number.
pub uninterp spec fn json_number_object_of(key: Seq<char>, value: u64) -> Seq<char>;

/// Relies on serde_json: `Value::Object` with a single `key: value` entry,
/// rendered compactly by `Value::to_string`.
#[verifier::external_body]
fn json_number_object(key: &str, value: u64) -> (r: String)
    ensures
        r@ == json_number_object_of(key@, value),
{
    let mut object = serde_json::Map::new();
    object.insert(key.to_string(), serde_json::Value::from(value));
    serde_json::Value::Object(object).to_string()
}

} // verus!
