//! Password digests and the decisions of login and signup, taken on what the
//! user store returned.

use crate::error::{SignupError, SPTFError, ValidateError};
use sha2::Digest;
use vstd::prelude::*;
use vstd::utf8::*;
use vstd::string::*;

verus! {

/// The SHA-256 digest of `data`.
pub uninterp spec fn sha256_of(data: Seq<u8>) -> Seq<u8>;

/// Relies on `sha2::Sha256::digest`: the 32-byte SHA-256 digest of the input.
#[verifier::external_body]
fn sha256(data: &Vec<u8>) -> (r: Vec<u8>)
    ensures
        r@ == sha256_of(data@),
        r@.len() == 32,
{
    sha2::Sha256::digest(data.as_slice()).to_vec()
}

/// The bytes that are hashed for a password: the salt, then the password's
/// UTF-8 bytes.
pub open spec fn salted_password(password: Seq<char>, salt: Seq<u8>) -> Seq<u8> {
    salt + encode_utf8(password)
}

/// The stored digest of `password` under `salt`.
pub fn generate_password(password: &str, salt: &[u8]) -> (r: Vec<u8>)
    ensures
        r@ == sha256_of(salted_password(password@, salt@)),
{
    let mut data: Vec<u8> = Vec::new();
    let n = salt.len();
    let mut i: usize = 0;
    while i < n
        invariant
            n == salt@.len(),
            i <= n,
            data@ == salt@.subrange(0, i as int),
        decreases n - i,
    {
        data.push(salt[i]);
        assert(salt@.subrange(0, i + 1) =~= salt@.subrange(0, i as int).push(salt@[i as int]));
        i = i + 1;
    }
    let bytes = password.as_bytes();
    let m = bytes.len();
    let mut j: usize = 0;
    while j < m
        invariant
            n == salt@.len(),
            m == bytes@.len(),
            bytes@ == encode_utf8(password@),
            j <= m,
            data@ == salt@ + bytes@.subrange(0, j as int),
        decreases m - j,
    {
        data.push(bytes[j]);
        assert(bytes@.subrange(0, j + 1) =~= bytes@.subrange(0, j as int).push(bytes@[j as int]));
        j = j + 1;
    }
    assert(bytes@.subrange(0, m as int) =~= bytes@);
    assert(salt@.subrange(0, n as int) =~= salt@);
    sha256(&data)
}

/// Whether a computed digest equals the stored one, byte for byte.
pub fn same_digest(computed: &[u8], stored: &[u8]) -> (r: bool)
    ensures
        r == (computed@ == stored@),
{
    let n = computed.len();
    if n != stored.len() {
        return false;
    }
    let mut i: usize = 0;
    while i < n
        invariant
            n == computed@.len(),
            n == stored@.len(),
            i <= n,
            forall|j: int| 0 <= j < i ==> computed@[j] == stored@[j],
        decreases n - i,
    {
        if computed[i] != stored[i] {
            return false;
        }
        i = i + 1;
    }
    assert(computed@ =~= stored@);
    true
}

/// Whether `password` under `salt` hashes to `hashed_password`.
pub fn validate_password(password: &str, salt: &[u8], hashed_password: &[u8]) -> (r: bool)
    ensures
        r == (sha256_of(salted_password(password@, salt@)) == hashed_password@),
{
    let digest = generate_password(password, salt);
    same_digest(digest.as_slice(), hashed_password)
}

/// One row of the user store.
pub struct UserRecord {
    pub id: u128,
    pub salt: Vec<u8>,
    pub password_digest: Vec<u8>,
}

/// The login decision on the rows found for a username: none is
/// `NoUsername`, several is `Unexpected`, and one row admits the user when
/// the password matches its digest, else `UnmatchedPassword`.
pub fn check_credentials(rows: &Vec<UserRecord>, password: &str) -> (r: Result<u128, SPTFError>)
    ensures
        rows@.len() == 0 ==> r == Err::<u128, SPTFError>(SPTFError::Validate(ValidateError::NoUsername)),
        rows@.len() > 1 ==> r == Err::<u128, SPTFError>(SPTFError::Unexpected),
        rows@.len() == 1 ==> {
            let row = rows@[0];
            if sha256_of(salted_password(password@, row.salt@)) == row.password_digest@ {
                r == Ok::<u128, SPTFError>(row.id)
            } else {
                r == Err::<u128, SPTFError>(SPTFError::Validate(ValidateError::UnmatchedPassword))
            }
        },
{
    if rows.len() == 0 {
        return Err(SPTFError::Validate(ValidateError::NoUsername));
    }
    if rows.len() > 1 {
        return Err(SPTFError::Unexpected);
    }
    let row = &rows[0];
    if !validate_password(password, row.salt.as_slice(), row.password_digest.as_slice()) {
        return Err(SPTFError::Validate(ValidateError::UnmatchedPassword));
    }
    Ok(row.id)
}

/// The sixteen big-endian bytes of `v`.
pub open spec fn u128_be_bytes(v: u128) -> Seq<u8> {
    Seq::new(16, |i: int| ((v as nat / pow256((15 - i) as nat)) % 256) as u8)
}

pub open spec fn pow256(k: nat) -> nat
    decreases k,
{
    if k == 0 {
        1
    } else {
        256 * pow256((k - 1) as nat)
    }
}

/// The sixteen big-endian bytes of `v`, as a UUID lays them out.
pub fn uuid_bytes(v: u128) -> (r: Vec<u8>)
    ensures
        r@ == u128_be_bytes(v),
{
    let mut out: Vec<u8> = Vec::new();
    let mut k: usize = 0;
    let mut rest: u128 = v;
    assert(pow256(0) == 1);
    assert(v as nat / 1 == v as nat);
    while k < 16
        invariant
            k <= 16,
            out@.len() == k,
            rest as nat == v as nat / pow256(k as nat),
            forall|i: int| 0 <= i < k ==> out@[i] == ((v as nat / pow256(i as nat)) % 256) as u8,
        decreases 16 - k,
    {
        proof {
            lemma_div_pow256_step(v as nat, k as nat);
        }
        out.push((rest % 256) as u8);
        rest = rest / 256;
        k = k + 1;
    }
    let mut r: Vec<u8> = Vec::new();
    let mut j: usize = 16;
    while j > 0
        invariant
            j <= 16,
            out@.len() == 16,
            r@.len() == 16 - j,
            forall|i: int| 0 <= i < 16 - j ==> r@[i] == out@[15 - i],
            forall|i: int| 0 <= i < 16 ==> out@[i] == ((v as nat / pow256(i as nat)) % 256) as u8,
        decreases j,
    {
        r.push(out[j - 1]);
        j = j - 1;
    }
    assert(r@ =~= u128_be_bytes(v));
    r
}

proof fn lemma_div_pow256_step(v: nat, k: nat)
    ensures
        v / pow256(k) / 256 == v / pow256(k + 1),
{
    assert(pow256(k) > 0) by {
        lemma_pow256_positive(k);
    }
    assert(pow256(k + 1) == 256 * pow256(k));
    vstd::arithmetic::div_mod::lemma_div_denominator(v as int, pow256(k) as int, 256);
    assert(pow256(k) * 256 == 256 * pow256(k)) by (nonlinear_arith);
}

proof fn lemma_pow256_positive(k: nat)
    ensures
        pow256(k) > 0,
    decreases k,
{
    if k > 0 {
        lemma_pow256_positive((k - 1) as nat);
    }
}

/// The signup decision: a username that already has rows is taken.
pub fn check_signup(existing_rows: usize) -> (r: Result<(), SignupError>)
    ensures
        r is Ok <==> existing_rows == 0,
{
    if existing_rows > 0 {
        Err(SignupError::UsernameExist)
    } else {
        Ok(())
    }
}

/// The record stored for a new account: its id, the salt's bytes, and the
/// digest of the password under that salt.
pub fn new_user_record(id: u128, salt: u128, password: &str) -> (r: UserRecord)
    ensures
        r.id == id,
        r.salt@ == u128_be_bytes(salt),
        r.password_digest@ == sha256_of(salted_password(password@, u128_be_bytes(salt))),
{
    let salt_bytes = uuid_bytes(salt);
    let digest = generate_password(password, salt_bytes.as_slice());
    UserRecord { id, salt: salt_bytes, password_digest: digest }
}

} // verus!
