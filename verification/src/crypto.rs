//! Secret-handling primitives: password hashing and verification, opaque
//! token generation, one-way hashing for storage, and numeric one-time codes.

use vstd::prelude::*;
use vstd::string::StringExecFns;

use argon2::{Argon2, PasswordHash, PasswordHasher, PasswordVerifier};
use argon2::password_hash::SaltString;
use data_encoding::BASE32_NOPAD;
use rand::rngs::OsRng;
use rand::{Rng, RngCore};
use sha2::{Digest, Sha256};

verus! {

/// Number of random bytes drawn for an opaque token.
pub const TOKEN_BYTE_LEN: usize = 20;

/// Length in characters of an encoded opaque token: unpadded base32 of
/// `TOKEN_BYTE_LEN` bytes.
pub const TOKEN_CHAR_LEN: usize = 32;

/// Length in characters of a stored one-way hash: SHA-256 in hex.
pub const STORED_HASH_CHAR_LEN: usize = 64;

/// The SHA-256 digest of the UTF-8 encoding of a string: 32 bytes determined
/// by the input alone.
pub uninterp spec fn sha256_of(s: Seq<char>) -> Seq<u8>;

/// The RFC 4648 base32 encoding, without padding, of a byte sequence.
pub uninterp spec fn base32_nopad_of(b: Seq<u8>) -> Seq<char>;

/// ASCII lowercasing of one character: 'A' to 'Z' move down to 'a' to
/// 'z', every other character is kept.
pub open spec fn ascii_lower_char(c: char) -> char {
    if 65 <= c as int && c as int <= 90 {
        ((c as u8) + 32) as char
    } else {
        c
    }
}

/// The ASCII-lowercased form of a string, character by character.
pub open spec fn ascii_lower_of(s: Seq<char>) -> Seq<char> {
    Seq::new(s.len(), |i: int| ascii_lower_char(s[i]))
}

/// Whether a character belongs to the RFC 4648 base32 alphabet, 'A' to 'Z'
/// and '2' to '7'.
pub open spec fn is_base32_char(c: char) -> bool {
    (65 <= c as int && c as int <= 90) || (50 <= c as int && c as int <= 55)
}

/// Whether a character belongs to the lowercased base32 alphabet the
/// tokens use: 'a' to 'z' and '2' to '7', all URL-safe.
pub open spec fn is_token_char(c: char) -> bool {
    (97 <= c as int && c as int <= 122) || (50 <= c as int && c as int <= 55)
}

/// Whether a string parses as a PHC-format password hash.
pub uninterp spec fn phc_parses(h: Seq<char>) -> bool;

/// Whether Argon2 verification of a password against a stored PHC hash
/// succeeds; determined by the password and the hash alone, since the salt
/// and parameters are embedded in the hash string.
pub uninterp spec fn password_verifies(p: Seq<char>, h: Seq<char>) -> bool;

/// Whether a parsed PHC hash is one the Argon2 primitive can evaluate: its
/// salt decodes, and its algorithm, version, parameters and digest are
/// accepted, so that verification against any password of admissible
/// length reaches the comparison instead of erroring. A function of the
/// hash alone.
pub uninterp spec fn phc_evaluable(h: Seq<char>) -> bool;

/// Passwords of up to this many characters are always of admissible byte
/// length for Argon2, which caps passwords at four gibibytes of UTF-8.
pub const PASSWORD_CHAR_LIMIT: usize = 0x3FFFFFFF;

/// Whether the verification primitive owes a definite answer for this
/// password and stored hash: the hash parses, and either the password
/// verifies outright, or the hash is evaluable and the password short
/// enough that nothing in the pipeline can fail.
pub open spec fn password_check_decided(p: Seq<char>, h: Seq<char>) -> bool {
    phc_parses(h) && (password_verifies(p, h) || (phc_evaluable(h) && p.len()
        <= PASSWORD_CHAR_LIMIT))
}

/// The lowercase hex digit for a nibble.
pub open spec fn hex_digit_char(v: u8) -> char
    recommends
        v < 16,
{
    if v == 0 { '0' }
    else if v == 1 { '1' }
    else if v == 2 { '2' }
    else if v == 3 { '3' }
    else if v == 4 { '4' }
    else if v == 5 { '5' }
    else if v == 6 { '6' }
    else if v == 7 { '7' }
    else if v == 8 { '8' }
    else if v == 9 { '9' }
    else if v == 10 { 'a' }
    else if v == 11 { 'b' }
    else if v == 12 { 'c' }
    else if v == 13 { 'd' }
    else if v == 14 { 'e' }
    else { 'f' }
}

/// The lowercase hex encoding of a byte sequence, high nibble first.
pub open spec fn hex_of(b: Seq<u8>) -> Seq<char> {
    Seq::new(
        b.len() * 2,
        |i: int| if i % 2 == 0 { hex_digit_char(b[i / 2] / 16) } else { hex_digit_char(b[i / 2] % 16) },
    )
}

/// The lowercase hex form of the SHA-256 digest of a string: the one-way
/// hash used for stored codes and session identifiers.
pub open spec fn sha256_hex_of(s: Seq<char>) -> Seq<char> {
    hex_of(sha256_of(s))
}

/// Relies on sha2::Sha256 (FIPS 180-4): a 32-byte digest determined by the
/// input bytes alone.
#[verifier::external_body]
fn sha256_digest(input: &str) -> (r: Vec<u8>)
    ensures
        r@ == sha256_of(input@),
        r@.len() == 32,
{
    Sha256::digest(input.as_bytes()).to_vec()
}

/// Relies on hex::encode: each byte becomes two lowercase hex digits, high
/// nibble first.
#[verifier::external_body]
fn hex_encode(bytes: &Vec<u8>) -> (r: String)
    ensures
        r@ == hex_of(bytes@),
{
    hex::encode(bytes)
}

/// Relies on data_encoding::BASE32_NOPAD.encode: RFC 4648 base32 without
/// padding; 8 characters for every 5 input bytes, rounded up, all drawn
/// from the alphabet 'A' to 'Z' and '2' to '7'.
#[verifier::external_body]
fn base32_nopad_encode(bytes: &Vec<u8>) -> (r: String)
    ensures
        r@ == base32_nopad_of(bytes@),
        r@.len() == (bytes@.len() * 8 + 4) / 5,
        forall|i: int| 0 <= i < r@.len() ==> is_base32_char(#[trigger] r@[i]),
{
    BASE32_NOPAD.encode(bytes)
}

/// Relies on str::to_ascii_lowercase: ASCII upper-case letters are mapped
/// to their lower-case equivalents, every other character is unchanged, so
/// the result is the character-wise map `ascii_lower_of`.
#[verifier::external_body]
fn ascii_lowercase(s: &str) -> (r: String)
    ensures
        r@ == ascii_lower_of(s@),
{
    s.to_ascii_lowercase()
}

/// Relies on rand::thread_rng and rand::RngCore::fill_bytes: fills the
/// buffer with cryptographically secure random bytes; only the length is
/// predictable.
#[verifier::external_body]
fn random_bytes(len: usize) -> (r: Vec<u8>)
    ensures
        r@.len() == len,
{
    let mut bytes = vec![0u8; len];
    rand::thread_rng().fill_bytes(&mut bytes);
    bytes
}

/// Relies on rand::Rng::gen_range: a random value below 10.
#[verifier::external_body]
fn random_digit() -> (r: u8)
    ensures
        r < 10,
{
    rand::thread_rng().gen_range(0..10u8)
}

/// Relies on argon2::Argon2::hash_password (via password_hash): hashes the
/// password with the default Argon2id parameters and a fresh random salt
/// drawn by password_hash::SaltString::generate from rand's OsRng. The
/// PHC-encoded result parses back, and verification recomputes the same
/// digest from the parameters and salt embedded in it, so the produced hash
/// verifies against the password it was produced for.
#[verifier::external_body]
fn argon2_hash(password: &str) -> (r: Result<String, argon2::password_hash::Error>)
    ensures
        r is Ok ==> phc_parses(r->Ok_0@) && phc_evaluable(r->Ok_0@) && password_verifies(
            password@,
            r->Ok_0@,
        ),
{
    let salt = SaltString::generate(&mut OsRng);
    let hash = Argon2::default().hash_password(password.as_bytes(), &salt)?;
    Ok(hash.to_string())
}

/// Relies on password_hash::PasswordHash::new and
/// argon2::Argon2::verify_password: parsing is deterministic in the hash
/// string, and verification recomputes the digest from the parameters and
/// salt embedded in the hash, answering Error::Password on mismatch. A
/// verifying password therefore gets Ok(true), and on an evaluable hash an
/// admissibly short non-verifying password gets Ok(false): nothing in the
/// recomputation can fail for it.
#[verifier::external_body]
fn argon2_verify(password: &str, hash: &str) -> (r: Result<bool, argon2::password_hash::Error>)
    ensures
        r is Ok ==> phc_parses(hash@) && r->Ok_0 == password_verifies(password@, hash@),
        !phc_parses(hash@) ==> r is Err,
        password_check_decided(password@, hash@) ==> r is Ok,
{
    let parsed = match PasswordHash::new(hash) {
        Ok(parsed) => parsed,
        Err(e) => {
            return Err(e);
        },
    };
    match Argon2::default().verify_password(password.as_bytes(), &parsed) {
        Ok(()) => Ok(true),
        Err(argon2::password_hash::Error::Password) => Ok(false),
        Err(e) => Err(e),
    }
}

/// The error type of argon2's password_hash library, carried through the
/// hashing wrappers before being mapped to the library's own error.
#[verifier::external_type_specification]
#[verifier::external_body]
pub struct ExPasswordHashError(argon2::password_hash::Error);

/// Failure of the password hashing primitive itself: an internal fault, not
/// a wrong password.
#[derive(Debug)]
pub struct HashingError;

/// A freshly produced hash for a password: it parses as a PHC string, the
/// primitive can evaluate it, and the password verifies against it.
pub open spec fn fresh_hash_for(p: Seq<char>, h: Seq<char>) -> bool {
    phc_parses(h) && phc_evaluable(h) && password_verifies(p, h)
}

/// Hashes a password with Argon2id and a fresh random salt; the encoded
/// result embeds algorithm, parameters and salt.
pub fn hash_password(password: String) -> (r: Result<String, HashingError>)
    ensures
        r is Ok ==> fresh_hash_for(password@, r->Ok_0@),
{
    match argon2_hash(password.as_str()) {
        Ok(h) => Ok(h),
        Err(_) => Err(HashingError),
    }
}

/// Checks a password against a stored PHC hash. A wrong password yields
/// `Ok(false)`; a stored hash that does not parse yields an error, never a
/// silent success.
pub fn verify_password_hash(password: String, hash: String) -> (r: Result<bool, HashingError>)
    ensures
        r is Ok ==> phc_parses(hash@) && r->Ok_0 == password_verifies(password@, hash@),
        !phc_parses(hash@) ==> r is Err,
        password_check_decided(password@, hash@) ==> r is Ok,
        password_verifies(password@, hash@) && phc_parses(hash@) ==> r == Ok::<
            bool,
            HashingError,
        >(true),
{
    match argon2_verify(password.as_str(), hash.as_str()) {
        Ok(matches) => Ok(matches),
        Err(_) => Err(HashingError),
    }
}

/// A password verifies against any hash freshly produced for it, and such
/// a hash always parses, so the check is owed a definite answer: by the
/// contract of `verify_password_hash`, checking a password against its own
/// fresh hash returns `Ok(true)`, never a mismatch and never an error.
pub proof fn lemma_password_round_trip(p: Seq<char>, h: Seq<char>)
    requires
        fresh_hash_for(p, h),
    ensures
        phc_parses(h),
        password_verifies(p, h),
        password_check_decided(p, h),
{
}

/// One-way hash of a value for storage or lookup: lowercase hex of SHA-256.
pub fn hash_string(input: String) -> (r: String)
    ensures
        r@ == sha256_hex_of(input@),
        r@.len() == STORED_HASH_CHAR_LEN,
{
    let digest = sha256_digest(input.as_str());
    hex_encode(&digest)
}

/// Whether a value matches a stored one-way hash.
pub fn verify_string_hash(input: String, hash: String) -> (r: bool)
    ensures
        r == (hash@ == sha256_hex_of(input@)),
{
    let new_hash = hash_string(input);
    hash == new_hash
}

/// One-way hash of a bearer token: what the database stores in place of the
/// token itself.
pub fn hash_token(token: &str) -> (r: String)
    ensures
        r@ == sha256_hex_of(token@),
        r@.len() == STORED_HASH_CHAR_LEN,
{
    let digest = sha256_digest(token);
    hex_encode(&digest)
}

/// A fresh opaque token: 20 random bytes, base32-encoded without padding
/// and lowercased, giving 32 characters drawn from the URL-safe alphabet
/// 'a' to 'z' and '2' to '7'.
pub fn generate_token() -> (r: String)
    ensures
        r@.len() == TOKEN_CHAR_LEN,
        forall|i: int| 0 <= i < r@.len() ==> is_token_char(#[trigger] r@[i]),
{
    let bytes = random_bytes(TOKEN_BYTE_LEN);
    let encoded = base32_nopad_encode(&bytes);
    let token = ascii_lowercase(encoded.as_str());
    proof {
        assert forall|i: int| 0 <= i < token@.len() implies is_token_char(
            #[trigger] token@[i],
        ) by {
            assert(token@[i] == ascii_lower_char(encoded@[i]));
            assert(is_base32_char(encoded@[i]));
        }
    }
    token
}

/// Whether a character is a decimal digit.
pub open spec fn is_decimal_digit(c: char) -> bool {
    48 <= c as int && c as int <= 57
}

/// Whether every character of a string is a decimal digit.
pub open spec fn all_decimal_digits(s: Seq<char>) -> bool {
    forall|i: int| 0 <= i < s.len() ==> is_decimal_digit(#[trigger] s[i])
}

/// The digit character for a value below ten.
pub open spec fn digit_char_of(d: u8) -> char
    recommends
        d < 10,
{
    if d == 0 { '0' }
    else if d == 1 { '1' }
    else if d == 2 { '2' }
    else if d == 3 { '3' }
    else if d == 4 { '4' }
    else if d == 5 { '5' }
    else if d == 6 { '6' }
    else if d == 7 { '7' }
    else if d == 8 { '8' }
    else { '9' }
}

fn digit_to_str(d: u8) -> (r: &'static str)
    requires
        d < 10,
    ensures
        r@.len() == 1,
        r@[0] == digit_char_of(d),
{
    proof {
        reveal_strlit("0");
        reveal_strlit("1");
        reveal_strlit("2");
        reveal_strlit("3");
        reveal_strlit("4");
        reveal_strlit("5");
        reveal_strlit("6");
        reveal_strlit("7");
        reveal_strlit("8");
        reveal_strlit("9");
    }
    if d == 0 { "0" }
    else if d == 1 { "1" }
    else if d == 2 { "2" }
    else if d == 3 { "3" }
    else if d == 4 { "4" }
    else if d == 5 { "5" }
    else if d == 6 { "6" }
    else if d == 7 { "7" }
    else if d == 8 { "8" }
    else { "9" }
}

/// A random numeric one-time code of the given length, for human-typed
/// email verification.
pub fn generate_random_code(length: usize) -> (r: String)
    ensures
        r@.len() == length,
        all_decimal_digits(r@),
{
    let mut code = String::new();
    let mut i: usize = 0;
    while i < length
        invariant
            i <= length,
            code@.len() == i,
            all_decimal_digits(code@),
        decreases length - i,
    {
        let d = random_digit();
        code.append(digit_to_str(d));
        assert(is_decimal_digit(digit_char_of(d)));
        i = i + 1;
    }
    code
}

} // verus!
