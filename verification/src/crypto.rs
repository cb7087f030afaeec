//! Secrets: salts, password hashes, short codes and their comparison.
//!
//! Randomness comes from the operating system and the password hash from
//! PBKDF2-HMAC-SHA256; both are reached through the trusted items at the end
//! of this file. Everything else here is verified.

use vstd::prelude::*;
use vstd::utf8::*;

verus! {

/// Number of random bytes in a salt.
pub const SALT_BYTES: usize = 16;

/// Number of characters in a salt: two hexadecimal digits per byte.
pub const SALT_LEN: usize = 32;

/// Number of bytes that the key derivation produces.
pub const HASH_BYTES: usize = 32;

/// Number of characters in a password hash: two hexadecimal digits per byte.
pub const HASH_LEN: usize = 64;

/// Number of symbols in a code.
pub const CODE_LEN: usize = 8;

/// Default work factor of the password hash.
pub const DEFAULT_ROUNDS: u32 = 100_000;

/// Why a secret could not be produced.
#[derive(Clone, Copy, Debug, PartialEq, Eq, Structural)]
pub enum CryptoError {
    /// The operating system's random number generator failed.
    EntropyUnavailable,
}

// ---------------------------------------------------------------------------
// Hexadecimal encoding
// ---------------------------------------------------------------------------

/// The lower-case hexadecimal digit for a value below 16.
pub open spec fn hex_digit(n: u8) -> char {
    if n < 10 {
        (48 + n) as char
    } else {
        (87 + n) as char
    }
}

/// Whether `c` is one of `0`..`9`, `a`..`f`.
pub open spec fn is_hex_digit(c: char) -> bool {
    ('0' <= c && c <= '9') || ('a' <= c && c <= 'f')
}

/// Whether every character of `s` is a lower-case hexadecimal digit.
pub open spec fn is_hex(s: Seq<char>) -> bool {
    forall|i: int| 0 <= i < s.len() ==> is_hex_digit(#[trigger] s[i])
}

/// The high half of a byte.
pub open spec fn high_nibble(b: u8) -> u8 {
    b >> 4
}

/// The low half of a byte.
pub open spec fn low_nibble(b: u8) -> u8 {
    b & 0x0f
}

/// The hexadecimal encoding of `bytes`: two digits per byte, high half first.
pub open spec fn hex_encoding(bytes: Seq<u8>) -> Seq<char> {
    Seq::new(
        2 * bytes.len(),
        |i: int|
            if i % 2 == 0 {
                hex_digit(high_nibble(bytes[i / 2]))
            } else {
                hex_digit(low_nibble(bytes[i / 2]))
            },
    )
}

/// Both halves of a byte are below 16.
pub proof fn lemma_nibbles_small(b: u8)
    ensures
        high_nibble(b) < 16,
        low_nibble(b) < 16,
{
    assert(b >> 4 < 16) by (bit_vector);
    assert(b & 0x0f < 16) by (bit_vector);
}

/// A hexadecimal encoding holds hexadecimal digits only, two per byte.
pub proof fn lemma_hex_encoding_is_hex(bytes: Seq<u8>)
    ensures
        hex_encoding(bytes).len() == 2 * bytes.len(),
        is_hex(hex_encoding(bytes)),
{
    let h = hex_encoding(bytes);
    assert forall|i: int| 0 <= i < h.len() implies is_hex_digit(#[trigger] h[i]) by {
        lemma_nibbles_small(bytes[i / 2]);
    }
}

fn hex_digit_of(n: u8) -> (c: char)
    requires
        n < 16,
    ensures
        c == hex_digit(n),
        is_hex_digit(c),
{
    if n < 10 {
        (48 + n) as char
    } else {
        (87 + n) as char
    }
}

/// Encodes `bytes` as lower-case hexadecimal.
pub fn to_hex(bytes: &[u8]) -> (out: String)
    ensures
        out@ == hex_encoding(bytes@),
        out@.len() == 2 * bytes@.len(),
        is_hex(out@),
{
    let mut out = String::new();
    let n = bytes.len();
    let mut i: usize = 0;
    while i < n
        invariant
            n == bytes@.len(),
            i <= n,
            out@.len() == 2 * i,
            forall|j: int| 0 <= j < 2 * i ==> out@[j] == #[trigger] hex_encoding(bytes@)[j],
        decreases n - i,
    {
        let b = bytes[i];
        proof {
            lemma_nibbles_small(b);
        }
        let hi = hex_digit_of(b >> 4);
        let lo = hex_digit_of(b & 0x0f);
        out.push(hi);
        out.push(lo);
        i = i + 1;
    }
    proof {
        lemma_hex_encoding_is_hex(bytes@);
        assert(out@ =~= hex_encoding(bytes@));
    }
    out
}

// ---------------------------------------------------------------------------
// Comparison of secrets
// ---------------------------------------------------------------------------

/// Whether two byte strings are equal. Every pair of bytes is looked at, so
/// the time taken depends on the lengths alone, not on where the strings
/// first differ.
pub fn constant_time_eq(a: &[u8], b: &[u8]) -> (same: bool)
    ensures
        same == (a@ == b@),
{
    if a.len() != b.len() {
        return false;
    }
    let n = a.len();
    let mut diff: u8 = 0;
    let mut i: usize = 0;
    while i < n
        invariant
            n == a@.len(),
            n == b@.len(),
            i <= n,
            (diff == 0) <==> (forall|j: int| 0 <= j < i ==> a@[j] == b@[j]),
        decreases n - i,
    {
        let x = a[i];
        let y = b[i];
        let d = diff;
        assert(((d | (x ^ y)) == 0) <==> (d == 0 && x == y)) by (bit_vector);
        diff = diff | (x ^ y);
        i = i + 1;
    }
    proof {
        if diff == 0 {
            assert(a@ =~= b@);
        }
    }
    diff == 0
}

/// Two strings with the same UTF-8 encoding are the same string.
pub proof fn lemma_utf8_injective(a: Seq<char>, b: Seq<char>)
    requires
        encode_utf8(a) == encode_utf8(b),
    ensures
        a == b,
{
    encode_utf8_decode_utf8(a);
    encode_utf8_decode_utf8(b);
}

/// Whether two secrets (codes, tokens, hashes) are the same string, compared
/// in constant time.
pub fn secrets_match(a: &str, b: &str) -> (same: bool)
    ensures
        same == (a@ == b@),
{
    let same = constant_time_eq(a.as_bytes(), b.as_bytes());
    proof {
        if same {
            lemma_utf8_injective(a@, b@);
        }
    }
    same
}

// ---------------------------------------------------------------------------
// Salts
// ---------------------------------------------------------------------------

/// A salt: `SALT_LEN` hexadecimal digits.
pub open spec fn is_salt(s: Seq<char>) -> bool {
    s.len() == SALT_LEN && is_hex(s)
}

/// The salt that a given draw of random bytes stands for.
pub fn salt_from_bytes(bytes: &[u8]) -> (salt: String)
    ensures
        salt@ == hex_encoding(bytes@),
        bytes@.len() == SALT_BYTES ==> is_salt(salt@),
{
    to_hex(bytes)
}

/// Draws a fresh salt from the operating system's random number generator.
///
/// Every salt returned is well formed; which one comes back is up to the
/// generator, and a failure of the generator is reported, not hidden.
pub fn gen_salt() -> (r: Result<String, CryptoError>)
    ensures
        r matches Ok(salt) ==> is_salt(salt@),
{
    match os_random_bytes(SALT_BYTES) {
        Ok(bytes) => Ok(salt_from_bytes(bytes.as_slice())),
        Err(_) => Err(CryptoError::EntropyUnavailable),
    }
}

// ---------------------------------------------------------------------------
// Password hashes
// ---------------------------------------------------------------------------

/// The derived key in exactly `len` bytes.
///
/// PBKDF2 fills the whole output, so the padding branch is never the value of
/// a key that was actually derived; it makes the length a fact of the model.
pub open spec fn derived_key(password: Seq<u8>, salt: Seq<u8>, rounds: u32, len: nat) -> Seq<u8> {
    let key = pbkdf2_hmac_sha256(password, salt, rounds, len);
    if key.len() == len {
        key
    } else {
        Seq::new(len, |i: int| 0u8)
    }
}

/// The hash of `password` under `salt` at the given work factor: the
/// hexadecimal encoding of the key derived from their UTF-8 encodings.
pub open spec fn password_hash_with(password: Seq<char>, salt: Seq<char>, rounds: u32) -> Seq<
    char,
> {
    hex_encoding(derived_key(encode_utf8(password), encode_utf8(salt), rounds, HASH_BYTES as nat))
}

/// The hash of `password` under `salt` at the default work factor.
pub open spec fn password_hash(password: Seq<char>, salt: Seq<char>) -> Seq<char> {
    password_hash_with(password, salt, DEFAULT_ROUNDS)
}

/// A password hash: `HASH_LEN` hexadecimal digits. In particular it is never
/// empty, so a stored hash can be told from a missing one.
pub open spec fn is_password_hash(s: Seq<char>) -> bool {
    s.len() == HASH_LEN && is_hex(s)
}

/// Every password hash is well formed, whatever the password, salt and work
/// factor.
pub proof fn lemma_password_hash_well_formed(password: Seq<char>, salt: Seq<char>, rounds: u32)
    ensures
        is_password_hash(password_hash_with(password, salt, rounds)),
{
    lemma_hex_encoding_is_hex(
        derived_key(encode_utf8(password), encode_utf8(salt), rounds, HASH_BYTES as nat),
    );
}

/// Hashes `password` under `salt` with `rounds` iterations of the key
/// derivation. The result depends on the three arguments alone.
pub fn hash_password_with(password: &str, salt: &str, rounds: u32) -> (hash: String)
    ensures
        hash@ == password_hash_with(password@, salt@, rounds),
        is_password_hash(hash@),
{
    let key = derive_key(password.as_bytes(), salt.as_bytes(), rounds, HASH_BYTES);
    proof {
        lemma_password_hash_well_formed(password@, salt@, rounds);
    }
    to_hex(key.as_slice())
}

/// Hashes `password` under `salt` at the default work factor.
pub fn hash_password(password: &str, salt: &str) -> (hash: String)
    ensures
        hash@ == password_hash(password@, salt@),
        is_password_hash(hash@),
{
    hash_password_with(password, salt, DEFAULT_ROUNDS)
}

/// Whether `password`, hashed under `salt`, gives `expected`. The comparison
/// takes constant time.
pub fn verify_password(password: &str, salt: &str, expected: &str) -> (ok: bool)
    ensures
        ok == (password_hash(password@, salt@) == expected@),
{
    let hash = hash_password(password, salt);
    secrets_match(hash.as_str(), expected)
}

// ---------------------------------------------------------------------------
// Codes
// ---------------------------------------------------------------------------

/// The `i`-th of the 32 symbols a code is made of: the capital letters
/// without `I` and `O`, then the digits `2` to `9`. Symbols that are easily
/// mistaken for one another when read aloud or typed are left out.
pub open spec fn code_symbol(i: u8) -> char {
    if i < 8 {
        (65 + i) as char
    } else if i < 13 {
        (66 + i) as char
    } else if i < 24 {
        (67 + i) as char
    } else {
        (26 + i) as char
    }
}

/// Whether `c` is one of the 32 code symbols.
pub open spec fn is_code_symbol(c: char) -> bool {
    ('A' <= c && c <= 'Z' && c != 'I' && c != 'O') || ('2' <= c && c <= '9')
}

/// A code: `CODE_LEN` code symbols.
pub open spec fn is_code(s: Seq<char>) -> bool {
    s.len() == CODE_LEN && forall|i: int| 0 <= i < s.len() ==> is_code_symbol(#[trigger] s[i])
}

/// The low five bits of a byte: a number below 32. Of a uniformly drawn byte
/// they are uniformly distributed, so no symbol is favoured.
pub open spec fn symbol_index(b: u8) -> u8 {
    b & 0x1f
}

/// The code that a draw of random bytes stands for: one symbol per byte,
/// picked by the byte's low five bits.
pub open spec fn code_of_bytes(bytes: Seq<u8>) -> Seq<char> {
    Seq::new(bytes.len(), |i: int| code_symbol(symbol_index(bytes[i])))
}

/// Each index below 32 names a code symbol, and different indices name
/// different symbols.
pub proof fn lemma_code_symbols(i: u8, j: u8)
    requires
        i < 32,
        j < 32,
    ensures
        is_code_symbol(code_symbol(i)),
        code_symbol(i) == code_symbol(j) ==> i == j,
{
}

/// A draw of `CODE_LEN` bytes always stands for a well-formed code.
pub proof fn lemma_code_of_bytes_is_code(bytes: Seq<u8>)
    requires
        bytes.len() == CODE_LEN,
    ensures
        is_code(code_of_bytes(bytes)),
{
    let code = code_of_bytes(bytes);
    assert forall|i: int| 0 <= i < code.len() implies is_code_symbol(#[trigger] code[i]) by {
        let b = bytes[i];
        assert(b & 0x1f < 32) by (bit_vector);
        lemma_code_symbols(symbol_index(b), 0);
    }
}

fn code_symbol_of(i: u8) -> (c: char)
    requires
        i < 32,
    ensures
        c == code_symbol(i),
{
    if i < 8 {
        (65 + i) as char
    } else if i < 13 {
        (66 + i) as char
    } else if i < 24 {
        (67 + i) as char
    } else {
        (26 + i) as char
    }
}

/// The code that `bytes` stands for.
pub fn code_from_bytes(bytes: &[u8]) -> (code: String)
    ensures
        code@ == code_of_bytes(bytes@),
        bytes@.len() == CODE_LEN ==> is_code(code@),
{
    let mut code = String::new();
    let n = bytes.len();
    let mut i: usize = 0;
    while i < n
        invariant
            n == bytes@.len(),
            i <= n,
            code@.len() == i,
            forall|j: int| 0 <= j < i ==> code@[j] == #[trigger] code_of_bytes(bytes@)[j],
        decreases n - i,
    {
        let b = bytes[i];
        assert(b & 0x1f < 32) by (bit_vector);
        code.push(code_symbol_of(b & 0x1f));
        i = i + 1;
    }
    proof {
        assert(code@ =~= code_of_bytes(bytes@));
        if bytes@.len() == CODE_LEN {
            lemma_code_of_bytes_is_code(bytes@);
        }
    }
    code
}

/// Draws a fresh code from the operating system's random number generator.
///
/// Every code returned is well formed; which one comes back is up to the
/// generator, and a failure of the generator is reported, not hidden.
pub fn gen_code() -> (r: Result<String, CryptoError>)
    ensures
        r matches Ok(code) ==> is_code(code@),
{
    match os_random_bytes(CODE_LEN) {
        Ok(bytes) => Ok(code_from_bytes(bytes.as_slice())),
        Err(_) => Err(CryptoError::EntropyUnavailable),
    }
}

// ---------------------------------------------------------------------------
// Trusted items
// ---------------------------------------------------------------------------

/// `String::push` of the standard library: appends one character to the end
/// of the string and leaves the rest as it was.
pub assume_specification[ String::push ](s: &mut String, ch: char)
    ensures
        final(s)@ == old(s)@.push(ch),
;

/// The error of the `rand` crate, as `OsRng` reports it. Nothing is read
/// from it.
#[verifier::external_type_specification]
#[verifier::external_body]
pub struct ExRandError(rand::Error);

/// `OsRng::try_fill_bytes` of the `rand` crate, on a fresh buffer of `n`
/// bytes. The bytes come from the operating system, so nothing is claimed of
/// them but their number; a failure of the system's generator comes back as
/// the error.
#[verifier::external_body]
fn os_random_bytes(n: usize) -> (r: Result<Vec<u8>, rand::Error>)
    ensures
        r matches Ok(bytes) ==> bytes@.len() == n,
{
    let mut buf = vec![0u8; n];
    match rand::RngCore::try_fill_bytes(&mut rand::rngs::OsRng, &mut buf) {
        Ok(()) => Ok(buf),
        Err(e) => Err(e),
    }
}

/// What `pbkdf2_hmac::<Sha256>` of the `pbkdf2` crate writes into an output
/// of `len` bytes: PBKDF2 with HMAC-SHA256 as its pseudo-random function.
pub uninterp spec fn pbkdf2_hmac_sha256(
    password: Seq<u8>,
    salt: Seq<u8>,
    rounds: u32,
    len: nat,
) -> Seq<u8>;

/// `pbkdf2_hmac::<Sha256>` of the `pbkdf2` crate, on a fresh output of `len`
/// bytes. The function overwrites the whole output with a key that depends
/// on the password, the salt, the number of rounds and the output's length
/// alone.
#[verifier::external_body]
fn derive_key(password: &[u8], salt: &[u8], rounds: u32, len: usize) -> (key: Vec<u8>)
    requires
        len <= 0x7fff_ffff,
    ensures
        key@ == pbkdf2_hmac_sha256(password@, salt@, rounds, len as nat),
        key@.len() == len,
{
    let mut key = vec![0u8; len];
    pbkdf2::pbkdf2_hmac::<sha2::Sha256>(password, salt, rounds, &mut key);
    key
}

} // verus!
