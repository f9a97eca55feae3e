//! The secret envelope: AES-256-GCM under a 32-byte key, stored as
//! `base64(nonce || ciphertext_with_tag)` with a fresh 12-byte nonce per seal.
use vstd::prelude::*;
use vstd::utf8::{decode_utf8, encode_utf8, valid_utf8};
use aes_gcm::aead::{Aead, KeyInit};
use base64::Engine;
use rand::RngCore;
use sha2::Digest;

verus! {

broadcast use vstd::utf8::encode_utf8_decode_utf8, vstd::utf8::encode_utf8_valid_utf8;

/// Bytes of nonce in front of every sealed value.
pub const NONCE_SIZE: usize = 12;

/// Largest plaintext, in bytes, that AES-GCM seals.
pub const MAX_PLAINTEXT: u64 = 0x10_0000_0000;

/// The SHA-256 digest of a byte string.
pub uninterp spec fn sha256_of(b: Seq<u8>) -> Seq<u8>;

/// The AES-256-GCM ciphertext (with its tag) of `pt` under `key` and `nonce`,
/// with no associated data.
pub uninterp spec fn gcm_seal(key: Seq<u8>, nonce: Seq<u8>, pt: Seq<u8>) -> Seq<u8>;

/// The plaintext that AES-256-GCM recovers from `ct`, if its tag verifies.
pub uninterp spec fn gcm_open(key: Seq<u8>, nonce: Seq<u8>, ct: Seq<u8>) -> Option<Seq<u8>>;

/// The standard, padded base64 text of a byte string.
pub uninterp spec fn base64_of(b: Seq<u8>) -> Seq<char>;

/// The bytes that a standard, padded base64 text stands for, if it is one.
pub uninterp spec fn base64_decoded(s: Seq<char>) -> Option<Seq<u8>>;

/// Relies on sha2's `Digest::digest` for `Sha256`: the 32-byte digest.
#[verifier::external_body]
pub(crate) fn sha256(b: &[u8]) -> (r: [u8; 32])
    ensures
        r@ == sha256_of(b@),
{
    sha2::Sha256::digest(b).into()
}

/// Relies on rand's `RngCore::fill_bytes` on `OsRng`: the buffer is
/// overwritten with bytes from the operating system. Nothing is promised of
/// their values. It panics only when the operating system cannot supply
/// random bytes at all.
#[verifier::external_body]
pub(crate) fn fill_random<const N: usize>(buf: &mut [u8; N])
    ensures
        final(buf)@.len() == N,
{
    rand::rngs::OsRng.fill_bytes(buf)
}

/// Relies on aes-gcm's `Aead::encrypt` for `Aes256Gcm`: the sealed bytes,
/// the plaintext's length plus a 16-byte tag, which `Aead::decrypt` under the
/// same key and nonce opens again; it fails only for a plaintext over 2^36
/// bytes.
#[verifier::external_body]
fn aes_seal(key: &[u8; 32], nonce: &[u8; 12], pt: &[u8]) -> (r: Option<Vec<u8>>)
    ensures
        r is Some <==> pt@.len() <= MAX_PLAINTEXT,
        r matches Some(c) ==> c@ == gcm_seal(key@, nonce@, pt@),
        r matches Some(c) ==> c@.len() == pt@.len() + 16,
        r matches Some(c) ==> gcm_open(key@, nonce@, c@) == Some(pt@),
{
    let cipher = aes_gcm::Aes256Gcm::new(key.into());
    cipher.encrypt(aes_gcm::Nonce::from_slice(nonce), pt).ok()
}

/// Relies on aes-gcm's `Aead::decrypt` for `Aes256Gcm`: the plaintext when
/// the tag verifies, an error otherwise.
#[verifier::external_body]
fn aes_open(key: &[u8; 32], nonce: &[u8], ct: &[u8]) -> (r: Option<Vec<u8>>)
    requires
        nonce@.len() == NONCE_SIZE,
    ensures
        r matches Some(p) ==> gcm_open(key@, nonce@, ct@) == Some(p@),
        r is None ==> gcm_open(key@, nonce@, ct@) is None,
{
    let cipher = aes_gcm::Aes256Gcm::new(key.into());
    cipher.decrypt(aes_gcm::Nonce::from_slice(nonce), ct).ok()
}

/// Relies on base64's `Engine::encode` with the `STANDARD` engine: the
/// padded text, which `Engine::decode` turns back into the same bytes.
#[verifier::external_body]
pub(crate) fn base64_encode(b: &[u8]) -> (r: String)
    ensures
        r@ == base64_of(b@),
        base64_decoded(r@) == Some(b@),
{
    base64::engine::general_purpose::STANDARD.encode(b)
}

/// Relies on base64's `Engine::decode` with the `STANDARD` engine.
#[verifier::external_body]
fn base64_decode(s: &str) -> (r: Option<Vec<u8>>)
    ensures
        r matches Some(v) ==> base64_decoded(s@) == Some(v@),
        r is None ==> base64_decoded(s@) is None,
{
    base64::engine::general_purpose::STANDARD.decode(s).ok()
}

/// Relies on `String::from_utf8`: the text when the bytes are valid UTF-8.
#[verifier::external_body]
fn utf8_text(v: Vec<u8>) -> (r: Option<String>)
    ensures
        r is Some <==> valid_utf8(v@),
        r matches Some(s) ==> s@ == decode_utf8(v@),
{
    String::from_utf8(v).ok()
}

/// Why a sealed value could not be opened or a value not sealed.
#[derive(Clone, Copy, Debug, PartialEq, Eq, Structural)]
pub enum CryptoError {
    EncryptionFailed,
    InvalidBase64,
    TooShort,
    DecryptionFailed,
    InvalidUtf8,
}

impl CryptoError {
    /// A redacted description; it never holds key material.
    pub fn message(&self) -> (r: &'static str)
        ensures
            *self == CryptoError::EncryptionFailed ==> r@ == "encryption failed"@,
            *self == CryptoError::InvalidBase64 ==> r@ == "invalid base64"@,
            *self == CryptoError::TooShort ==> r@ == "ciphertext too short"@,
            *self == CryptoError::DecryptionFailed ==> r@ == "decryption failed"@,
            *self == CryptoError::InvalidUtf8 ==> r@ == "invalid UTF-8"@,
    {
        match self {
            CryptoError::EncryptionFailed => "encryption failed",
            CryptoError::InvalidBase64 => "invalid base64",
            CryptoError::TooShort => "ciphertext too short",
            CryptoError::DecryptionFailed => "decryption failed",
            CryptoError::InvalidUtf8 => "invalid UTF-8",
        }
    }
}

/// What opening the sealed text `sealed` under `key` gives.
pub open spec fn unseal_spec(sealed: Seq<char>, key: Seq<u8>) -> Result<Seq<char>, CryptoError> {
    match base64_decoded(sealed) {
        None => Err(CryptoError::InvalidBase64),
        Some(data) => if data.len() < NONCE_SIZE {
            Err(CryptoError::TooShort)
        } else {
            match gcm_open(
                key,
                data.subrange(0, NONCE_SIZE as int),
                data.subrange(NONCE_SIZE as int, data.len() as int),
            ) {
                None => Err(CryptoError::DecryptionFailed),
                Some(p) => if valid_utf8(p) {
                    Ok(decode_utf8(p))
                } else {
                    Err(CryptoError::InvalidUtf8)
                },
            }
        },
    }
}

/// The sealed text of `pt` under `key` with nonce `nonce`.
pub open spec fn sealed_with(pt: Seq<char>, key: Seq<u8>, nonce: Seq<u8>) -> Seq<char> {
    base64_of(nonce + gcm_seal(key, nonce, encode_utf8(pt)))
}

/// A fresh random 32-byte key.
pub fn generate_key() -> (r: [u8; 32]) {
    let mut key = [0u8; 32];
    fill_random(&mut key);
    key
}

/// Seals `plaintext` under `key` with the given nonce: the base64 text of
/// the nonce followed by the ciphertext and its tag. It fails only when the
/// plaintext is over 2^36 bytes.
pub fn seal_with_nonce(plaintext: &str, key: &[u8; 32], nonce: &[u8; 12]) -> (r: Result<
    String,
    CryptoError,
>)
    ensures
        r is Ok <==> encode_utf8(plaintext@).len() <= MAX_PLAINTEXT,
        r matches Err(e) ==> e == CryptoError::EncryptionFailed,
        r matches Ok(c) ==> c@ == sealed_with(plaintext@, key@, nonce@),
        r matches Ok(c) ==> base64_decoded(c@) == Some(
            nonce@ + gcm_seal(key@, nonce@, encode_utf8(plaintext@)),
        ),
        r matches Ok(c) ==> gcm_seal(key@, nonce@, encode_utf8(plaintext@)).len() == encode_utf8(
            plaintext@,
        ).len() + 16,
        r matches Ok(c) ==> unseal_spec(c@, key@) == Ok::<Seq<char>, CryptoError>(plaintext@),
{
    let bytes = plaintext.as_bytes();
    match aes_seal(key, nonce, bytes) {
        None => Err(CryptoError::EncryptionFailed),
        Some(ct) => {
            let mut data: Vec<u8> = Vec::new();
            let mut i: usize = 0;
            while i < NONCE_SIZE
                invariant
                    0 <= i <= NONCE_SIZE,
                    nonce@.len() == NONCE_SIZE,
                    data@ == nonce@.subrange(0, i as int),
                decreases NONCE_SIZE - i,
            {
                data.push(nonce[i]);
                i = i + 1;
                assert(data@ =~= nonce@.subrange(0, i as int));
            }
            let mut j: usize = 0;
            while j < ct.len()
                invariant
                    0 <= j <= ct@.len(),
                    nonce@.len() == NONCE_SIZE,
                    data@ == nonce@ + ct@.subrange(0, j as int),
                decreases ct@.len() - j,
            {
                data.push(ct[j]);
                j = j + 1;
                assert(data@ =~= nonce@ + ct@.subrange(0, j as int));
            }
            assert(data@ =~= nonce@ + ct@);
            assert(data@.subrange(0, NONCE_SIZE as int) =~= nonce@);
            assert(data@.subrange(NONCE_SIZE as int, data@.len() as int) =~= ct@);
            let sealed = base64_encode(data.as_slice());
            Ok(sealed)
        },
    }
}

/// Two sealed texts whose nonces differ are different texts.
pub proof fn lemma_distinct_nonces_give_distinct_seals(
    c1: Seq<char>,
    c2: Seq<char>,
    n1: Seq<u8>,
    n2: Seq<u8>,
    t1: Seq<u8>,
    t2: Seq<u8>,
)
    requires
        base64_decoded(c1) == Some(n1 + t1),
        base64_decoded(c2) == Some(n2 + t2),
        n1.len() == NONCE_SIZE,
        n2.len() == NONCE_SIZE,
        n1 != n2,
    ensures
        c1 != c2,
{
    if c1 == c2 {
        assert((n1 + t1).subrange(0, NONCE_SIZE as int) =~= n1);
        assert((n2 + t2).subrange(0, NONCE_SIZE as int) =~= n2);
    }
}

/// Seals `plaintext` under `key` with a fresh random nonce; see
/// [`seal_with_nonce`].
///
/// It fails only when the plaintext is over 2^36 bytes; what it returns
/// opens under the same key to the same plaintext.
pub fn encrypt(plaintext: &str, key: &[u8; 32]) -> (r: Result<String, CryptoError>)
    ensures
        r is Ok <==> encode_utf8(plaintext@).len() <= MAX_PLAINTEXT,
        r matches Err(e) ==> e == CryptoError::EncryptionFailed,
        r matches Ok(c) ==> exists|nonce: Seq<u8>|
            nonce.len() == NONCE_SIZE && c@ == sealed_with(plaintext@, key@, nonce)
                && base64_decoded(c@) == Some(nonce + gcm_seal(key@, nonce, encode_utf8(plaintext@))),
        r matches Ok(c) ==> unseal_spec(c@, key@) == Ok::<Seq<char>, CryptoError>(plaintext@),
{
    let mut nonce = [0u8; 12];
    fill_random(&mut nonce);
    seal_with_nonce(plaintext, key, &nonce)
}

/// Opens a sealed text under `key`.
pub fn decrypt(ciphertext_b64: &str, key: &[u8; 32]) -> (r: Result<String, CryptoError>)
    ensures
        match r {
            Ok(s) => unseal_spec(ciphertext_b64@, key@) == Ok::<Seq<char>, CryptoError>(s@),
            Err(e) => unseal_spec(ciphertext_b64@, key@) == Err::<Seq<char>, CryptoError>(e),
        },
{
    let data = match base64_decode(ciphertext_b64) {
        Some(d) => d,
        None => {
            return Err(CryptoError::InvalidBase64);
        },
    };
    if data.len() < NONCE_SIZE {
        return Err(CryptoError::TooShort);
    }
    let mut nonce: Vec<u8> = Vec::new();
    let mut ct: Vec<u8> = Vec::new();
    let mut i: usize = 0;
    while i < data.len()
        invariant
            0 <= i <= data@.len(),
            NONCE_SIZE <= data@.len(),
            i <= NONCE_SIZE ==> nonce@ == data@.subrange(0, i as int) && ct@.len() == 0,
            i > NONCE_SIZE ==> nonce@ == data@.subrange(0, NONCE_SIZE as int) && ct@
                == data@.subrange(NONCE_SIZE as int, i as int),
        decreases data@.len() - i,
    {
        if i < NONCE_SIZE {
            nonce.push(data[i]);
        } else {
            ct.push(data[i]);
        }
        i = i + 1;
        assert(i <= NONCE_SIZE ==> nonce@ =~= data@.subrange(0, i as int));
        assert(i > NONCE_SIZE ==> ct@ =~= data@.subrange(NONCE_SIZE as int, i as int));
        assert(i > NONCE_SIZE ==> nonce@ =~= data@.subrange(0, NONCE_SIZE as int));
    }
    assert(ct@ =~= data@.subrange(NONCE_SIZE as int, data@.len() as int));
    let plain = match aes_open(key, nonce.as_slice(), ct.as_slice()) {
        Some(p) => p,
        None => {
            return Err(CryptoError::DecryptionFailed);
        },
    };
    match utf8_text(plain) {
        Some(s) => Ok(s),
        None => Err(CryptoError::InvalidUtf8),
    }
}

} // verus!
