//! String encryption and decryption with AES-256-GCM.
//!
//! An encrypted string is the standard Base64 encoding of a 12-byte random
//! nonce followed by the AES-256-GCM ciphertext (with its tag) of the UTF-8
//! bytes of the plaintext.

use vstd::prelude::*;
use vstd::utf8::*;

use crate::text::string_from_utf8;

use aes_gcm::aead::{Aead, KeyInit};
use base64::Engine as _;
use rand::RngCore;

verus! {

broadcast use {vstd::utf8::encode_utf8_valid_utf8, vstd::utf8::encode_utf8_decode_utf8};

/// Errors of string encryption and decryption.
#[derive(Debug, Clone, Copy, PartialEq, Eq, Structural)]
pub enum CryptoError {
    InvalidKey,
    EncryptionFailed,
    DecryptionFailed,
    InvalidData,
}

impl CryptoError {
    /// The human-readable message of this error.
    pub fn message(&self) -> (r: String)
        ensures
            r@ == match *self {
                CryptoError::InvalidKey => "Invalid encryption key"@,
                CryptoError::EncryptionFailed => "Encryption failed"@,
                CryptoError::DecryptionFailed => "Decryption failed"@,
                CryptoError::InvalidData => "Invalid data format"@,
            },
    {
        match self {
            CryptoError::InvalidKey => "Invalid encryption key".to_owned(),
            CryptoError::EncryptionFailed => "Encryption failed".to_owned(),
            CryptoError::DecryptionFailed => "Decryption failed".to_owned(),
            CryptoError::InvalidData => "Invalid data format".to_owned(),
        }
    }
}

/// The standard (padded) Base64 encoding of a byte sequence.
pub uninterp spec fn base64_standard_encoding(bytes: Seq<u8>) -> Seq<char>;

/// The bytes that a text decodes to under standard (padded) Base64, if it is valid.
pub uninterp spec fn base64_standard_decoding(text: Seq<char>) -> Option<Seq<u8>>;

/// The AES-256-GCM ciphertext (with tag) of `plaintext` under `key` and `nonce`,
/// or `None` when the cipher refuses the input.
pub uninterp spec fn aes256gcm_seal(key: Seq<u8>, nonce: Seq<u8>, plaintext: Seq<u8>) -> Option<
    Seq<u8>,
>;

/// The plaintext that AES-256-GCM recovers from `ciphertext` under `key` and
/// `nonce`, or `None` when authentication fails.
pub uninterp spec fn aes256gcm_open(key: Seq<u8>, nonce: Seq<u8>, ciphertext: Seq<u8>) -> Option<
    Seq<u8>,
>;

/// `base64::engine::general_purpose::STANDARD.encode`. Claims: the result is
/// the named encoding, ASCII, four characters per started group of three
/// bytes, padded with '=' where the last group is short, and decoding it
/// gives the bytes back.
#[verifier::external_body]
fn base64_encode(bytes: &[u8]) -> (r: String)
    ensures
        r@ == base64_standard_encoding(bytes@),
        is_ascii_chars(r@),
        r@.len() == 4 * ((bytes@.len() + 2) / 3),
        bytes@.len() % 3 != 0 ==> r@.last() == '=',
        base64_standard_decoding(r@) == Some(bytes@),
{
    base64::engine::general_purpose::STANDARD.encode(bytes)
}

/// `base64::engine::general_purpose::STANDARD.decode`. Claims: the result is
/// the named decoding of the text (`None` for the crate's `DecodeError`).
#[verifier::external_body]
fn base64_decode(text: &str) -> (r: Option<Vec<u8>>)
    ensures
        match base64_standard_decoding(text@) {
            Some(b) => r matches Some(v) && v@ == b,
            None => r is None,
        },
{
    base64::engine::general_purpose::STANDARD.decode(text).ok()
}

/// The longest plaintext AES-GCM encrypts: 2^36 bytes.
pub open spec fn aes_gcm_max_plaintext() -> int {
    0x10_0000_0000
}

/// `Aes256Gcm::new(key).encrypt(nonce, plaintext)`. Claims: the result is the
/// named ciphertext, as long as the plaintext plus the 16-byte tag; it is
/// there exactly when the plaintext is at most 2^36 bytes (the crate's
/// `P_MAX`); and opening it with the same key and nonce gives the plaintext
/// back.
#[verifier::external_body]
fn aes256gcm_encrypt(key: &[u8], nonce: &[u8], plaintext: &[u8]) -> (r: Option<Vec<u8>>)
    requires
        key@.len() == 32,
        nonce@.len() == 12,
    ensures
        match aes256gcm_seal(key@, nonce@, plaintext@) {
            Some(c) => r matches Some(v) && v@ == c,
            None => r is None,
        },
        r matches Some(v) ==> aes256gcm_open(key@, nonce@, v@) == Some(plaintext@),
        r matches Some(v) ==> v@.len() == plaintext@.len() + 16,
        (r is Some) == (plaintext@.len() <= aes_gcm_max_plaintext()),
{
    let cipher = aes_gcm::Aes256Gcm::new(aes_gcm::Key::<aes_gcm::Aes256Gcm>::from_slice(key));
    cipher.encrypt(aes_gcm::Nonce::from_slice(nonce), plaintext).ok()
}

/// `Aes256Gcm::new(key).decrypt(nonce, ciphertext)`. Claims: the result is the
/// named plaintext (`None` when the crate reports an error).
#[verifier::external_body]
fn aes256gcm_decrypt(key: &[u8], nonce: &[u8], ciphertext: &[u8]) -> (r: Option<Vec<u8>>)
    requires
        key@.len() == 32,
        nonce@.len() == 12,
    ensures
        match aes256gcm_open(key@, nonce@, ciphertext@) {
            Some(p) => r matches Some(v) && v@ == p,
            None => r is None,
        },
{
    let cipher = aes_gcm::Aes256Gcm::new(aes_gcm::Key::<aes_gcm::Aes256Gcm>::from_slice(key));
    cipher.decrypt(aes_gcm::Nonce::from_slice(nonce), ciphertext).ok()
}

/// `OsRng.fill_bytes` on a buffer of `n` zero bytes. Claims only the length:
/// the contents come from the operating system's random source (which makes
/// the call panic if that source fails; no argument controls this).
#[verifier::external_body]
fn os_random_bytes(n: usize) -> (r: Vec<u8>)
    ensures
        r@.len() == n,
{
    let mut buf = vec![0u8; n];
    rand::rngs::OsRng.fill_bytes(&mut buf);
    buf
}

/// The 32 key bytes used for a key text: the Base64 decoding of a 44-byte
/// text (which must be 32 bytes), or else the text's own UTF-8 bytes cut or
/// padded with zeros to 32 bytes.
pub open spec fn spec_key_material(key_text: Seq<char>) -> Result<Seq<u8>, CryptoError> {
    let raw = encode_utf8(key_text);
    if raw.len() == 44 {
        match base64_standard_decoding(key_text) {
            Some(b) => if b.len() == 32 {
                Ok(b)
            } else {
                Err(CryptoError::InvalidKey)
            },
            None => Err(CryptoError::InvalidKey),
        }
    } else {
        Ok(pad_or_cut_32(raw))
    }
}

/// The first 32 bytes of `raw`, followed by zeros up to 32 bytes.
pub open spec fn pad_or_cut_32(raw: Seq<u8>) -> Seq<u8> {
    Seq::new(32, |i: int| if i < raw.len() { raw[i] } else { 0u8 })
}

/// The encryption of `plaintext` under `key` with the given nonce.
pub open spec fn spec_encrypt_with_nonce(key: Seq<u8>, nonce: Seq<u8>, plaintext: Seq<char>) -> Result<
    Seq<char>,
    CryptoError,
> {
    match aes256gcm_seal(key, nonce, encode_utf8(plaintext)) {
        Some(c) => Ok(base64_standard_encoding(nonce + c)),
        None => Err(CryptoError::EncryptionFailed),
    }
}

/// The decryption of an encrypted text under `key`.
pub open spec fn spec_decrypt(key: Seq<u8>, data: Seq<char>) -> Result<Seq<char>, CryptoError> {
    match base64_standard_decoding(data) {
        None => Err(CryptoError::InvalidData),
        Some(d) => if d.len() < 12 {
            Err(CryptoError::InvalidData)
        } else {
            match aes256gcm_open(key, d.subrange(0, 12), d.subrange(12, d.len() as int)) {
                None => Err(CryptoError::DecryptionFailed),
                Some(p) => if valid_utf8(p) {
                    Ok(decode_utf8(p))
                } else {
                    Err(CryptoError::InvalidData)
                },
            }
        },
    }
}

/// The characters of a successful text result.
pub open spec fn result_text(r: Result<String, CryptoError>) -> Result<Seq<char>, CryptoError> {
    match r {
        Ok(s) => Ok(s@),
        Err(e) => Err(e),
    }
}

/// AES-256-GCM encryption and decryption of strings under one key.
pub struct StringCrypto {
    key: Vec<u8>,
}

impl StringCrypto {
    #[verifier::type_invariant]
    spec fn key_is_256_bits(&self) -> bool {
        self.key@.len() == 32
    }

    /// The key bytes in use.
    pub closed spec fn key(&self) -> Seq<u8> {
        self.key@
    }

    /// Creates an instance from a key text: a 44-byte standard Base64 text
    /// of a 32-byte key, or any other text, whose bytes are cut or padded
    /// with zeros to 32 bytes.
    pub fn new(key_text: &str) -> (r: Result<Self, CryptoError>)
        ensures
            match spec_key_material(key_text@) {
                Ok(k) => r matches Ok(c) && c.key() == k,
                Err(e) => r == Err::<Self, CryptoError>(e),
            },
    {
        let raw = key_text.as_bytes();
        if raw.len() == 44 {
            match base64_decode(key_text) {
                Some(b) => {
                    if b.len() == 32 {
                        Ok(StringCrypto { key: b })
                    } else {
                        Err(CryptoError::InvalidKey)
                    }
                },
                None => Err(CryptoError::InvalidKey),
            }
        } else {
            let mut key: Vec<u8> = Vec::new();
            let mut i: usize = 0;
            while i < 32
                invariant
                    raw@ == encode_utf8(key_text@),
                    i <= 32,
                    key@ == pad_or_cut_32(raw@).subrange(0, i as int),
                decreases 32 - i,
            {
                if i < raw.len() {
                    key.push(raw[i]);
                } else {
                    key.push(0u8);
                }
                i = i + 1;
                assert(key@ =~= pad_or_cut_32(raw@).subrange(0, i as int));
            }
            assert(key@ =~= pad_or_cut_32(raw@));
            Ok(StringCrypto { key })
        }
    }

    /// Encrypts with the given 12-byte nonce: the Base64 text of the nonce
    /// followed by the ciphertext of the plaintext's UTF-8 bytes and the
    /// 16-byte tag. It succeeds exactly on plaintexts of at most 2^36 bytes.
    /// Decrypting the result under the same key gives the plaintext back.
    pub fn encrypt_with_nonce(&self, plaintext: &str, nonce: &[u8]) -> (r: Result<
        String,
        CryptoError,
    >)
        requires
            nonce@.len() == 12,
        ensures
            match spec_encrypt_with_nonce(self.key(), nonce@, plaintext@) {
                Ok(t) => r matches Ok(s) && s@ == t,
                Err(e) => r == Err::<String, CryptoError>(e),
            },
            r matches Ok(s) ==> spec_decrypt(self.key(), s@) == Ok::<Seq<char>, CryptoError>(
                plaintext@,
            ),
            r matches Ok(s) ==> is_ascii_chars(s@),
            r matches Ok(s) ==> (base64_standard_decoding(s@) matches Some(d) && d.len() == 12
                + encode_utf8(plaintext@).len() + 16 && d.subrange(0, 12) == nonce@),
            (r is Ok) == (encode_utf8(plaintext@).len() <= aes_gcm_max_plaintext()),
    {
        proof {
            use_type_invariant(self);
        }
        let pt = plaintext.as_bytes();
        match aes256gcm_encrypt(self.key.as_slice(), nonce, pt) {
            None => Err(CryptoError::EncryptionFailed),
            Some(c) => {
                let mut framed: Vec<u8> = Vec::new();
                let mut i: usize = 0;
                while i < nonce.len()
                    invariant
                        i <= nonce@.len(),
                        framed@ == nonce@.subrange(0, i as int),
                    decreases nonce@.len() - i,
                {
                    framed.push(nonce[i]);
                    i = i + 1;
                    assert(framed@ =~= nonce@.subrange(0, i as int));
                }
                let mut j: usize = 0;
                while j < c.len()
                    invariant
                        j <= c@.len(),
                        framed@ == nonce@ + c@.subrange(0, j as int),
                    decreases c@.len() - j,
                {
                    framed.push(c[j]);
                    j = j + 1;
                    assert(framed@ =~= nonce@ + c@.subrange(0, j as int));
                }
                assert(framed@ =~= nonce@ + c@);
                let text = base64_encode(framed.as_slice());
                proof {
                    let d = nonce@ + c@;
                    assert(d.subrange(0, 12) =~= nonce@);
                    assert(d.subrange(12, d.len() as int) =~= c@);
                }
                Ok(text)
            },
        }
    }

    /// Encrypts with a fresh random nonce. The result is the Base64 text of
    /// the 12 nonce bytes, the ciphertext and the 16-byte tag; it succeeds
    /// exactly on plaintexts of at most 2^36 bytes, and decrypting it under
    /// the same key gives the plaintext back.
    pub fn encrypt(&self, plaintext: &str) -> (r: Result<String, CryptoError>)
        ensures
            exists|n: Seq<u8>|
                n.len() == 12 && #[trigger] spec_encrypt_with_nonce(self.key(), n, plaintext@)
                    == result_text(r),
            r matches Ok(s) ==> spec_decrypt(self.key(), s@) == Ok::<Seq<char>, CryptoError>(
                plaintext@,
            ),
            r matches Ok(s) ==> is_ascii_chars(s@),
            r matches Ok(s) ==> (base64_standard_decoding(s@) matches Some(d) && d.len() == 12
                + encode_utf8(plaintext@).len() + 16),
            (r is Ok) == (encode_utf8(plaintext@).len() <= aes_gcm_max_plaintext()),
    {
        let nonce = os_random_bytes(12);
        let r = self.encrypt_with_nonce(plaintext, nonce.as_slice());
        proof {
            assert(spec_encrypt_with_nonce(self.key(), nonce@, plaintext@) == result_text(r));
        }
        r
    }

    /// Decrypts a text made by `encrypt`.
    pub fn decrypt(&self, encrypted_data: &str) -> (r: Result<String, CryptoError>)
        ensures
            match spec_decrypt(self.key(), encrypted_data@) {
                Ok(p) => r matches Ok(s) && s@ == p,
                Err(e) => r == Err::<String, CryptoError>(e),
            },
    {
        proof {
            use_type_invariant(self);
        }
        let data = match base64_decode(encrypted_data) {
            Some(d) => d,
            None => return Err(CryptoError::InvalidData),
        };
        if data.len() < 12 {
            return Err(CryptoError::InvalidData);
        }
        let mut nonce: Vec<u8> = Vec::new();
        let mut body: Vec<u8> = Vec::new();
        let mut i: usize = 0;
        while i < data.len()
            invariant
                12 <= data@.len(),
                i <= data@.len(),
                i <= 12 ==> nonce@ == data@.subrange(0, i as int),
                i <= 12 ==> body@.len() == 0,
                i > 12 ==> nonce@ == data@.subrange(0, 12),
                i > 12 ==> body@ == data@.subrange(12, i as int),
            decreases data@.len() - i,
        {
            if i < 12 {
                nonce.push(data[i]);
            } else {
                body.push(data[i]);
            }
            i = i + 1;
            assert(i <= 12 ==> nonce@ =~= data@.subrange(0, i as int));
            assert(i > 12 ==> body@ =~= data@.subrange(12, i as int));
        }
        assert(body@ =~= data@.subrange(12, data@.len() as int));
        match aes256gcm_decrypt(self.key.as_slice(), nonce.as_slice(), body.as_slice()) {
            None => Err(CryptoError::DecryptionFailed),
            Some(p) => match string_from_utf8(p) {
                Ok(s) => Ok(s),
                Err(_) => Err(CryptoError::InvalidData),
            },
        }
    }
}

/// Generates a new key text: the standard Base64 encoding of 32 random
/// bytes. It is 44 ASCII characters ending in '=', decodes back to 32 bytes,
/// and is accepted by `StringCrypto::new` with those bytes as its key.
pub fn generate_key() -> (r: String)
    ensures
        exists|k: Seq<u8>| k.len() == 32 && #[trigger] base64_standard_encoding(k) == r@,
        r@.len() == 44,
        is_ascii_chars(r@),
        r@.last() == '=',
        base64_standard_decoding(r@) matches Some(k) && k.len() == 32 && spec_key_material(r@)
            == Ok::<Seq<u8>, CryptoError>(k),
{
    let key = os_random_bytes(32);
    let r = base64_encode(key.as_slice());
    proof {
        assert(base64_standard_encoding(key@) == r@);
        vstd::utf8::is_ascii_chars_encode_utf8(r@);
        assert(encode_utf8(r@).len() == 44);
    }
    r
}

} // verus!
