use aes_gcm_siv::aead::generic_array::GenericArray;
use aes_gcm_siv::aead::{Aead, AeadCore, KeyInit, OsRng};
use aes_gcm_siv::Aes256GcmSiv;
use base64::engine::general_purpose;
use base64::Engine;
use vstd::prelude::*;

verus! {

/// Length in bytes of an AES-256-GCM-SIV key.
pub const KEY_LEN: usize = 32;

/// Length in bytes of an AES-GCM-SIV nonce.
pub const NONCE_LEN: usize = 12;

/// Length in bytes of the authentication tag appended to every ciphertext.
pub const TAG_LEN: usize = 16;

/// The longest plaintext AES-GCM-SIV accepts (RFC 8452, section 6).
pub const MAX_PLAINTEXT_LEN: u64 = 68719476736;

/// The error type of the `aead` crate, returned when sealing or opening fails.
#[verifier::external_type_specification]
#[verifier::external_body]
pub struct ExAeadError(aes_gcm_siv::aead::Error);

/// The error type of the `base64` crate's decoder.
#[verifier::external_type_specification]
#[verifier::external_body]
pub struct ExDecodeError(base64::DecodeError);

/// The ciphertext (tag appended) that AES-256-GCM-SIV produces for
/// `plaintext` under `key` and `nonce`, or `None` where it refuses the input.
pub uninterp spec fn aes_gcm_siv_seal(key: Seq<u8>, nonce: Seq<u8>, plaintext: Seq<u8>) -> Option<
    Seq<u8>,
>;

/// The plaintext that AES-256-GCM-SIV recovers from `ciphertext` under `key`
/// and `nonce`, or `None` where the tag does not authenticate it.
pub uninterp spec fn aes_gcm_siv_open(key: Seq<u8>, nonce: Seq<u8>, ciphertext: Seq<u8>) -> Option<
    Seq<u8>,
>;

/// Unpadded URL-safe base64 text of `bytes`.
pub uninterp spec fn b64url_encode(bytes: Seq<u8>) -> Seq<char>;

/// The bytes that unpadded URL-safe base64 `text` stands for, or `None` when
/// it is not such text.
pub uninterp spec fn b64url_decode(text: Seq<char>) -> Option<Seq<u8>>;

/// `Aead::encrypt` of `Aes256GcmSiv` (aes-gcm-siv 0.11), keyed with `key`,
/// with no associated data. Its source returns an error exactly when the
/// plaintext is longer than `P_MAX` (2^36 bytes), and otherwise the
/// encrypted message followed by the 16-byte tag.
#[verifier::external_body]
fn aes_gcm_siv_encrypt(key: &[u8], nonce: &[u8], plaintext: &[u8]) -> (res: Result<
    Vec<u8>,
    aes_gcm_siv::aead::Error,
>)
    requires
        key@.len() == KEY_LEN,
        nonce@.len() == NONCE_LEN,
    ensures
        match res {
            Ok(c) => aes_gcm_siv_seal(key@, nonce@, plaintext@) == Some(c@),
            Err(_) => aes_gcm_siv_seal(key@, nonce@, plaintext@) is None,
        },
        res is Ok <==> plaintext@.len() <= MAX_PLAINTEXT_LEN,
        res matches Ok(c) ==> c@.len() == plaintext@.len() + TAG_LEN,
{
    let cipher = Aes256GcmSiv::new(GenericArray::from_slice(key));
    cipher.encrypt(GenericArray::from_slice(nonce), plaintext)
}

/// `Aead::decrypt` of `Aes256GcmSiv` (aes-gcm-siv 0.11), keyed with `key`,
/// with no associated data. Its source splits off the trailing tag, decrypts
/// the rest in counter mode under that tag and recomputes the tag over the
/// result: it returns the plaintext exactly when the tags agree. So what
/// `encrypt` sealed opens to the same message, and whatever opens (within
/// the plaintext limit) seals back to the same ciphertext.
#[verifier::external_body]
fn aes_gcm_siv_decrypt(key: &[u8], nonce: &[u8], ciphertext: &[u8]) -> (res: Result<
    Vec<u8>,
    aes_gcm_siv::aead::Error,
>)
    requires
        key@.len() == KEY_LEN,
        nonce@.len() == NONCE_LEN,
    ensures
        match res {
            Ok(p) => aes_gcm_siv_open(key@, nonce@, ciphertext@) == Some(p@),
            Err(_) => aes_gcm_siv_open(key@, nonce@, ciphertext@) is None,
        },
        res matches Ok(p) ==> p@.len() + TAG_LEN == ciphertext@.len(),
        (exists|m: Seq<u8>| #[trigger] aes_gcm_siv_seal(key@, nonce@, m) == Some(ciphertext@)) ==> res is Ok,
        res matches Ok(p) ==> forall|m: Seq<u8>| #[trigger] aes_gcm_siv_seal(key@, nonce@, m) == Some(ciphertext@) ==> p@ == m,
        res matches Ok(p) ==> (p@.len() <= MAX_PLAINTEXT_LEN ==> aes_gcm_siv_seal(
            key@,
            nonce@,
            p@,
        ) == Some(ciphertext@)),
{
    let cipher = Aes256GcmSiv::new(GenericArray::from_slice(key));
    cipher.decrypt(GenericArray::from_slice(nonce), ciphertext)
}

/// `Aes256GcmSiv::generate_key(&mut OsRng)`: 32 bytes from the operating
/// system's random number generator. Nothing is claimed of their value.
#[verifier::external_body]
fn random_key() -> (key: Vec<u8>)
    ensures
        key@.len() == KEY_LEN,
{
    Aes256GcmSiv::generate_key(&mut OsRng).to_vec()
}

/// `Aes256GcmSiv::generate_nonce(&mut OsRng)`: 12 bytes from the operating
/// system's random number generator. Nothing is claimed of their value.
#[verifier::external_body]
fn random_nonce() -> (nonce: Vec<u8>)
    ensures
        nonce@.len() == NONCE_LEN,
{
    Aes256GcmSiv::generate_nonce(&mut OsRng).to_vec()
}

/// A digit of URL-safe Base64 (`A-Z`, `a-z`, `0-9`, `-`, `_`).
pub open spec fn is_b64url_digit(c: char) -> bool {
    ('A' <= c && c <= 'Z') || ('a' <= c && c <= 'z') || ('0' <= c && c <= '9') || c == '-' || c
        == '_'
}

/// Every character of `s` is a URL-safe Base64 digit.
pub open spec fn all_b64url_digits(s: Seq<char>) -> bool {
    forall|i: int| 0 <= i < s.len() ==> is_b64url_digit(#[trigger] s[i])
}

/// The length of the unpadded Base64 text of `n` bytes: four digits for
/// every three bytes, and two or three digits for a last one or two bytes.
pub open spec fn b64_unpadded_len(n: nat) -> nat {
    4 * (n / 3) + if n % 3 == 0 {
        0
    } else {
        n % 3 + 1
    }
}

/// The number of bytes that unpadded Base64 text of `len` digits stands for.
pub open spec fn b64_decoded_len(len: nat) -> nat {
    3 * (len / 4) + if len % 4 == 0 {
        0
    } else {
        (len % 4 - 1) as nat
    }
}

/// Text that could be unpadded URL-safe Base64: only its digits, and not a
/// length that leaves a single digit over.
pub open spec fn b64url_text_shape(s: Seq<char>) -> bool {
    all_b64url_digits(s) && s.len() % 4 != 1
}

/// `Engine::encode` of base64's `URL_SAFE_NO_PAD` engine (base64 0.21): the
/// URL-safe digits of the bytes, four for every three bytes and two or three
/// for a last one or two, with no padding. The bound keeps the output length
/// from overflowing, where it panics.
#[verifier::external_body]
fn base64_url_encode(bytes: &[u8]) -> (text: String)
    requires
        bytes@.len() <= usize::MAX / 4,
    ensures
        text@ == b64url_encode(bytes@),
        text@.len() == b64_unpadded_len(bytes@.len()),
        all_b64url_digits(text@),
{
    general_purpose::URL_SAFE_NO_PAD.encode(bytes)
}

/// `Engine::decode` of base64's `URL_SAFE_NO_PAD` engine (base64 0.21),
/// applied to the UTF-8 bytes of `text`. Text that this engine's `encode`
/// produced decodes back to the bytes it encoded (the crate's round-trip
/// tests). The engine refuses characters outside the URL-safe alphabet
/// (padding included), a length that leaves one digit over, and a last digit
/// with nonzero unused bits, so the text it accepts is exactly the encoding
/// of what it decodes to. Which error variant comes back for bad text is not
/// stated.
#[verifier::external_body]
fn base64_url_decode(text: &str) -> (res: Result<Vec<u8>, base64::DecodeError>)
    ensures
        match res {
            Ok(v) => b64url_decode(text@) == Some(v@),
            Err(_) => b64url_decode(text@) is None,
        },
        (exists|b: Seq<u8>| b.len() <= usize::MAX / 4 && #[trigger] b64url_encode(b) == text@) ==> res is Ok,
        res matches Ok(v) ==> forall|b: Seq<u8>| b.len() <= usize::MAX / 4 && #[trigger] b64url_encode(b) == text@ ==> v@ == b,
        res matches Ok(v) ==> b64url_encode(v@) == text@,
        text@.len() == 0 ==> res is Ok,
        res matches Ok(v) ==> b64url_text_shape(text@) && v@.len() == b64_decoded_len(text@.len()),
{
    general_purpose::URL_SAFE_NO_PAD.decode(text.as_bytes())
}

/// Why a cipher operation failed.
#[derive(Clone, Copy, Debug, PartialEq, Eq, Structural)]
pub enum CipherError {
    /// AES-GCM-SIV refused the input: a plaintext over the size limit, or a
    /// ciphertext whose tag does not authenticate it under this key and nonce.
    Aead,
    /// A key or nonce was not unpadded URL-safe base64.
    InvalidBase64,
    /// A decoded key was not 32 bytes long.
    InvalidKeyLength,
    /// A decoded nonce was not 12 bytes long.
    InvalidNonceLength,
}

/// A key and nonce of the right lengths for AES-256-GCM-SIV.
pub open spec fn well_sized(key: Seq<u8>, nonce: Seq<u8>) -> bool {
    key.len() == KEY_LEN && nonce.len() == NONCE_LEN
}

/// An AES-256-GCM-SIV key together with the nonce it is used with. Its view
/// is the pair (key bytes, nonce bytes).
pub struct Cipher {
    key: Vec<u8>,
    nonce: Vec<u8>,
}

impl View for Cipher {
    type V = (Seq<u8>, Seq<u8>);

    closed spec fn view(&self) -> (Seq<u8>, Seq<u8>) {
        (self.key@, self.nonce@)
    }
}

/// Decoding `key` and `nonce` cannot give a key or nonce of the wrong length:
/// either text cannot be unpadded URL-safe Base64, or their lengths are those
/// of a 32-byte key and a 12-byte nonce, or (in general) decoding both
/// succeeds only with the right lengths.
pub open spec fn decodes_well_sized_or_fails(key: Seq<char>, nonce: Seq<char>) -> bool {
    ||| !b64url_text_shape(key)
    ||| !b64url_text_shape(nonce)
    ||| (b64_decoded_len(key.len()) == KEY_LEN && b64_decoded_len(nonce.len()) == NONCE_LEN)
    ||| ((b64url_decode(key) is Some && b64url_decode(nonce) is Some) ==> well_sized(
        b64url_decode(key)->0,
        b64url_decode(nonce)->0,
    ))
}

impl Cipher {
    #[verifier::type_invariant]
    spec fn inv(&self) -> bool {
        well_sized(self.key@, self.nonce@)
    }

    /// A cipher over the given key and nonce.
    pub fn from_bytes(key: Vec<u8>, nonce: Vec<u8>) -> (cipher: Cipher)
        requires
            well_sized(key@, nonce@),
        ensures
            cipher@ == (key@, nonce@),
    {
        Cipher { key, nonce }
    }

    /// Seals `bytes`: the AES-256-GCM-SIV ciphertext with its tag appended.
    /// Fails only for a plaintext longer than the algorithm allows.
    pub fn encrypt(&self, bytes: &[u8]) -> (res: Result<Vec<u8>, CipherError>)
        ensures
            match res {
                Ok(c) => aes_gcm_siv_seal(self@.0, self@.1, bytes@) == Some(c@) && c@.len()
                    == bytes@.len() + TAG_LEN,
                Err(e) => e == CipherError::Aead && aes_gcm_siv_seal(self@.0, self@.1, bytes@) is None,
            },
            res is Ok <==> bytes@.len() <= MAX_PLAINTEXT_LEN,
    {
        proof {
            use_type_invariant(self);
        }
        match aes_gcm_siv_encrypt(self.key.as_slice(), self.nonce.as_slice(), bytes) {
            Ok(c) => Ok(c),
            Err(_) => Err(CipherError::Aead),
        }
    }

    /// Opens `bytes` sealed under this key and nonce. What `encrypt` sealed
    /// opens to the message it sealed; anything else that opens seals back
    /// to exactly `bytes`.
    pub fn decrypt(&self, bytes: &[u8]) -> (res: Result<Vec<u8>, CipherError>)
        ensures
            match res {
                Ok(p) => aes_gcm_siv_open(self@.0, self@.1, bytes@) == Some(p@),
                Err(e) => e == CipherError::Aead && aes_gcm_siv_open(self@.0, self@.1, bytes@) is None,
            },
            res matches Ok(p) ==> p@.len() + TAG_LEN == bytes@.len(),
            forall|m: Seq<u8>|
                #[trigger] aes_gcm_siv_seal(self@.0, self@.1, m) == Some(bytes@) ==> (res matches Ok(
                    p,
                ) && p@ == m),
            res matches Ok(p) ==> (p@.len() <= MAX_PLAINTEXT_LEN ==> aes_gcm_siv_seal(
                self@.0,
                self@.1,
                p@,
            ) == Some(bytes@)),
    {
        proof {
            use_type_invariant(self);
        }
        match aes_gcm_siv_decrypt(self.key.as_slice(), self.nonce.as_slice(), bytes) {
            Ok(p) => Ok(p),
            Err(_) => Err(CipherError::Aead),
        }
    }

    /// Whether `bytes` opens under this key and nonce.
    pub fn verify(&self, bytes: &[u8]) -> (valid: bool)
        ensures
            valid == aes_gcm_siv_open(self@.0, self@.1, bytes@) is Some,
            valid ==> bytes@.len() >= TAG_LEN,
            forall|m: Seq<u8>| #[trigger] aes_gcm_siv_seal(self@.0, self@.1, m) == Some(bytes@) ==> valid,
    {
        self.decrypt(bytes).is_ok()
    }

    /// The key and the nonce, each as unpadded URL-safe base64: 43 and 16
    /// URL-safe digits.
    pub fn to_base64(&self) -> (encoded: (String, String))
        ensures
            encoded.0@ == b64url_encode(self@.0),
            encoded.1@ == b64url_encode(self@.1),
            well_sized(self@.0, self@.1),
            encoded.0@.len() == 43 && all_b64url_digits(encoded.0@),
            encoded.1@.len() == 16 && all_b64url_digits(encoded.1@),
    {
        proof {
            use_type_invariant(self);
        }
        let key = base64_url_encode(self.key.as_slice());
        let nonce = base64_url_encode(self.nonce.as_slice());
        (key, nonce)
    }

    /// The cipher whose key and nonce are given as unpadded URL-safe base64.
    /// Fails when either is not such text; where both decode, they must
    /// decode to a 32-byte key and a 12-byte nonce. The text that
    /// `to_base64` produced gives back the same cipher, and the cipher it
    /// gives encodes back to the same text.
    pub fn from_base64(key: &str, nonce: &str) -> (res: Result<Cipher, CipherError>)
        requires
            decodes_well_sized_or_fails(key@, nonce@),
        ensures
            res is Ok <==> (b64url_decode(key@) is Some && b64url_decode(nonce@) is Some),
            res matches Ok(c) ==> b64url_decode(key@) == Some(c@.0) && b64url_decode(nonce@) == Some(
                c@.1,
            ) && well_sized(c@.0, c@.1),
            res matches Ok(c) ==> b64url_encode(c@.0) == key@ && b64url_encode(c@.1) == nonce@,
            !b64url_text_shape(key@) || !b64url_text_shape(nonce@) ==> res is Err,
            res matches Err(e) ==> e == CipherError::InvalidBase64,
            forall|k: Seq<u8>, n: Seq<u8>|
                well_sized(k, n) && #[trigger] b64url_encode(k) == key@ && #[trigger] b64url_encode(n)
                    == nonce@ ==> (res matches Ok(c) && c@ == (k, n)),
    {
        let k = match base64_url_decode(key) {
            Ok(k) => k,
            Err(_) => return Err(CipherError::InvalidBase64),
        };
        let n = match base64_url_decode(nonce) {
            Ok(n) => n,
            Err(_) => return Err(CipherError::InvalidBase64),
        };
        Ok(Cipher::from_bytes(k, n))
    }

    /// Like `from_base64`, for any text: a key or nonce that decodes to the
    /// wrong length is reported rather than ruled out.
    pub fn try_from_base64(key: &str, nonce: &str) -> (res: Result<Cipher, CipherError>)
        ensures
            match res {
                Ok(c) => b64url_decode(key@) == Some(c@.0) && b64url_decode(nonce@) == Some(c@.1)
                    && well_sized(c@.0, c@.1) && b64url_encode(c@.0) == key@ && b64url_encode(c@.1)
                    == nonce@,
                Err(e) => match (b64url_decode(key@), b64url_decode(nonce@)) {
                    (Some(k), Some(n)) => if k.len() != KEY_LEN {
                        e == CipherError::InvalidKeyLength
                    } else {
                        n.len() != NONCE_LEN && e == CipherError::InvalidNonceLength
                    },
                    _ => e == CipherError::InvalidBase64,
                },
            },
            forall|k: Seq<u8>, n: Seq<u8>|
                well_sized(k, n) && #[trigger] b64url_encode(k) == key@ && #[trigger] b64url_encode(n)
                    == nonce@ ==> (res matches Ok(c) && c@ == (k, n)),
    {
        let k = match base64_url_decode(key) {
            Ok(k) => k,
            Err(_) => return Err(CipherError::InvalidBase64),
        };
        let n = match base64_url_decode(nonce) {
            Ok(n) => n,
            Err(_) => return Err(CipherError::InvalidBase64),
        };
        if k.len() != KEY_LEN {
            return Err(CipherError::InvalidKeyLength);
        }
        if n.len() != NONCE_LEN {
            return Err(CipherError::InvalidNonceLength);
        }
        Cipher::from_base64(key, nonce)
    }
}

impl Default for Cipher {
    /// A cipher with a fresh random key and nonce.
    fn default() -> (cipher: Self)
        ensures
            well_sized(cipher@.0, cipher@.1),
    {
        Cipher::from_bytes(random_key(), random_nonce())
    }
}

} // verus!
