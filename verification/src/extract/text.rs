//! Encryption and decryption of the game's text assets with AES-192-CBC.
//!
//! The key and IV are the first 24 and the last 16 bytes of 40 bytes
//! derived with PBKDF2-HMAC-SHA1 from a fixed password and salt.

use vstd::prelude::*;

use aes::Aes192;
use cbc::{Decryptor, Encryptor};
use cipher::block_padding::Pkcs7;
use cipher::{BlockDecryptMut, BlockEncryptMut, KeyIvInit};

use crate::error::{Error, Repr};

verus! {

/// The password from which the text key and IV are derived: `Millicon`.
pub const TEXT_PBKDF2_HMAC_SHA1_KEY: [u8; 8] = [0x4d, 0x69, 0x6c, 0x6c, 0x69, 0x63, 0x6f, 0x6e];

/// The salt from which the text key and IV are derived: `DAISUL___`.
pub const TEXT_PBKDF2_HMAC_SHA1_SALT: [u8; 9] = [0x44, 0x41, 0x49, 0x53, 0x55, 0x4c, 0x5f, 0x5f, 0x5f];

/// The number of PBKDF2 iterations for the text key and IV.
pub const TEXT_PBKDF2_HMAC_SHA1_ROUNDS: u32 = 1000;

/// File extensions of the encrypted binary text assets.
pub const ENCRYPTED_FILE_EXTENSIONS: [&'static str; 2] = ["gtx", "mld"];

/// File extensions of the unencrypted binary text assets.
pub const UNENCRYPTED_FILE_EXTENSIONS: [&'static str; 3] = ["acb", "awb", "mp4"];

/// Why decrypting a text asset failed.
#[derive(Debug, Clone, Copy, PartialEq, Eq, Structural)]
pub enum AesErrorKind {
    /// The decrypted bytes do not end in valid PKCS#7 padding.
    Unpad,
}

/// A failed decryption: why, and the input that could not be decrypted.
#[derive(Debug, Clone)]
pub struct AesError {
    pub kind: AesErrorKind,
    pub input: Vec<u8>,
}

impl AesError {
    /// The error for `input`, whose padding could not be removed.
    pub fn unpad(input: Vec<u8>) -> (e: AesError)
        ensures
            e.kind == AesErrorKind::Unpad,
            e.input@ == input@,
    {
        AesError { kind: AesErrorKind::Unpad, input }
    }
}

/// The 40 bytes that PBKDF2-HMAC-SHA1 derives from `password` and `salt`
/// in `rounds` iterations.
pub uninterp spec fn pbkdf2_hmac_sha1_40(password: Seq<u8>, salt: Seq<u8>, rounds: u32) -> Seq<u8>;

/// AES-192-CBC encryption of `plaintext` padded with PKCS#7.
pub uninterp spec fn aes192_cbc_pkcs7_encrypt(key: Seq<u8>, iv: Seq<u8>, plaintext: Seq<u8>) -> Seq<u8>;

/// AES-192-CBC decryption of `ciphertext` with its PKCS#7 padding removed,
/// or `None` if the padding is not valid.
pub uninterp spec fn aes192_cbc_pkcs7_decrypt(key: Seq<u8>, iv: Seq<u8>, ciphertext: Seq<u8>) -> Option<Seq<u8>>;

/// Derives 40 bytes with `pbkdf2::pbkdf2_hmac_array::<sha1::Sha1, 40>`.
///
/// Trusted: the result is the derived key for these arguments, 40 bytes
/// long.
#[verifier::external_body]
fn derive_pbkdf2_sha1(password: &[u8], salt: &[u8], rounds: u32) -> (r: Vec<u8>)
    ensures
        r@ == pbkdf2_hmac_sha1_40(password@, salt@, rounds),
        r@.len() == 40,
{
    pbkdf2::pbkdf2_hmac_array::<sha1::Sha1, 40>(password, salt, rounds).to_vec()
}

/// Encrypts with `cbc::Encryptor::<Aes192>::encrypt_padded_vec_mut::<Pkcs7>`.
///
/// Trusted: the result is the encryption for these arguments; PKCS#7
/// always adds 1 to 16 bytes, so it is the plaintext's length rounded up
/// to the next whole block.
#[verifier::external_body]
fn encrypt_aes192_cbc(key: &[u8], iv: &[u8], plaintext: &[u8]) -> (r: Vec<u8>)
    requires
        key@.len() == 24,
        iv@.len() == 16,
    ensures
        r@ == aes192_cbc_pkcs7_encrypt(key@, iv@, plaintext@),
        r@.len() == (plaintext@.len() / 16 + 1) * 16,
{
    Encryptor::<Aes192>::new(key.into(), iv.into()).encrypt_padded_vec_mut::<Pkcs7>(plaintext)
}

/// Decrypts with `cbc::Decryptor::<Aes192>::decrypt_padded_vec_mut::<Pkcs7>`.
///
/// Trusted: the result is the decryption for these arguments;
/// decrypting what the same key and IV encrypted gives back the
/// plaintext, and input that is not whole blocks is refused, as the
/// crate's documentation says; so is empty input, which holds no padding
/// block to remove.
#[verifier::external_body]
fn decrypt_aes192_cbc(key: &[u8], iv: &[u8], ciphertext: &[u8]) -> (r: Option<Vec<u8>>)
    requires
        key@.len() == 24,
        iv@.len() == 16,
    ensures
        r is Some <==> aes192_cbc_pkcs7_decrypt(key@, iv@, ciphertext@) is Some,
        r matches Some(v) ==> aes192_cbc_pkcs7_decrypt(key@, iv@, ciphertext@) == Some(v@),
        r matches Some(v) ==> forall|p: Seq<u8>| #[trigger] aes192_cbc_pkcs7_encrypt(key@, iv@, p) == ciphertext@ ==> v@ == p,
        r is None ==> forall|p: Seq<u8>| #[trigger] aes192_cbc_pkcs7_encrypt(key@, iv@, p) != ciphertext@,
        ciphertext@.len() % 16 != 0 ==> r is None,
        ciphertext@.len() == 0 ==> r is None,
{
    match Decryptor::<Aes192>::new(key.into(), iv.into()).decrypt_padded_vec_mut::<Pkcs7>(ciphertext) {
        Ok(v) => Some(v),
        Err(_) => None,
    }
}

/// The 40 bytes derived for text assets: key, then IV.
pub open spec fn text_key_iv_spec() -> Seq<u8> {
    pbkdf2_hmac_sha1_40(TEXT_PBKDF2_HMAC_SHA1_KEY@, TEXT_PBKDF2_HMAC_SHA1_SALT@, TEXT_PBKDF2_HMAC_SHA1_ROUNDS)
}

/// The AES-192 key of text assets: the first 24 derived bytes.
pub open spec fn text_key_spec() -> Seq<u8> {
    text_key_iv_spec().subrange(0, 24)
}

/// The IV of text assets: the last 16 derived bytes.
pub open spec fn text_iv_spec() -> Seq<u8> {
    text_key_iv_spec().subrange(24, 40)
}

/// The encryption of a text asset.
pub open spec fn spec_encrypt_text(plaintext: Seq<u8>) -> Seq<u8> {
    aes192_cbc_pkcs7_encrypt(text_key_spec(), text_iv_spec(), plaintext)
}

/// The decryption of a text asset.
pub open spec fn spec_decrypt_text(ciphertext: Seq<u8>) -> Option<Seq<u8>> {
    aes192_cbc_pkcs7_decrypt(text_key_spec(), text_iv_spec(), ciphertext)
}

/// Derives the 40 bytes of the text key and IV.
pub fn text_key_iv() -> (r: Vec<u8>)
    ensures
        r@ == text_key_iv_spec(),
        r@.len() == 40,
{
    let password = TEXT_PBKDF2_HMAC_SHA1_KEY;
    let salt = TEXT_PBKDF2_HMAC_SHA1_SALT;
    derive_pbkdf2_sha1(&password, &salt, TEXT_PBKDF2_HMAC_SHA1_ROUNDS)
}

/// Copies `v[from..to]`.
fn copy_bytes(v: &Vec<u8>, from: usize, to: usize) -> (r: Vec<u8>)
    requires
        from <= to <= v@.len(),
    ensures
        r@ == v@.subrange(from as int, to as int),
{
    let mut r: Vec<u8> = Vec::new();
    let mut i = from;
    while i < to
        invariant
            from <= i <= to <= v@.len(),
            r@ == v@.subrange(from as int, i as int),
        decreases to - i,
    {
        r.push(v[i]);
        i += 1;
    }
    r
}

/// The AES-192 key of text assets.
pub fn text_decrypt_key() -> (r: Vec<u8>)
    ensures
        r@ == text_key_spec(),
        r@.len() == 24,
{
    let all = text_key_iv();
    copy_bytes(&all, 0, 24)
}

/// The IV of text assets.
pub fn text_decrypt_iv() -> (r: Vec<u8>)
    ensures
        r@ == text_iv_spec(),
        r@.len() == 16,
{
    let all = text_key_iv();
    copy_bytes(&all, 24, 40)
}

/// Encrypts a text asset with AES-192-CBC and PKCS#7 padding.
pub fn encrypt_text(plaintext: &[u8]) -> (r: Vec<u8>)
    ensures
        r@ == spec_encrypt_text(plaintext@),
        r@.len() == (plaintext@.len() / 16 + 1) * 16,
{
    let key = text_decrypt_key();
    let iv = text_decrypt_iv();
    encrypt_aes192_cbc(&key, &iv, plaintext)
}

/// Decrypts a text asset and removes its PKCS#7 padding.
///
/// Decrypting what [`encrypt_text`] encrypted gives back the plaintext.
pub fn decrypt_text(cipher: &[u8]) -> (r: Result<Vec<u8>, Error>)
    ensures
        match r {
            Ok(v) => spec_decrypt_text(cipher@) == Some(v@),
            Err(e) => spec_decrypt_text(cipher@) is None && (e.spec_repr() matches Repr::Aes(a)
                && a.kind == AesErrorKind::Unpad && a.input@ == cipher@),
        },
        forall|p: Seq<u8>| #[trigger] spec_encrypt_text(p) == cipher@ ==> (r matches Ok(v) && v@ == p),
        cipher@.len() % 16 != 0 ==> r is Err,
        cipher@.len() == 0 ==> r is Err,
{
    let key = text_decrypt_key();
    let iv = text_decrypt_iv();
    match decrypt_aes192_cbc(&key, &iv, cipher) {
        Some(v) => Ok(v),
        None => Err(Error::new(Repr::Aes(AesError::unpad(vstd::slice::slice_to_vec(cipher))))),
    }
}

} // verus!
