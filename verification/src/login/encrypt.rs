//! Hashing and sealed-box utilities. They are not wired into the
//! authentication path today (stored credentials are compared as supplied);
//! they are kept as the utilities they are, behind trusted wrappers around
//! the crypto crates.

use aes_gcm::aead::generic_array::GenericArray;
use aes_gcm::aead::{Aead, KeyInit, OsRng};
use aes_gcm::Aes256Gcm;
use rand::{Rng, RngCore};
use sha2::{Digest, Sha256};
use vstd::prelude::*;

verus! {

/// Hashing and sealing operations.
pub struct Encrypt;

/// The inverse sealing operation.
pub struct Decrypt;

/// Key material.
pub struct Keys;

/// The lowercase hexadecimal SHA-256 digest of a text. A fixed text always
/// has the same digest, on every machine.
pub uninterp spec fn sha256_hex_of(s: Seq<char>) -> Seq<char>;

impl Keys {
    /// Relies on rand's `thread_rng`/`gen`: a fresh 32-byte key. Nothing is
    /// promised of its value, which is random.
    #[verifier::external_body]
    pub fn new() -> (r: [u8; 32]) {
        let mut rng = rand::thread_rng();
        let key: [u8; 32] = rng.gen();
        key
    }
}

impl Encrypt {
    /// Relies on sha2's `Sha256` and generic-array's lowercase-hex
    /// formatting (two digits per byte, so 64 digits for the 32-byte
    /// digest). The digest depends on the text alone.
    #[verifier::external_body]
    pub fn sha256(plaintext: &String) -> (r: String)
        ensures
            r@ == sha256_hex_of(plaintext@),
            r@.len() == 64,
    {
        let mut hasher = Sha256::new();
        hasher.update(plaintext);
        format!("{:x}", hasher.finalize())
    }

    /// Relies on aes-gcm's `Aes256Gcm` with a nonce drawn from `OsRng`, and
    /// on `base64::encode` for the ciphertext. Nothing is promised of the
    /// result: it depends on the random nonce, which is returned beside the
    /// encoded ciphertext.
    #[verifier::external_body]
    pub fn aes(key: &[u8; 32], plaintext: &String) -> (r: Option<(String, [u8; 12])>) {
        let cipher = Aes256Gcm::new(GenericArray::from_slice(key));
        let mut nonce = [0u8; 12];
        OsRng.fill_bytes(&mut nonce);
        match cipher.encrypt(GenericArray::from_slice(&nonce), plaintext.as_bytes()) {
            Ok(ciphertext) => Some((base64::encode(&ciphertext), nonce)),
            Err(_) => None,
        }
    }
}

impl Decrypt {
    /// Relies on `base64::decode` and aes-gcm's `Aes256Gcm`: opens a sealed
    /// text under the key and nonce it was sealed with. Any decoding,
    /// authentication or text-encoding failure is `None`.
    #[verifier::external_body]
    pub fn aes(key: &[u8; 32], ciphertext: &String, nonce: &[u8; 12]) -> (r: Option<String>) {
        let cipher = Aes256Gcm::new(GenericArray::from_slice(key));
        let data = match base64::decode(ciphertext) {
            Ok(d) => d,
            Err(_) => return None,
        };
        match cipher.decrypt(GenericArray::from_slice(nonce), data.as_ref()) {
            Ok(plaintext) => String::from_utf8(plaintext).ok(),
            Err(_) => None,
        }
    }
}

} // verus!
