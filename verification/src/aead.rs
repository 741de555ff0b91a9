//! AES-256-GCM with a 96-bit nonce, a 128-bit tag and no associated data, by
//! the `aes_gcm` crate, and the random nonces it is used with.
//!
//! Nothing here is proved: the contracts say what the crate's source and
//! documentation show.

use aes_gcm::aead::Aead;
use aes_gcm::KeyInit;
use rand::Rng;
use vstd::prelude::*;

verus! {

/// The cipher's failure. It says nothing of the cause, on purpose: a wrong
/// key, a wrong nonce and a tampered ciphertext are not told apart.
#[verifier::external_type_specification]
#[verifier::external_body]
pub struct ExAeadError(aes_gcm::Error);

/// The longest plaintext that the cipher takes, in bytes.
pub const MAX_PLAINTEXT_LEN: u64 = 0x10_0000_0000;

/// The length of the tag that ends every ciphertext, in bytes.
pub const TAG_LEN: usize = 16;

/// The ciphertext, tag included, of a plaintext under a key and a nonce.
pub uninterp spec fn aes256_gcm_seal(key: Seq<u8>, nonce: Seq<u8>, plaintext: Seq<u8>) -> Seq<u8>;

/// The plaintext of a ciphertext that authenticates under a key and a nonce,
/// or `None` where it does not.
pub uninterp spec fn aes256_gcm_open(key: Seq<u8>, nonce: Seq<u8>, ciphertext: Seq<u8>) -> Option<
    Seq<u8>,
>;

/// `Aead::encrypt` of the `Aes256Gcm` that `KeyInit::new` makes of the key.
/// The contract claims four things. The cipher refuses a plaintext exactly
/// where it is longer than `aes_gcm::P_MAX`, which is `MAX_PLAINTEXT_LEN`.
/// The ciphertext depends on the key, the nonce and the plaintext alone. It
/// is as long as the plaintext and the tag of `TAG_LEN` bytes behind it. And
/// `Aead::decrypt` under the same key and nonce gives the plaintext back, as
/// the crate's documentation shows.
#[verifier::external_body]
pub(crate) fn gcm_encrypt(key: &[u8; 32], nonce: &[u8; 12], plaintext: &[u8]) -> (res: Result<
    Vec<u8>,
    aes_gcm::Error,
>)
    ensures
        res is Ok <==> plaintext@.len() <= MAX_PLAINTEXT_LEN,
        res matches Ok(ciphertext) ==> ciphertext@ == aes256_gcm_seal(key@, nonce@, plaintext@),
        res matches Ok(ciphertext) ==> ciphertext@.len() == plaintext@.len() + TAG_LEN,
        res matches Ok(ciphertext) ==> aes256_gcm_open(key@, nonce@, ciphertext@) == Some(
            plaintext@,
        ),
{
    let cipher = aes_gcm::Aes256Gcm::new(aes_gcm::Key::<aes_gcm::Aes256Gcm>::from_slice(key));
    cipher.encrypt(aes_gcm::Nonce::from_slice(nonce), plaintext)
}

/// `Aead::decrypt` of the `Aes256Gcm` that `KeyInit::new` makes of the key.
/// The contract claims that the outcome depends on the key, the nonce and the
/// ciphertext alone: the plaintext where the ciphertext authenticates, the
/// cipher's error where it does not.
#[verifier::external_body]
pub(crate) fn gcm_decrypt(key: &[u8; 32], nonce: &[u8; 12], ciphertext: &[u8]) -> (res: Result<
    Vec<u8>,
    aes_gcm::Error,
>)
    ensures
        match res {
            Ok(plaintext) => aes256_gcm_open(key@, nonce@, ciphertext@) == Some(plaintext@),
            Err(_) => aes256_gcm_open(key@, nonce@, ciphertext@) is None,
        },
{
    let cipher = aes_gcm::Aes256Gcm::new(aes_gcm::Key::<aes_gcm::Aes256Gcm>::from_slice(key));
    cipher.decrypt(aes_gcm::Nonce::from_slice(nonce), ciphertext)
}

/// `Rng::fill` of `rand::thread_rng()` on twelve bytes. The contract claims
/// nothing of the nonce: it is random. The call fails on no input; it can
/// panic only where the system gives the thread's generator no entropy to
/// start with.
#[verifier::external_body]
pub(crate) fn random_nonce() -> (nonce: [u8; 12]) {
    let mut nonce = [0u8; 12];
    rand::thread_rng().fill(&mut nonce);
    nonce
}

} // verus!
