//! The cipher store: one 256-bit key, and strings sealed under it into
//! self-describing envelopes.

use crate::aead::{
    aes256_gcm_open, aes256_gcm_seal, gcm_decrypt, gcm_encrypt, random_nonce, MAX_PLAINTEXT_LEN,
    TAG_LEN,
};
use crate::codec::{text_from_utf8, utf8_text};
pub use crate::envelope::EncryptedData;
use crate::envelope::{
    carried, encoded, envelope_text, sealed_view, Envelope, Sealed,
};
use crate::error::{text_of, ErrorKind};
use vstd::prelude::*;
use vstd::slice::slice_to_vec;
use vstd::utf8::*;

verus! {

/// Owns the symmetric key: exactly 32 bytes, all zero at first, replaced as a
/// whole and never merged. Replacing the key takes the store exclusively, so
/// that no encryption ever sees half a key; a caller that shares one store
/// between threads keeps it behind a lock.
pub struct CipherStore {
    key: [u8; 32],
}

impl View for CipherStore {
    type V = Seq<u8>;

    /// The key's bytes.
    closed spec fn view(&self) -> Seq<u8> {
        self.key@
    }
}

/// The key that a store starts with: all zero.
pub open spec fn zero_key() -> Seq<u8> {
    Seq::new(32, |i: int| 0u8)
}

/// The key made of key material: its first 32 bytes, with zeros behind them
/// where it has fewer.
pub open spec fn derive_key(material: Seq<u8>) -> Seq<u8> {
    Seq::new(
        32,
        |i: int|
            if i < material.len() {
                material[i]
            } else {
                0u8
            },
    )
}

impl CipherStore {
    /// A store with the all-zero key.
    pub fn new() -> (store: Self)
        ensures
            store@ == zero_key(),
    {
        CipherStore { key: [0u8;32] }
    }

    /// A key has exactly 32 bytes.
    pub proof fn lemma_key_has_32_bytes(&self)
        ensures
            self@.len() == 32,
    {
    }
}

/// Replaces the key by the one derived from `key`, which always succeeds.
/// What was sealed under the old key can no longer be opened: nothing is
/// encrypted anew.
pub fn set_encryption_key(store: &mut CipherStore, key: &str) -> (res: Result<(), ErrorKind>)
    ensures
        res is Ok,
        final(store)@ == derive_key(encode_utf8(key@)),
{
    let material = key.as_bytes();
    let len: usize = if material.len() < 32 {
        material.len()
    } else {
        32
    };
    let mut key_bytes = [0u8;32];
    let mut i: usize = 0;
    while i < len
        invariant
            i <= len <= 32,
            len <= material@.len(),
            forall|j: int| 0 <= j < i ==> key_bytes@[j] == material@[j],
            forall|j: int| i <= j < 32 ==> key_bytes@[j] == 0u8,
        decreases len - i,
    {
        key_bytes[i] = material[i];
        i += 1;
    }
    store.key = key_bytes;
    Ok(())
}

/// The key as text. Fails with `Encoding` where the key's bytes are not UTF-8.
pub fn get_encryption_key(store: &CipherStore) -> (res: Result<String, ErrorKind>)
    ensures
        text_of(res) == utf8_text(store@),
{
    text_from_utf8(slice_to_vec(store.key.as_slice()))
}

/// The envelope that sealing a text under a key and a nonce gives. The cipher
/// refuses a text whose UTF-8 bytes are more than `MAX_PLAINTEXT_LEN`.
pub open spec fn sealed(key: Seq<u8>, nonce: Seq<u8>, data: Seq<char>) -> Result<
    Sealed,
    ErrorKind,
> {
    if encode_utf8(data).len() <= MAX_PLAINTEXT_LEN {
        Ok(Sealed { nonce, ciphertext: aes256_gcm_seal(key, nonce, encode_utf8(data)) })
    } else {
        Err(ErrorKind::Crypto)
    }
}

/// The text of what the cipher made of a ciphertext: `Crypto` where it did not
/// authenticate, `Encoding` where the plaintext is not UTF-8.
pub open spec fn plaintext_text(plaintext: Option<Seq<u8>>) -> Result<Seq<char>, ErrorKind> {
    match plaintext {
        Some(bytes) => utf8_text(bytes),
        None => Err(ErrorKind::Crypto),
    }
}

/// The text that opening an envelope under a key gives.
pub open spec fn opened(key: Seq<u8>, envelope: Sealed) -> Result<Seq<char>, ErrorKind> {
    plaintext_text(aes256_gcm_open(key, envelope.nonce, envelope.ciphertext))
}

/// The JSON text that encrypting a text under a key and a nonce gives.
pub open spec fn encrypted(key: Seq<u8>, nonce: Seq<u8>, data: Seq<char>) -> Result<
    Seq<char>,
    ErrorKind,
> {
    match sealed(key, nonce, data) {
        Ok(envelope) => Ok(envelope_text(encoded(envelope))),
        Err(kind) => Err(kind),
    }
}

/// The text that decrypting a JSON text under a key gives: `Format` where the
/// text holds no envelope, then `Encoding` where a member is not base64, then
/// `Crypto` where the nonce has not 12 bytes or the ciphertext does not
/// authenticate, then `Encoding` where the plaintext is not UTF-8.
pub open spec fn decrypted(key: Seq<u8>, text: Seq<char>) -> Result<Seq<char>, ErrorKind> {
    match carried(text) {
        Ok(envelope) => opened(key, envelope),
        Err(kind) => Err(kind),
    }
}

/// The text of what the cipher made of a ciphertext, `None` standing for a
/// ciphertext that did not authenticate.
pub fn text_of_plaintext(plaintext: Option<Vec<u8>>) -> (res: Result<String, ErrorKind>)
    ensures
        text_of(res) == plaintext_text(
            match plaintext {
                Some(bytes) => Some(bytes@),
                None => None,
            },
        ),
{
    match plaintext {
        Some(bytes) => text_from_utf8(bytes),
        None => Err(ErrorKind::Crypto),
    }
}

impl CipherStore {
    /// Seals a text under the key and the given nonce. The ciphertext is as
    /// long as the text's UTF-8 bytes and the tag. The envelope opens, under
    /// the same key, to the text again.
    pub fn seal(&self, data: &str, nonce: [u8; 12]) -> (res: Result<Envelope, ErrorKind>)
        ensures
            sealed_view(res) == sealed(self@, nonce@, data@),
            res matches Ok(envelope) ==> envelope.ciphertext@.len() == encode_utf8(data@).len()
                + TAG_LEN,
            res matches Ok(envelope) ==> opened(self@, envelope@) == Ok::<Seq<char>, ErrorKind>(
                data@,
            ),
    {
        match gcm_encrypt(&self.key, &nonce, data.as_bytes()) {
            Ok(ciphertext) => {
                proof {
                    encode_utf8_valid_utf8(data@);
                    encode_utf8_decode_utf8(data@);
                }
                Ok(Envelope { nonce, ciphertext })
            },
            Err(_) => Err(ErrorKind::Crypto),
        }
    }

    /// Opens an envelope under the key.
    pub fn open(&self, envelope: &Envelope) -> (res: Result<String, ErrorKind>)
        ensures
            text_of(res) == opened(self@, envelope@),
    {
        text_of_plaintext(
            gcm_decrypt(&self.key, &envelope.nonce, envelope.ciphertext.as_slice()).ok(),
        )
    }
}

/// Encrypts a text under the store's key and the given nonce, and returns the
/// envelope as JSON text. The text carries the envelope: the nonce as it was
/// given, so that two envelopes made with different nonces are never the same
/// text, and a ciphertext as long as the text's UTF-8 bytes and the tag.
/// Decrypted under the same key, the text comes back.
///
/// A nonce must never be used twice under one key: with a nonce used again the
/// cipher keeps nothing secret. `encrypt_string` draws a fresh one.
pub fn encrypt_with_nonce(store: &CipherStore, data: &str, nonce: [u8; 12]) -> (res: Result<
    String,
    ErrorKind,
>)
    ensures
        text_of(res) == encrypted(store@, nonce@, data@),
        res matches Ok(text) ==> carried(text@) == sealed(store@, nonce@, data@),
        res matches Ok(text) ==> carried(text@) matches Ok(envelope) && envelope.ciphertext.len()
            == encode_utf8(data@).len() + TAG_LEN,
        res matches Ok(text) ==> decrypted(store@, text@) == Ok::<Seq<char>, ErrorKind>(data@),
{
    match store.seal(data, nonce) {
        Ok(envelope) => envelope.encode().to_json(),
        Err(kind) => Err(kind),
    }
}

/// Encrypts a text under the store's key and a fresh random nonce, and returns
/// the envelope as JSON text. It fails, with `Crypto`, exactly where the
/// cipher refuses the text for its length. The text carries an envelope with
/// a nonce of 12 bytes and a ciphertext as long as the text's UTF-8 bytes and
/// the tag. Decrypted under the same key, the text comes back.
pub fn encrypt_string(store: &CipherStore, data: &str) -> (res: Result<String, ErrorKind>)
    ensures
        exists|nonce: Seq<u8>|
            nonce.len() == 12 && text_of(res) == #[trigger] encrypted(store@, nonce, data@) && (res
                matches Ok(text) ==> carried(text@) == sealed(store@, nonce, data@)),
        res matches Ok(text) ==> carried(text@) matches Ok(envelope) && envelope.nonce.len() == 12
            && envelope.ciphertext.len() == encode_utf8(data@).len() + TAG_LEN,
        res is Ok <==> encode_utf8(data@).len() <= MAX_PLAINTEXT_LEN,
        res matches Err(kind) ==> kind == ErrorKind::Crypto,
        res matches Ok(text) ==> decrypted(store@, text@) == Ok::<Seq<char>, ErrorKind>(data@),
{
    let nonce = random_nonce();
    encrypt_with_nonce(store, data, nonce)
}

/// Decrypts the JSON text of an envelope under the store's key.
pub fn decrypt_string(store: &CipherStore, encrypted_json: &str) -> (res: Result<
    String,
    ErrorKind,
>)
    ensures
        text_of(res) == decrypted(store@, encrypted_json@),
{
    let serialized = match EncryptedData::from_json(encrypted_json) {
        Ok(serialized) => serialized,
        Err(kind) => { return Err(kind); },
    };
    match Envelope::decode(&serialized) {
        Ok(envelope) => store.open(&envelope),
        Err(kind) => Err(kind),
    }
}

/// So many NUL characters.
pub open spec fn nul_padding(len: nat) -> Seq<char> {
    Seq::new(len, |i: int| '\0')
}

/// The encoding of two texts in a row is the two encodings in a row.
proof fn lemma_encode_utf8_concat(first: Seq<char>, second: Seq<char>)
    ensures
        encode_utf8(first + second) == encode_utf8(first) + encode_utf8(second),
    decreases first.len(),
{
    if first.len() == 0 {
        assert(first + second =~= second);
    } else {
        lemma_encode_utf8_concat(first.drop_first(), second);
        assert((first + second).drop_first() =~= first.drop_first() + second);
    }
}

/// Key material of at most 32 bytes, set as the key and read back, is the
/// material followed by NUL characters up to 32 bytes: the padding never
/// spoils the text.
pub proof fn lemma_short_key_reads_back(material: Seq<char>)
    requires
        encode_utf8(material).len() <= 32,
    ensures
        utf8_text(derive_key(encode_utf8(material))) == Ok::<Seq<char>, ErrorKind>(
            material + nul_padding((32 - encode_utf8(material).len()) as nat),
        ),
{
    let bytes = encode_utf8(material);
    let padding = nul_padding((32 - bytes.len()) as nat);
    is_ascii_chars_encode_utf8(padding);
    lemma_encode_utf8_concat(material, padding);
    assert(derive_key(bytes) =~= bytes + encode_utf8(padding));
    encode_utf8_valid_utf8(material + padding);
    encode_utf8_decode_utf8(material + padding);
}

/// Where valid UTF-8 starts with valid UTF-8, the place where the start ends
/// lies between two characters.
proof fn lemma_valid_prefix_is_char_boundary(bytes: Seq<u8>, index: int)
    requires
        valid_utf8(bytes),
        0 <= index <= bytes.len(),
        valid_utf8(bytes.subrange(0, index)),
    ensures
        is_char_boundary(bytes, index),
    decreases bytes.len(),
{
    if index != 0 {
        let prefix = bytes.subrange(0, index);
        let width = length_of_first_scalar(bytes);
        assert(prefix[0] == bytes[0]);
        assert(length_of_first_scalar(prefix) == width);
        assert(pop_first_scalar(prefix) =~= pop_first_scalar(bytes).subrange(0, index - width));
        lemma_valid_prefix_is_char_boundary(pop_first_scalar(bytes), index - width);
    }
}

/// Longer key material is cut behind its 32nd byte. The key then reads back as
/// text exactly where the cut falls between two characters, and the text is
/// what those 32 bytes encode.
pub proof fn lemma_long_key_reads_back(material: Seq<char>)
    requires
        encode_utf8(material).len() > 32,
    ensures
        utf8_text(derive_key(encode_utf8(material))) is Ok <==> is_char_boundary(
            encode_utf8(material),
            32,
        ),
        utf8_text(derive_key(encode_utf8(material))) is Ok ==> utf8_text(
            derive_key(encode_utf8(material)),
        ) == Ok::<Seq<char>, ErrorKind>(decode_utf8(encode_utf8(material).subrange(0, 32))),
{
    let bytes = encode_utf8(material);
    assert(derive_key(bytes) =~= bytes.subrange(0, 32));
    encode_utf8_valid_utf8(material);
    if is_char_boundary(bytes, 32) {
        valid_utf8_split(bytes, 32);
    }
    if valid_utf8(bytes.subrange(0, 32)) {
        lemma_valid_prefix_is_char_boundary(bytes, 32);
    }
}

} // verus!
