//! The envelope: a nonce and the ciphertext made with it. It is self-contained:
//! to open it takes nothing but the key. On the wire it is a JSON object with
//! two string members, `nonce` and `ciphertext`, both standard base64.

use crate::codec::{base64_bytes, base64_text, decode_base64, encode_base64};
use crate::error::{text_of, ErrorKind};
use crate::json::{
    json_pair_text, json_text_members, pair_text, parse_json_object, string_member,
};
use vstd::prelude::*;

verus! {

/// An envelope in its serialized form: both members are base64 text.
#[derive(Debug, PartialEq, Eq)]
pub struct EncryptedData {
    pub nonce: String,
    pub ciphertext: String,
}

/// What an `EncryptedData` holds.
pub struct EncryptedText {
    pub nonce: Seq<char>,
    pub ciphertext: Seq<char>,
}

impl View for EncryptedData {
    type V = EncryptedText;

    open spec fn view(&self) -> EncryptedText {
        EncryptedText { nonce: self.nonce@, ciphertext: self.ciphertext@ }
    }
}

/// An envelope: the nonce of one encryption and its ciphertext.
#[derive(Debug, PartialEq, Eq)]
pub struct Envelope {
    pub nonce: [u8; 12],
    pub ciphertext: Vec<u8>,
}

/// What an `Envelope` holds.
pub struct Sealed {
    pub nonce: Seq<u8>,
    pub ciphertext: Seq<u8>,
}

impl View for Envelope {
    type V = Sealed;

    open spec fn view(&self) -> Sealed {
        Sealed { nonce: self.nonce@, ciphertext: self.ciphertext@ }
    }
}

/// The JSON text of a serialized envelope.
pub open spec fn envelope_text(envelope: EncryptedText) -> Seq<char> {
    json_pair_text("nonce"@, envelope.nonce, "ciphertext"@, envelope.ciphertext)
}

/// The serialized envelope that a JSON text holds: the text is a JSON object
/// in which `nonce` and `ciphertext` are strings. The object is read as
/// `serde_json` reads it, which takes more than the plain form:
/// - other members are passed over;
/// - of a member that stands twice, the last counts;
/// - where `serde_json` is built with its feature `raw_value`, it reads an
///   object that begins with the name `$serde_json::private::RawValue`,
///   wherever such an object stands as a member or below one, as the JSON
///   text that the name holds. Such a member counts as a string where that
///   text is one, and the text as a whole holds no envelope where the name
///   holds no JSON text or the object goes on behind it.
pub open spec fn envelope_of(text: Seq<char>) -> Option<EncryptedText> {
    match json_text_members(text) {
        Some(members) => if members.dom().contains("nonce"@) && members.dom().contains(
            "ciphertext"@,
        ) {
            Some(EncryptedText { nonce: members["nonce"@], ciphertext: members["ciphertext"@] })
        } else {
            None
        },
        None => None,
    }
}

/// The serialized form of an envelope.
pub open spec fn encoded(envelope: Sealed) -> EncryptedText {
    EncryptedText {
        nonce: base64_text(envelope.nonce),
        ciphertext: base64_text(envelope.ciphertext),
    }
}

/// The envelope that a serialized form stands for. It is `Encoding` where a
/// member is not base64, and else `Crypto` where the nonce has not 12 bytes.
pub open spec fn decoded(envelope: EncryptedText) -> Result<Sealed, ErrorKind> {
    sealed_of(base64_bytes(envelope.nonce), base64_bytes(envelope.ciphertext))
}

/// The envelope made of what the two members decoded to.
pub open spec fn sealed_of(nonce: Option<Seq<u8>>, ciphertext: Option<Seq<u8>>) -> Result<
    Sealed,
    ErrorKind,
> {
    match (nonce, ciphertext) {
        (Some(nonce), Some(ciphertext)) => if nonce.len() == 12 {
            Ok(Sealed { nonce, ciphertext })
        } else {
            Err(ErrorKind::Crypto)
        },
        _ => Err(ErrorKind::Encoding),
    }
}

/// The envelope that a JSON text carries: `Format` where the text holds no
/// serialized envelope, and else what the serialized envelope decodes to.
pub open spec fn carried(text: Seq<char>) -> Result<Sealed, ErrorKind> {
    match envelope_of(text) {
        Some(serialized) => decoded(serialized),
        None => Err(ErrorKind::Format),
    }
}

/// An envelope result taken by its view, for use in contracts.
pub open spec fn sealed_view(res: Result<Envelope, ErrorKind>) -> Result<Sealed, ErrorKind> {
    match res {
        Ok(envelope) => Ok(envelope@),
        Err(kind) => Err(kind),
    }
}

impl EncryptedData {
    /// The serialized envelope made of the two members that a JSON object was
    /// asked for. It fails with `Format` where one of them is missing.
    pub fn from_members(nonce: Option<String>, ciphertext: Option<String>) -> (res: Result<
        EncryptedData,
        ErrorKind,
    >)
        ensures
            match res {
                Ok(envelope) => nonce == Some(envelope.nonce) && ciphertext == Some(
                    envelope.ciphertext,
                ),
                Err(kind) => kind == ErrorKind::Format && (nonce is None || ciphertext is None),
            },
    {
        match (nonce, ciphertext) {
            (Some(nonce), Some(ciphertext)) => Ok(EncryptedData { nonce, ciphertext }),
            _ => Err(ErrorKind::Format),
        }
    }

    /// Reads a serialized envelope from JSON text. It fails with `Format` where
    /// the text is not a JSON object or the object holds no envelope. Members
    /// other than `nonce` and `ciphertext` are passed over, and of a member
    /// that stands twice the last counts: `envelope_of` says in full which
    /// texts are taken.
    pub fn from_json(text: &str) -> (res: Result<EncryptedData, ErrorKind>)
        ensures
            match res {
                Ok(envelope) => envelope_of(text@) == Some(envelope@),
                Err(kind) => kind == ErrorKind::Format && envelope_of(text@) is None,
            },
    {
        match parse_json_object(text) {
            Ok(object) => EncryptedData::from_members(
                string_member(&object, "nonce"),
                string_member(&object, "ciphertext"),
            ),
            Err(_) => Err(ErrorKind::Format),
        }
    }

    /// The JSON text of the serialized envelope. Read back, the text holds the
    /// same envelope.
    pub fn to_json(&self) -> (res: Result<String, ErrorKind>)
        ensures
            text_of(res) == Ok::<Seq<char>, ErrorKind>(envelope_text(self@)),
            res matches Ok(text) ==> envelope_of(text@) == Some(self@),
    {
        match pair_text("nonce", self.nonce.as_str(), "ciphertext", self.ciphertext.as_str()) {
            Ok(text) => {
                proof {
                    reveal_strlit("nonce");
                    reveal_strlit("ciphertext");
                    assert("nonce"@.len() != "ciphertext"@.len());
                }
                Ok(text)
            },
            Err(_) => Err(ErrorKind::Format),
        }
    }
}

impl Envelope {
    /// The envelope made of what the two members of a serialized envelope
    /// decoded to, `None` standing for a member that was not base64.
    pub fn from_decoded(nonce: Option<Vec<u8>>, ciphertext: Option<Vec<u8>>) -> (res: Result<
        Envelope,
        ErrorKind,
    >)
        ensures
            sealed_view(res) == sealed_of(
                match nonce {
                    Some(bytes) => Some(bytes@),
                    None => None,
                },
                match ciphertext {
                    Some(bytes) => Some(bytes@),
                    None => None,
                },
            ),
    {
        match (nonce, ciphertext) {
            (Some(nonce_bytes), Some(ciphertext)) => {
                if nonce_bytes.len() != 12 {
                    return Err(ErrorKind::Crypto);
                }
                let mut nonce = [0u8;12];
                let mut i: usize = 0;
                while i < 12
                    invariant
                        i <= 12,
                        nonce_bytes@.len() == 12,
                        forall|j: int| 0 <= j < i ==> nonce@[j] == nonce_bytes@[j],
                    decreases 12 - i,
                {
                    nonce[i] = nonce_bytes[i];
                    i += 1;
                }
                assert(nonce@ =~= nonce_bytes@);
                Ok(Envelope { nonce, ciphertext })
            },
            _ => Err(ErrorKind::Encoding),
        }
    }

    /// Decodes a serialized envelope.
    pub fn decode(envelope: &EncryptedData) -> (res: Result<Envelope, ErrorKind>)
        ensures
            sealed_view(res) == decoded(envelope@),
    {
        let nonce = decode_base64(envelope.nonce.as_str()).ok();
        let ciphertext = decode_base64(envelope.ciphertext.as_str()).ok();
        Envelope::from_decoded(nonce, ciphertext)
    }

    /// The serialized form of the envelope. Decoded, it gives the same
    /// envelope again.
    pub fn encode(&self) -> (res: EncryptedData)
        ensures
            res@ == encoded(self@),
            decoded(res@) == Ok::<Sealed, ErrorKind>(self@),
    {
        EncryptedData {
            nonce: encode_base64(self.nonce.as_slice()),
            ciphertext: encode_base64(self.ciphertext.as_slice()),
        }
    }
}

} // verus!
