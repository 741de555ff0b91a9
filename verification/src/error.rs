//! The failures that the library reports.

use vstd::prelude::*;

verus! {

/// The kind of a failure. Every failure is handed to the immediate caller and
/// none is retried here.
#[derive(Debug, Clone, Copy, PartialEq, Eq, Structural)]
pub enum ErrorKind {
    /// A file could not be read, created or written.
    Io,
    /// Text was not valid base64, or bytes were not valid UTF-8.
    Encoding,
    /// Text was not a well-formed envelope.
    Format,
    /// The cipher refused to encrypt, or a ciphertext did not authenticate.
    Crypto,
    /// The backup directory or the backup copy could not be made.
    Backup,
    /// The lock that guards the shared key could not be taken.
    Lock,
}

impl ErrorKind {
    /// What `message` says of each kind.
    pub open spec fn description(self) -> Seq<char> {
        match self {
            ErrorKind::Io => "file could not be read or written"@,
            ErrorKind::Encoding => "data is not valid base64 or UTF-8"@,
            ErrorKind::Format => "text is not a well-formed envelope"@,
            ErrorKind::Crypto => "encryption or decryption failed"@,
            ErrorKind::Backup => "backup could not be made"@,
            ErrorKind::Lock => "key store lock is unavailable"@,
        }
    }

    /// A message for the user.
    pub fn message(&self) -> (text: String)
        ensures
            text@ == self.description(),
    {
        match self {
            ErrorKind::Io => "file could not be read or written".to_owned(),
            ErrorKind::Encoding => "data is not valid base64 or UTF-8".to_owned(),
            ErrorKind::Format => "text is not a well-formed envelope".to_owned(),
            ErrorKind::Crypto => "encryption or decryption failed".to_owned(),
            ErrorKind::Backup => "backup could not be made".to_owned(),
            ErrorKind::Lock => "key store lock is unavailable".to_owned(),
        }
    }
}

/// A result whose text is taken by its view, for use in contracts.
pub open spec fn text_of(res: Result<String, ErrorKind>) -> Result<Seq<char>, ErrorKind> {
    match res {
        Ok(text) => Ok(text@),
        Err(e) => Err(e),
    }
}

} // verus!
