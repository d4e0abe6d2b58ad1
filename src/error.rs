use vstd::prelude::*;
use vstd::string::*;

verus! {

/// Why a presentation was not accepted. Each variant that carries a `String`
/// holds the diagnostic text of the stage that failed; none holds key bytes or
/// transcript bytes.
pub enum VerifyError {
    /// The presentation text is not hexadecimal (odd length or a non-hex character).
    InvalidHexEncoding(String),
    /// The decoded bytes do not deserialize as a presentation.
    MalformedPresentation(String),
    /// The caller's notary key does not parse as a public key.
    InvalidTrustedKey(String),
    /// The key embedded in the presentation does not parse as a public key.
    InvalidEmbeddedKey(String),
    /// Both keys parse, and they are different keys.
    KeyMismatch,
    /// The cryptographic check of the presentation failed.
    VerificationFailed(String),
}

/// The text shown for a key mismatch; it names no key material.
pub open spec fn key_mismatch_text() -> Seq<char> {
    "The verifying key does not match the notary key"@
}

/// The human-readable message of an error.
pub open spec fn message_of(e: VerifyError) -> Seq<char> {
    match e {
        VerifyError::InvalidHexEncoding(d) => d@,
        VerifyError::MalformedPresentation(d) => d@,
        VerifyError::InvalidTrustedKey(d) => "Invalid notary key: "@ + d@,
        VerifyError::InvalidEmbeddedKey(d) => "Invalid verifying key: "@ + d@,
        VerifyError::KeyMismatch => key_mismatch_text(),
        VerifyError::VerificationFailed(d) => "Presentation verification failed: "@ + d@,
    }
}

fn prefixed(prefix: &str, detail: &String) -> (r: String)
    ensures
        r@ == prefix@ + detail@,
{
    let mut s = prefix.to_owned();
    s.append(detail.as_str());
    s
}

impl VerifyError {
    /// The message handed to the caller.
    pub fn message(&self) -> (r: String)
        ensures
            r@ == message_of(*self),
    {
        match self {
            VerifyError::InvalidHexEncoding(d) => d.clone(),
            VerifyError::MalformedPresentation(d) => d.clone(),
            VerifyError::InvalidTrustedKey(d) => prefixed("Invalid notary key: ", d),
            VerifyError::InvalidEmbeddedKey(d) => prefixed("Invalid verifying key: ", d),
            VerifyError::KeyMismatch => "The verifying key does not match the notary key".to_owned(),
            VerifyError::VerificationFailed(d) => prefixed("Presentation verification failed: ", d),
        }
    }
}

} // verus!
