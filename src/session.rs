use vstd::prelude::*;
use crate::error::VerifyError;
use crate::hex_text::{decode_presentation_hex, hex_bytes, is_hex_text};
use crate::keys::{authenticate_key, key_check_passes, key_rejection};
use crate::transcript::{redacted, utf8_lossy, PartialTranscript};

verus! {

/// What a successful verification hands to the caller.
pub struct Disclosed {
    /// The disclosed request bytes as text, the sentinel in place of the rest.
    pub sent: String,
    /// The disclosed response bytes as text, the sentinel in place of the rest.
    pub recv: String,
    /// The Unix time of the notarized session.
    pub time: u64,
}

/// What the cryptographic verification of a presentation yields.
pub struct Verified {
    /// The Unix time of the notarized session.
    pub time: u64,
    /// The transcript, where the presentation discloses one.
    pub transcript: Option<PartialTranscript>,
}

/// Where a verification stands.
pub enum Stage {
    /// The presentation bytes are being deserialized.
    AwaitingPresentation,
    /// The keys matched; the presentation is being verified.
    AwaitingVerification,
    /// The outcome has been handed out.
    Finished,
}

/// What the caller must do next.
pub enum Action {
    /// Deserialize these bytes as a presentation and report its embedded
    /// verifying key (the raw key bytes), or the deserialization error.
    Deserialize(Vec<u8>),
    /// Verify the presentation cryptographically and report its output, or
    /// the verification error.
    Verify,
    /// The verification is over, with this outcome.
    Finish(Result<Disclosed, VerifyError>),
}

/// One verification of a presentation against a trusted notary key.
pub struct Verification {
    pub notary_key_pem: String,
    pub stage: Stage,
}

/// The sent text that a verified output discloses.
pub open spec fn sent_text(t: Option<PartialTranscript>) -> Seq<char> {
    match t {
        Some(t) => utf8_lossy(redacted(t.sent.data@, t.sent.disclosed@)),
        None => Seq::empty(),
    }
}

/// The received text that a verified output discloses.
pub open spec fn recv_text(t: Option<PartialTranscript>) -> Seq<char> {
    match t {
        Some(t) => utf8_lossy(redacted(t.received.data@, t.received.disclosed@)),
        None => Seq::empty(),
    }
}

/// `d` is what the verified output `v` discloses.
pub open spec fn discloses(v: Verified, d: Disclosed) -> bool {
    &&& d.sent@ == sent_text(v.transcript)
    &&& d.recv@ == recv_text(v.transcript)
    &&& d.time == v.time
}

/// Turns a verified output into what the caller sees: both directions
/// redacted and rendered as text (empty where no transcript is disclosed),
/// and the session time.
pub fn disclose(v: Verified) -> (r: Disclosed)
    ensures
        discloses(v, r),
{
    let time = v.time;
    match v.transcript {
        Some(t) => {
            let sent = t.sent.disclosed_text();
            let recv = t.received.disclosed_text();
            Disclosed { sent, recv, time }
        },
        None => Disclosed { sent: String::new(), recv: String::new(), time },
    }
}

impl Verification {
    /// Starts verifying the hex text of a presentation against a notary key:
    /// asks for the decoded bytes to be deserialized, or finishes with
    /// `InvalidHexEncoding`.
    pub fn start(presentation_hex: &str, notary_key_pem: String) -> (r: (Verification, Action))
        ensures
            r.0.notary_key_pem@ == notary_key_pem@,
            is_hex_text(presentation_hex@) ==> {
                &&& r.0.stage is AwaitingPresentation
                &&& r.1 matches Action::Deserialize(b) && b@ == hex_bytes(presentation_hex@)
            },
            !is_hex_text(presentation_hex@) ==> {
                &&& r.0.stage is Finished
                &&& r.1 matches Action::Finish(Err(VerifyError::InvalidHexEncoding(_)))
            },
    {
        match decode_presentation_hex(presentation_hex) {
            Ok(b) => (
                Verification { notary_key_pem, stage: Stage::AwaitingPresentation },
                Action::Deserialize(b),
            ),
            Err(e) => (Verification { notary_key_pem, stage: Stage::Finished }, Action::Finish(Err(e))),
        }
    }

    /// Takes the outcome of deserializing the presentation: its embedded key
    /// bytes, or the deserialization error. Asks for cryptographic
    /// verification only where the embedded key is the notary key.
    pub fn on_presentation(&mut self, decoded: Result<Vec<u8>, String>) -> (a: Action)
        requires
            old(self).stage is AwaitingPresentation,
        ensures
            final(self).notary_key_pem == old(self).notary_key_pem,
            a is Verify <==> (decoded matches Ok(k) && key_check_passes(k@, old(self).notary_key_pem@)),
            a is Verify <==> final(self).stage is AwaitingVerification,
            !(a is Verify) ==> final(self).stage is Finished,
            match decoded {
                Err(_) => a matches Action::Finish(Err(VerifyError::MalformedPresentation(_))),
                Ok(k) => if key_check_passes(k@, old(self).notary_key_pem@) {
                    a is Verify
                } else {
                    a matches Action::Finish(Err(e)) && key_rejection(k@, old(self).notary_key_pem@, e)
                },
            },
    {
        match decoded {
            Err(d) => {
                self.stage = Stage::Finished;
                Action::Finish(Err(VerifyError::MalformedPresentation(d)))
            },
            Ok(key) => match authenticate_key(key.as_slice(), self.notary_key_pem.as_str()) {
                Ok(()) => {
                    self.stage = Stage::AwaitingVerification;
                    Action::Verify
                },
                Err(e) => {
                    self.stage = Stage::Finished;
                    Action::Finish(Err(e))
                },
            },
        }
    }

    /// Takes the outcome of the cryptographic verification and finishes: with
    /// what the output discloses, or with `VerificationFailed`.
    pub fn on_verified(&mut self, verified: Result<Verified, String>) -> (a: Action)
        requires
            old(self).stage is AwaitingVerification,
        ensures
            final(self).notary_key_pem == old(self).notary_key_pem,
            final(self).stage is Finished,
            match verified {
                Ok(v) => a matches Action::Finish(Ok(d)) && discloses(v, d),
                Err(m) => a matches Action::Finish(Err(VerifyError::VerificationFailed(d))) && d@ == m@,
            },
    {
        self.stage = Stage::Finished;
        match verified {
            Ok(v) => Action::Finish(Ok(disclose(v))),
            Err(d) => Action::Finish(Err(VerifyError::VerificationFailed(d))),
        }
    }
}

} // verus!
