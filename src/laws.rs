use vstd::prelude::*;
use crate::error::{key_mismatch_text, message_of, VerifyError};
use crate::keys::{key_check_passes, key_rejection, pem_public_key, sec1_public_key};
use crate::session::{discloses, Disclosed, Verified};
use crate::transcript::{is_disclosed, redacted, SENTINEL};

verus! {

/// Where both keys parse and differ, the trust gate does not pass, so no
/// verification is asked for, and its error reads exactly the fixed mismatch
/// text.
pub proof fn mismatch_stops_before_verification(
    embedded: Seq<u8>,
    pem: Seq<char>,
    e: VerifyError,
)
    requires
        pem_public_key(pem) is Some,
        sec1_public_key(embedded) is Some,
        pem_public_key(pem) != sec1_public_key(embedded),
        key_rejection(embedded, pem, e),
    ensures
        !key_check_passes(embedded, pem),
        message_of(e) == key_mismatch_text(),
{
}

/// An unparsable notary key never reads as a key mismatch.
pub proof fn invalid_notary_key_is_no_mismatch(embedded: Seq<u8>, pem: Seq<char>, e: VerifyError)
    requires
        pem_public_key(pem) is None,
        key_rejection(embedded, pem, e),
    ensures
        e is InvalidTrustedKey,
        message_of(e) != key_mismatch_text(),
{
    reveal_strlit("Invalid notary key: ");
    reveal_strlit("The verifying key does not match the notary key");
    assert(message_of(e)[0] == 'I');
    assert(key_mismatch_text()[0] == 'T');
}

/// The outcome of each stage is a function of its inputs: the same keys are rejected for the same reason,
/// and the same verified output discloses the same text and time.
pub proof fn verification_is_repeatable(
    embedded: Seq<u8>,
    pem: Seq<char>,
    e1: VerifyError,
    e2: VerifyError,
    v: Verified,
    a: Disclosed,
    b: Disclosed,
)
    requires
        key_rejection(embedded, pem, e1),
        key_rejection(embedded, pem, e2),
        discloses(v, a),
        discloses(v, b),
    ensures
        (e1 is InvalidTrustedKey) == (e2 is InvalidTrustedKey),
        (e1 is InvalidEmbeddedKey) == (e2 is InvalidEmbeddedKey),
        (e1 is KeyMismatch) == (e2 is KeyMismatch),
        a.sent@ == b.sent@,
        a.recv@ == b.recv@,
        a.time == b.time,
{
}

/// Redaction keeps every disclosed byte, puts the sentinel at every other
/// position, and keeps the length.
pub proof fn redaction_keeps_disclosed(data: Seq<u8>, ranges: Seq<(usize, usize)>)
    ensures
        redacted(data, ranges).len() == data.len(),
        forall|i: int|
            0 <= i < data.len() && is_disclosed(ranges, i) ==> #[trigger] redacted(data, ranges)[i]
                == data[i],
        forall|i: int|
            0 <= i < data.len() && !is_disclosed(ranges, i) ==> #[trigger] redacted(data, ranges)[i]
                == SENTINEL,
{
}

/// Where no disclosed byte is itself the sentinel, the positions of the
/// redacted bytes that hold the sentinel are exactly the undisclosed ones.
pub proof fn sentinel_marks_exactly_the_undisclosed(data: Seq<u8>, ranges: Seq<(usize, usize)>)
    requires
        forall|j: int| 0 <= j < data.len() && is_disclosed(ranges, j) ==> data[j] != SENTINEL,
    ensures
        forall|i: int|
            0 <= i < data.len() ==> (#[trigger] redacted(data, ranges)[i] == SENTINEL
                <==> !is_disclosed(ranges, i)),
{
}

} // verus!
