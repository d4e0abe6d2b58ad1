use vstd::prelude::*;
use k256::pkcs8::DecodePublicKey;
use crate::error::VerifyError;

verus! {

/// The point of the secp256k1 public key that a PEM (SubjectPublicKeyInfo)
/// text holds, in its canonical compressed SEC1 encoding; `None` where the text
/// holds no such key. Two texts give the same value exactly when they hold
/// the same key.
pub uninterp spec fn pem_public_key(pem: Seq<char>) -> Option<Seq<u8>>;

/// The point of the secp256k1 public key that SEC1 bytes (compressed or not)
/// encode, in its canonical compressed SEC1 encoding; `None` where the bytes
/// encode no such key.
pub uninterp spec fn sec1_public_key(bytes: Seq<u8>) -> Option<Seq<u8>>;

/// The error of parsing a PEM public key.
#[verifier::external_type_specification]
#[verifier::external_body]
pub struct ExSpkiError(k256::pkcs8::spki::Error);

/// The error of parsing SEC1 key bytes.
#[verifier::external_type_specification]
#[verifier::external_body]
pub struct ExCurveError(k256::elliptic_curve::Error);

/// Relies on k256::PublicKey::from_public_key_pem to parse the key, and hands
/// the key on as its canonical point encoding (`to_sec1_bytes`).
#[verifier::external_body]
fn parse_pem_key(pem: &str) -> (r: Result<Vec<u8>, k256::pkcs8::spki::Error>)
    ensures
        match r {
            Ok(p) => pem_public_key(pem@) == Some(p@),
            Err(_) => pem_public_key(pem@) is None,
        },
{
    k256::PublicKey::from_public_key_pem(pem).map(|k| k.to_sec1_bytes().into_vec())
}

/// Relies on k256::PublicKey::from_sec1_bytes to parse the key, and hands the
/// key on as its canonical point encoding (`to_sec1_bytes`).
#[verifier::external_body]
fn parse_sec1_key(bytes: &[u8]) -> (r: Result<Vec<u8>, k256::elliptic_curve::Error>)
    ensures
        match r {
            Ok(p) => sec1_public_key(bytes@) == Some(p@),
            Err(_) => sec1_public_key(bytes@) is None,
        },
{
    k256::PublicKey::from_sec1_bytes(bytes).map(|k| k.to_sec1_bytes().into_vec())
}

fn same_bytes(a: &Vec<u8>, b: &Vec<u8>) -> (r: bool)
    ensures
        r == (a@ == b@),
{
    if a.len() != b.len() {
        return false;
    }
    let mut i: usize = 0;
    while i < a.len()
        invariant
            a@.len() == b@.len(),
            0 <= i <= a@.len(),
            forall|j: int| 0 <= j < i ==> a@[j] == b@[j],
        decreases a@.len() - i,
    {
        if a[i] != b[i] {
            return false;
        }
        i = i + 1;
    }
    assert(a@ =~= b@);
    true
}

/// The outcome of the trust gate, as a spec: the notary key is parsed first,
/// then the embedded key, then the two keys are compared.
pub open spec fn key_check_passes(embedded: Seq<u8>, pem: Seq<char>) -> bool {
    &&& pem_public_key(pem) is Some
    &&& sec1_public_key(embedded) is Some
    &&& pem_public_key(pem) == sec1_public_key(embedded)
}

/// The error that the trust gate gives when it does not pass: an unparsable
/// notary key first, then an unparsable embedded key, else a mismatch.
pub open spec fn key_rejection(embedded: Seq<u8>, pem: Seq<char>, e: VerifyError) -> bool {
    if pem_public_key(pem) is None {
        e is InvalidTrustedKey
    } else if sec1_public_key(embedded) is None {
        e is InvalidEmbeddedKey
    } else {
        e is KeyMismatch
    }
}

/// Checks that the verifying key embedded in a presentation (its raw SEC1
/// bytes) is the caller's trusted notary key (PEM text). Both are parsed, and
/// the parsed keys are compared, so that two encodings of one key match.
pub fn authenticate_key(embedded: &[u8], notary_key_pem: &str) -> (r: Result<(), VerifyError>)
    ensures
        r is Ok <==> key_check_passes(embedded@, notary_key_pem@),
        r matches Err(e) ==> key_rejection(embedded@, notary_key_pem@, e),
{
    let notary = match parse_pem_key(notary_key_pem) {
        Ok(k) => k,
        Err(e) => return Err(VerifyError::InvalidTrustedKey(e.to_string())),
    };
    let verifying = match parse_sec1_key(embedded) {
        Ok(k) => k,
        Err(e) => return Err(VerifyError::InvalidEmbeddedKey(e.to_string())),
    };
    if same_bytes(&notary, &verifying) {
        Ok(())
    } else {
        Err(VerifyError::KeyMismatch)
    }
}

} // verus!
