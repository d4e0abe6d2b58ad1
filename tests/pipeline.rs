use tlsn_verify::error::VerifyError;
use tlsn_verify::hex_text::decode_presentation_hex;
use tlsn_verify::keys::authenticate_key;
use tlsn_verify::session::{disclose, Action, Stage, Verification, Verified};
use tlsn_verify::transcript::{PartialTranscript, TranscriptDirection, SENTINEL};

const NOTARY_PEM: &str = "-----BEGIN PUBLIC KEY-----
MDYwEAYHKoZIzj0CAQYFK4EEAAoDIgACWq2qrz9HJbTB32D4WowdXQfnCaBS5eas
rPwHd4svpUo=
-----END PUBLIC KEY-----";

const INVALID_PEM: &str = "-----BEGIN PUBLIC KEY-----
MDYwEAYHKoZIzj0CAQYFK4EEAAoDIgABm3AS+GGr3gEwbDOWNJTR7oWF/xJ6LBf+
z9KxqnGiW9o=
-----END PUBLIC KEY-----";

const NOTARY_COMPRESSED: &str =
    "025aadaaaf3f4725b4c1df60f85a8c1d5d07e709a052e5e6acacfc07778b2fa54a";
const NOTARY_UNCOMPRESSED: &str = "045aadaaaf3f4725b4c1df60f85a8c1d5d07e709a052e5e6acacfc07778b2fa54a7e073617400172c188fedf4047e9a7d8115336b07c192b4d2eeff0578937220e";
const GENERATOR_COMPRESSED: &str =
    "0279be667ef9dcbbac55a06295ce870b07029bfcdb2dce28d959f2815b16f81798";

fn bytes_of(hex_text: &str) -> Vec<u8> {
    match decode_presentation_hex(hex_text) {
        Ok(b) => b,
        Err(_) => panic!("test key is not hex"),
    }
}

fn direction(data: &[u8], disclosed: &[(usize, usize)]) -> TranscriptDirection {
    TranscriptDirection { data: data.to_vec(), disclosed: disclosed.to_vec() }
}

#[test]
fn hex_decodes_both_cases() {
    let b = decode_presentation_hex("0aFF10").ok().unwrap();
    assert_eq!(b, vec![10u8, 255, 16]);
    assert_eq!(decode_presentation_hex("").ok().unwrap(), Vec::<u8>::new());
}

#[test]
fn odd_length_hex_is_rejected() {
    let e = decode_presentation_hex("abc").err().unwrap();
    assert!(matches!(e, VerifyError::InvalidHexEncoding(_)));
    assert_eq!(e.message(), "Odd number of digits");
}

#[test]
fn non_hex_character_is_rejected() {
    let e = decode_presentation_hex("zz").err().unwrap();
    assert!(matches!(e, VerifyError::InvalidHexEncoding(_)));
}

#[test]
fn start_finishes_on_bad_hex() {
    let (v, a) = Verification::start("0g", NOTARY_PEM.to_string());
    assert!(matches!(v.stage, Stage::Finished));
    assert!(matches!(a, Action::Finish(Err(VerifyError::InvalidHexEncoding(_)))));
}

#[test]
fn start_asks_for_deserialization() {
    let (v, a) = Verification::start("00ff", NOTARY_PEM.to_string());
    assert!(matches!(v.stage, Stage::AwaitingPresentation));
    match a {
        Action::Deserialize(b) => assert_eq!(b, vec![0u8, 255]),
        _ => panic!("expected a request to deserialize"),
    }
}

#[test]
fn undeserializable_presentation_is_malformed() {
    let (mut v, _) = Verification::start("00ff", NOTARY_PEM.to_string());
    let a = v.on_presentation(Err("io error: unexpected end of file".to_string()));
    assert!(matches!(v.stage, Stage::Finished));
    match a {
        Action::Finish(Err(e)) => {
            assert!(matches!(e, VerifyError::MalformedPresentation(_)));
            assert_eq!(e.message(), "io error: unexpected end of file");
        }
        _ => panic!("expected a malformed presentation"),
    }
}

#[test]
fn matching_key_in_either_encoding_passes() {
    assert!(authenticate_key(&bytes_of(NOTARY_COMPRESSED), NOTARY_PEM).is_ok());
    assert!(authenticate_key(&bytes_of(NOTARY_UNCOMPRESSED), NOTARY_PEM).is_ok());
}

#[test]
fn different_key_is_a_mismatch() {
    let e = authenticate_key(&bytes_of(GENERATOR_COMPRESSED), NOTARY_PEM).err().unwrap();
    assert!(matches!(e, VerifyError::KeyMismatch));
    assert_eq!(e.message(), "The verifying key does not match the notary key");
}

#[test]
fn invalid_notary_key_is_reported_first() {
    let e = authenticate_key(&[1u8, 2, 3], INVALID_PEM).err().unwrap();
    assert!(matches!(e, VerifyError::InvalidTrustedKey(_)));
    let m = e.message();
    assert!(m.starts_with("Invalid notary key: "));
    assert_ne!(m, "The verifying key does not match the notary key");
}

#[test]
fn garbage_notary_key_is_invalid() {
    let e = authenticate_key(&bytes_of(NOTARY_COMPRESSED), "not a key").err().unwrap();
    assert!(matches!(e, VerifyError::InvalidTrustedKey(_)));
}

#[test]
fn invalid_embedded_key_is_reported() {
    let e = authenticate_key(&[2u8, 1, 2], NOTARY_PEM).err().unwrap();
    assert!(matches!(e, VerifyError::InvalidEmbeddedKey(_)));
    assert!(e.message().starts_with("Invalid verifying key: "));
}

#[test]
fn verification_is_asked_only_for_the_notary_key() {
    let (mut v, _) = Verification::start("00", NOTARY_PEM.to_string());
    let a = v.on_presentation(Ok(bytes_of(NOTARY_COMPRESSED)));
    assert!(matches!(a, Action::Verify));
    assert!(matches!(v.stage, Stage::AwaitingVerification));

    let (mut w, _) = Verification::start("00", NOTARY_PEM.to_string());
    let b = w.on_presentation(Ok(bytes_of(GENERATOR_COMPRESSED)));
    assert!(matches!(b, Action::Finish(Err(VerifyError::KeyMismatch))));
    assert!(matches!(w.stage, Stage::Finished));
}

#[test]
fn redaction_masks_undisclosed_bytes() {
    let d = direction(b"GET /secret", &[(0, 5)]);
    assert_eq!(d.redact(), b"GET /XXXXXX".to_vec());
    assert_eq!(d.disclosed_text(), "GET /XXXXXX");
}

#[test]
fn redaction_with_overlapping_and_outlying_ranges() {
    let d = direction(b"abcdefgh", &[(1, 3), (2, 4), (6, 100)]);
    assert_eq!(d.redact(), b"XbcdXXgh".to_vec());
}

#[test]
fn redaction_of_empty_and_fully_disclosed() {
    assert_eq!(direction(b"", &[(0, 4)]).redact(), Vec::<u8>::new());
    assert_eq!(direction(b"abc", &[]).redact(), b"XXX".to_vec());
    assert_eq!(direction(b"abc", &[(0, 3)]).redact(), b"abc".to_vec());
}

#[test]
fn undisclosed_invalid_utf8_becomes_sentinel() {
    let d = direction(&[b'o', b'k', 0xff, 0xfe], &[(0, 2)]);
    assert_eq!(d.disclosed_text(), "okXX");
    let e = direction(&[b'o', 0xff], &[(0, 2)]);
    assert_eq!(e.disclosed_text(), "o\u{fffd}");
}

#[test]
fn sentinel_positions_are_the_undisclosed_ones() {
    let d = direction(b"host: example.com", &[(0, 6), (10, 17)]);
    let r = d.redact();
    for (i, byte) in r.iter().enumerate() {
        let disclosed = i < 6 || (10..17).contains(&i);
        assert_eq!(*byte == SENTINEL, !disclosed);
    }
}

#[test]
fn disclose_without_transcript_is_empty() {
    let out = disclose(Verified { time: 1748415894, transcript: None });
    assert_eq!(out.sent, "");
    assert_eq!(out.recv, "");
    assert_eq!(out.time, 1748415894);
}

#[test]
fn verified_output_is_disclosed() {
    let t = PartialTranscript {
        sent: direction(b"GET / HTTP/1.1\r\nhost: raw.githubusercontent.com\r\ncookie: abc", &[(0, 50)]),
        received: direction(b"HTTP/1.1 200 OK\r\nContent-Type: text/plain\r\n", &[(0, 43)]),
    };
    let (mut v, _) = Verification::start("00", NOTARY_PEM.to_string());
    let _ = v.on_presentation(Ok(bytes_of(NOTARY_COMPRESSED)));
    match v.on_verified(Ok(Verified { time: 1748415894, transcript: Some(t) })) {
        Action::Finish(Ok(d)) => {
            assert_eq!(d.time, 1748415894);
            assert!(d.sent.contains("host: raw.githubusercontent.com"));
            assert!(d.sent.ends_with("XXXXXXXXXX"));
            assert!(d.recv.contains("HTTP/1.1 200 OK"));
            assert!(d.recv.contains("Content-Type: text/plain"));
        }
        _ => panic!("expected a disclosed transcript"),
    }
    assert!(matches!(v.stage, Stage::Finished));
}

#[test]
fn failed_verification_is_reported() {
    let (mut v, _) = Verification::start("00", NOTARY_PEM.to_string());
    let _ = v.on_presentation(Ok(bytes_of(NOTARY_COMPRESSED)));
    match v.on_verified(Err("bad signature".to_string())) {
        Action::Finish(Err(e)) => {
            assert!(matches!(e, VerifyError::VerificationFailed(_)));
            assert_eq!(e.message(), "Presentation verification failed: bad signature");
        }
        _ => panic!("expected a verification failure"),
    }
}

#[test]
fn repeated_gate_gives_same_outcome() {
    let a = authenticate_key(&bytes_of(GENERATOR_COMPRESSED), NOTARY_PEM).err().unwrap().message();
    let b = authenticate_key(&bytes_of(GENERATOR_COMPRESSED), NOTARY_PEM).err().unwrap().message();
    assert_eq!(a, b);
}

#[test]
fn test_verify_wrong_key() {
    let res = authenticate_key(&bytes_of(NOTARY_COMPRESSED), INVALID_PEM);

    assert!(res.is_err());
    let error_msg = res.err().unwrap().message();
    assert!(error_msg.contains("Invalid notary key") || error_msg.contains("does not match"));
}
