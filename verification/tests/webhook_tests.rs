use tempmail::delivery::assemble;
use tempmail::webhook::{payload_message, MailgunPayload, MailgunSignature, SignatureRejection};

// HMAC-SHA-256 test vector (RFC 4231, case 2): key "Jefe", data
// "what do ya want for nothing?".  The data is split here into the
// timestamp and token parts that the signature scheme concatenates.
const JEFE_TAG_HEX: &str = "5bdcc146bf60754e6a042426089575c75a003f089d2739839dec58b964ec3843";

fn jefe_signature(signature: &str) -> MailgunSignature {
    MailgunSignature {
        timestamp: "what do ya want ".to_string(),
        token: "for nothing?".to_string(),
        signature: signature.to_string(),
    }
}

#[test]
fn known_hmac_vector_verifies() {
    let sig = jefe_signature(JEFE_TAG_HEX);
    assert_eq!(sig.verify("Jefe"), Ok(()));
}

#[test]
fn uppercase_hex_also_verifies() {
    let sig = jefe_signature(&JEFE_TAG_HEX.to_uppercase());
    assert_eq!(sig.verify("Jefe"), Ok(()));
}

#[test]
fn tampered_tag_is_a_mismatch() {
    let mut tampered = String::from("f");
    tampered.push_str(&JEFE_TAG_HEX[1..]);
    let sig = jefe_signature(&tampered);
    assert_eq!(sig.verify("Jefe"), Err(SignatureRejection::Mismatch));
}

#[test]
fn wrong_key_is_a_mismatch() {
    let sig = jefe_signature(JEFE_TAG_HEX);
    assert_eq!(sig.verify("NotJefe"), Err(SignatureRejection::Mismatch));
}

#[test]
fn non_hex_signature_is_malformed() {
    let sig = jefe_signature("zz00");
    assert_eq!(sig.verify("Jefe"), Err(SignatureRejection::MalformedSignature));
}

#[test]
fn odd_length_signature_is_malformed() {
    let sig = jefe_signature("abc");
    assert_eq!(sig.verify("Jefe"), Err(SignatureRejection::MalformedSignature));
}

#[test]
fn payload_projection_keeps_fields() {
    let payload = MailgunPayload {
        sender: "s@e.nd".to_string(),
        recipient: "r@fake-email.com".to_string(),
        subject: "Greetings".to_string(),
        body_plain: "plain text".to_string(),
        body_html: "<p>html</p>".to_string(),
        message_id: "<id-1@relay>".to_string(),
        headers: serde_json::Value::Object(serde_json::Map::new()),
    };
    let m = payload_message(payload);
    assert_eq!(m.from_address, "s@e.nd");
    assert_eq!(m.subject.as_deref(), Some("Greetings"));
    assert_eq!(m.body_plain.as_deref(), Some("plain text"));
    assert_eq!(m.body_html.as_deref(), Some("<p>html</p>"));
    assert_eq!(m.size_bytes, 0);
}

#[test]
fn assemble_extracts_structured_fields() {
    let raw = b"From: Someone <some@one.org>\r\nSubject: Parsed\r\n\r\nBody here\r\n".to_vec();
    let m = assemble(&raw).expect("a well-formed message parses");
    assert_eq!(m.from_address, "some@one.org");
    assert_eq!(m.subject.as_deref(), Some("Parsed"));
    assert_eq!(m.body_plain.as_deref().map(str::trim_end), Some("Body here"));
    assert_eq!(m.size_bytes, raw.len());
}

#[test]
fn assemble_defaults_missing_sender() {
    let raw = b"Subject: NoFrom\r\n\r\nx\r\n".to_vec();
    let m = assemble(&raw).expect("parses");
    assert_eq!(m.from_address, "unknown");
}

#[test]
fn assemble_rejects_headerless_bytes() {
    let raw: Vec<u8> = Vec::new();
    assert!(assemble(&raw).is_none());
}
