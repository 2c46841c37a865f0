//! Webhook ingestion rules: verification of the relay's signature, and
//! the projection of its pre-parsed payload onto the stored-message
//! fields.
//!
//! The signature scheme: the hex-encoded signature must decode to the
//! HMAC-SHA-256 tag of the timestamp followed by the token, under the
//! shared signing key.  Hex decoding and the HMAC check are done by the
//! `hex` and `ring` crates behind trusted wrappers; the decision logic
//! around them is verified.

use vstd::prelude::*;
use vstd::string::{StrSliceExecFns, StringExecFns};

use crate::delivery::ParsedMessage;

verus! {

/// serde_json's dynamic value, carried opaquely through the library.
#[verifier::external_type_specification]
#[verifier::external_body]
pub struct ExValue(serde_json::Value);

/// ASCII code of a hexadecimal digit: `0`-`9`, `A`-`F` or `a`-`f`.
pub open spec fn is_hex_digit(b: u8) -> bool {
    (48 <= b <= 57) || (65 <= b <= 70) || (97 <= b <= 102)
}

/// The value of a hexadecimal digit.
pub open spec fn hex_val(b: u8) -> u8 {
    if 48 <= b <= 57 {
        (b - 48) as u8
    } else if 65 <= b <= 70 {
        (b - 55) as u8
    } else {
        (b - 87) as u8
    }
}

/// A well-formed hexadecimal string: even length, hex digits throughout.
pub open spec fn valid_hex(s: Seq<u8>) -> bool {
    s.len() % 2 == 0 && (forall|i: int| 0 <= i < s.len() ==> is_hex_digit(s[i]))
}

/// The bytes a well-formed hexadecimal string encodes, two digits each.
pub open spec fn hex_bytes(s: Seq<u8>) -> Seq<u8> {
    Seq::new((s.len() / 2) as nat, |i: int| (hex_val(s[2 * i]) * 16 + hex_val(s[2 * i + 1])) as u8)
}

/// Relies on hex::decode: an even-length string of hexadecimal digits,
/// upper or lower case, decodes two digits to a byte; an odd length or
/// any other character is an error.
#[verifier::external_body]
fn decode_hex(s: &Vec<u8>) -> (r: Option<Vec<u8>>)
    ensures
        ((r is Some) <==> valid_hex(s@)),
        r matches Some(v) ==> v@ == hex_bytes(s@),
{
    match hex::decode(s.as_slice()) {
        Ok(v) => Some(v),
        Err(_) => None,
    }
}

/// Whether `tag` is the HMAC-SHA-256 tag of `msg` under `key`.
pub uninterp spec fn hmac_sha256_ok(key: Seq<u8>, msg: Seq<u8>, tag: Seq<u8>) -> bool;

/// Relies on ring's hmac: `Key::new(HMAC_SHA256, key)` builds the key
/// and `hmac::verify` accepts exactly a valid tag for the message under
/// that key; acceptance depends on the three byte strings alone.
#[verifier::external_body]
fn hmac_verify(key: &Vec<u8>, msg: &Vec<u8>, tag: &Vec<u8>) -> (r: bool)
    ensures
        r == hmac_sha256_ok(key@, msg@, tag@),
{
    let k = ring::hmac::Key::new(ring::hmac::HMAC_SHA256, key.as_slice());
    ring::hmac::verify(&k, msg.as_slice(), tag.as_slice()).is_ok()
}

/// The components of the relay's signature headers.
pub struct MailgunSignature {
    /// The timestamp header.
    pub timestamp: String,
    /// The one-time token header.
    pub token: String,
    /// The hex-encoded signature header.
    pub signature: String,
}

/// Why a signature was rejected.
#[derive(Clone, Copy, PartialEq, Eq, Structural, Debug)]
pub enum SignatureRejection {
    /// The signature header is not a well-formed hexadecimal string.
    MalformedSignature,
    /// The decoded tag does not match the signed message.
    Mismatch,
}

/// The bytes the relay signs: the timestamp followed by the token.
pub open spec fn signed_message(sig: MailgunSignature) -> Seq<u8> {
    vstd::utf8::encode_utf8(sig.timestamp@ + sig.token@)
}

/// The signature header's bytes, still hex-encoded.
pub open spec fn signature_hex(sig: MailgunSignature) -> Seq<u8> {
    vstd::utf8::encode_utf8(sig.signature@)
}

impl MailgunSignature {
    /// Verify the signature against the signing key: accept exactly when
    /// the signature header is well-formed hexadecimal and decodes to the
    /// HMAC-SHA-256 tag of timestamp-then-token under the key.
    pub fn verify(self, signing_key: &str) -> (r: Result<(), SignatureRejection>)
        ensures
            ((r is Ok) <==> (valid_hex(signature_hex(self)) && hmac_sha256_ok(
                vstd::utf8::encode_utf8(signing_key@),
                signed_message(self),
                hex_bytes(signature_hex(self)),
            ))),
            ((r matches Err(e) && e is MalformedSignature) <==> !valid_hex(signature_hex(self))),
            ((r matches Err(e) && e is Mismatch) <==> (valid_hex(signature_hex(self))
                && !hmac_sha256_ok(
                vstd::utf8::encode_utf8(signing_key@),
                signed_message(self),
                hex_bytes(signature_hex(self)),
            ))),
    {
        let mut message = self.timestamp;
        message.append(self.token.as_str());
        let msg_bytes = message.as_str().as_bytes_vec();
        let sig_ascii = self.signature.as_str().as_bytes_vec();
        let key_bytes = signing_key.as_bytes_vec();
        match decode_hex(&sig_ascii) {
            None => Err(SignatureRejection::MalformedSignature),
            Some(tag) => {
                if hmac_verify(&key_bytes, &msg_bytes, &tag) {
                    Ok(())
                } else {
                    Err(SignatureRejection::Mismatch)
                }
            },
        }
    }
}

/// The pre-parsed message a relay webhook delivers.
pub struct MailgunPayload {
    /// The message's sender address.
    pub sender: String,
    /// The destination mailbox address.
    pub recipient: String,
    /// The message subject.
    pub subject: String,
    /// The plain-text body.
    pub body_plain: String,
    /// The HTML body.
    pub body_html: String,
    /// The relay's message identifier.
    pub message_id: String,
    /// The message's header collection, opaque to the library.
    pub headers: serde_json::Value,
}

/// Project a relay payload onto the stored-message fields: the relay
/// already parsed the message, so the fields map across unchanged, and
/// no raw size is known (it is recorded as zero).
pub fn payload_message(p: MailgunPayload) -> (r: ParsedMessage)
    ensures
        r.from_address@ == p.sender@,
        r.subject matches Some(s) && s@ == p.subject@,
        r.body_plain matches Some(b) && b@ == p.body_plain@,
        r.body_html matches Some(b) && b@ == p.body_html@,
        r.size_bytes == 0,
{
    ParsedMessage {
        from_address: p.sender,
        subject: Some(p.subject),
        body_plain: Some(p.body_plain),
        body_html: Some(p.body_html),
        size_bytes: 0,
    }
}

} // verus!
