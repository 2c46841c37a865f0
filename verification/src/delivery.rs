//! Message assembly and the delivery decision at the end of a data phase.
//!
//! Assembly turns the raw accumulated octets into structured fields.  The
//! structured-mail parsing itself is done by the `mail_parser` crate
//! behind a trusted wrapper; its results are named by uninterpreted
//! functions of the raw bytes, and everything around the call — the
//! sender sentinel, the size, the decision whether anything is stored at
//! all — is verified.

use vstd::prelude::*;

use crate::directory::TempEmailAddress;
use crate::session::Reply;

verus! {

/// Structured projection of a raw message, as handed to the persistence
/// sink.
pub struct ParsedMessage {
    /// The sender named in the message headers, or the `unknown` sentinel
    /// when the message names none.
    pub from_address: String,
    /// The subject, if present.
    pub subject: Option<String>,
    /// The plain-text body, if present.
    pub body_plain: Option<String>,
    /// The HTML body, if present.
    pub body_html: Option<String>,
    /// The size of the raw message in bytes.
    pub size_bytes: usize,
}

/// Whether the structured-mail parser accepts these raw bytes.
pub uninterp spec fn mail_parse_ok(raw: Seq<u8>) -> bool;

/// The sender address the parser extracts from these raw bytes, if any.
pub uninterp spec fn mail_sender(raw: Seq<u8>) -> Option<Seq<char>>;

/// The subject the parser extracts from these raw bytes, if any.
pub uninterp spec fn mail_subject(raw: Seq<u8>) -> Option<Seq<char>>;

/// The plain-text body the parser extracts from these raw bytes, if any.
pub uninterp spec fn mail_body_text(raw: Seq<u8>) -> Option<Seq<char>>;

/// The HTML body the parser extracts from these raw bytes, if any.
pub uninterp spec fn mail_body_html(raw: Seq<u8>) -> Option<Seq<char>>;

struct RawParts {
    sender: Option<String>,
    subject: Option<String>,
    body_plain: Option<String>,
    body_html: Option<String>,
}

/// Relies on the mail_parser crate: `MessageParser::new().parse(bytes)`
/// returns a parsed message exactly for input it accepts;
/// `Message::from` with `Address::first` and the `address` field yield
/// the first sender address; `Message::subject`, `Message::body_text(0)`
/// and `Message::body_html(0)` yield subject and bodies.  Each is a
/// function of the raw bytes alone.
#[verifier::external_body]
fn parse_raw_message(raw: &Vec<u8>) -> (r: Option<RawParts>)
    ensures
        (r is Some) == mail_parse_ok(raw@),
        r is Some ==> ({
            let p = r.unwrap();
            &&& p.sender.deep_view() == mail_sender(raw@)
            &&& p.subject.deep_view() == mail_subject(raw@)
            &&& p.body_plain.deep_view() == mail_body_text(raw@)
            &&& p.body_html.deep_view() == mail_body_html(raw@)
        }),
{
    let m = mail_parser::MessageParser::new().parse(raw.as_slice())?;
    Some(RawParts {
        sender: m
            .from()
            .and_then(|a| a.first())
            .and_then(|a| a.address.as_ref())
            .map(|s| s.to_string()),
        subject: m.subject().map(|s| s.to_string()),
        body_plain: m.body_text(0).map(|c| c.to_string()),
        body_html: m.body_html(0).map(|c| c.to_string()),
    })
}

/// Assemble the raw message into its structured fields: the parser's
/// sender (or the `unknown` sentinel), subject and bodies, and the raw
/// size in bytes.  Returns nothing exactly when the parser rejects the
/// bytes.
pub fn assemble(raw: &Vec<u8>) -> (r: Option<ParsedMessage>)
    ensures
        (r is Some) == mail_parse_ok(raw@),
        r is Some ==> ({
            let m = r.unwrap();
            &&& m.size_bytes == raw@.len()
            &&& match mail_sender(raw@) {
                Some(s) => m.from_address@ == s,
                None => m.from_address@ == "unknown"@,
            }
            &&& m.subject.deep_view() == mail_subject(raw@)
            &&& m.body_plain.deep_view() == mail_body_text(raw@)
            &&& m.body_html.deep_view() == mail_body_html(raw@)
        }),
{
    match parse_raw_message(raw) {
        None => None,
        Some(parts) => {
            let from_address = match parts.sender {
                Some(s) => s,
                None => "unknown".to_owned(),
            };
            Some(
                ParsedMessage {
                    from_address,
                    subject: parts.subject,
                    body_plain: parts.body_plain,
                    body_html: parts.body_html,
                    size_bytes: raw.len(),
                },
            )
        },
    }
}

/// How the end of a data phase is acted on.
pub enum DeliveryPlan {
    /// No candidate recipient resolved: nothing is stored and the client
    /// gets the unknown-recipient failure.
    Reject,
    /// The raw message did not parse: nothing is stored and the client
    /// gets a transient failure.
    Unparseable,
    /// Store this message under this directory record, then report
    /// success — or a transient failure if the sink fails.
    Store {
        /// Identifier of the resolved recipient's record.
        record_id: u128,
        /// The assembled message.
        message: ParsedMessage,
    },
}

/// Decide the end of a data phase from the resolved recipient (if any)
/// and the raw message.  At most one store instruction is issued, only
/// for a resolved recipient, and it carries that recipient's record
/// identifier and the assembled message.
pub fn finish_delivery(resolved: Option<&TempEmailAddress>, raw: &Vec<u8>) -> (r: DeliveryPlan)
    ensures
        ((r is Reject) <==> (resolved is None)),
        (resolved is Some) ==> ((r is Unparseable) <==> !mail_parse_ok(raw@)),
        ((resolved is Some) && mail_parse_ok(raw@)) ==> (r is Store),
        r matches DeliveryPlan::Store { record_id, message } ==> ({
            &&& resolved is Some
            &&& mail_parse_ok(raw@)
            &&& record_id == resolved.unwrap().id
            &&& message.size_bytes == raw@.len()
            &&& match mail_sender(raw@) {
                Some(s) => message.from_address@ == s,
                None => message.from_address@ == "unknown"@,
            }
            &&& message.subject.deep_view() == mail_subject(raw@)
            &&& message.body_plain.deep_view() == mail_body_text(raw@)
            &&& message.body_html.deep_view() == mail_body_html(raw@)
        }),
{
    match resolved {
        None => DeliveryPlan::Reject,
        Some(rec) => match assemble(raw) {
            None => DeliveryPlan::Unparseable,
            Some(message) => DeliveryPlan::Store { record_id: rec.id, message },
        },
    }
}

/// The reply a plan that stores nothing owes the client: the
/// unknown-recipient failure when no candidate resolved, a transient
/// failure when the message did not parse.  A store instruction owes no
/// reply yet — that depends on how the sink fares.
pub fn plan_reply(plan: &DeliveryPlan) -> (r: Option<Reply>)
    ensures
        (plan is Reject) ==> r == Some(Reply::NoRecipient),
        (plan is Unparseable) ==> r == Some(Reply::TransientFailure),
        (plan is Store) ==> (r is None),
{
    match plan {
        DeliveryPlan::Reject => Some(Reply::NoRecipient),
        DeliveryPlan::Unparseable => Some(Reply::TransientFailure),
        DeliveryPlan::Store { .. } => None,
    }
}

} // verus!
