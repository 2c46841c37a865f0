//! Session state machine: one client conversation.
//!
//! The machine is a pure transition function from (state, input line) to
//! (next state, reply, action): [`step`] performs no I/O and touches no
//! shared data, so every connection can run one machine in isolation.  The
//! caller writes the replies, performs the delivery action through the
//! directory and the persistence sink, and reports the outcome's reply.
//!
//! Policy for a command issued out of sequence: reply with the
//! sequence-error code and close the connection.  An input line that is no
//! known command at all is instead answered with the not-recognized code
//! and the session stays in its state, so a client may probe safely.

use vstd::prelude::*;

use crate::ascii::trim_spec;
use crate::codec::{
    append_data_line, decode_data_line, is_terminator_line, stored_bytes, DataLine,
};
use crate::command::{
    classify, is_data_cmd, is_helo_line, is_known_line, is_mail_from_line, is_quit_cmd,
    is_rcpt_to_line, addr_spec, Command,
};

verus! {

/// The state of one session.
pub enum SmtpState {
    /// Initial state, waiting for HELO/EHLO.
    Greeting,
    /// Ready to receive a sender after the greeting.
    Ready,
    /// Sender captured, waiting for the first recipient.
    ReceivingRcpt(String),
    /// At least one recipient captured, waiting for DATA or more
    /// recipients.
    ReceivingData(String, Vec<String>),
    /// Accumulating the message body.
    ReadingData(String, Vec<String>, Vec<u8>),
}

/// Mathematical model of a session state.
#[verifier::ext_equal]
pub enum StateModel {
    Greeting,
    Ready,
    ReceivingRcpt(Seq<char>),
    ReceivingData(Seq<char>, Seq<Seq<char>>),
    ReadingData(Seq<char>, Seq<Seq<char>>, Seq<u8>),
}

impl View for SmtpState {
    type V = StateModel;

    open spec fn view(&self) -> StateModel {
        match self {
            SmtpState::Greeting => StateModel::Greeting,
            SmtpState::Ready => StateModel::Ready,
            SmtpState::ReceivingRcpt(from) => StateModel::ReceivingRcpt(from@),
            SmtpState::ReceivingData(from, rcpts) => StateModel::ReceivingData(
                from@,
                rcpts.deep_view(),
            ),
            SmtpState::ReadingData(from, rcpts, buf) => StateModel::ReadingData(
                from@,
                rcpts.deep_view(),
                buf@,
            ),
        }
    }
}

/// A protocol reply.
#[derive(Clone, Copy, PartialEq, Eq, Structural, Debug)]
pub enum Reply {
    /// `220`: service-ready banner at connection time.
    ServiceReady,
    /// `250`: generic success.
    Success,
    /// `354`: start-data prompt.
    StartData,
    /// `221`: farewell after QUIT.
    Farewell,
    /// `250`: message accepted after the data phase.
    Accepted,
    /// `550`: no recipient is a live mailbox here.
    NoRecipient,
    /// `503`: command out of sequence.
    BadSequence,
    /// `500`: command not recognized.
    NotRecognized,
    /// `451`: transient server failure (parse or storage error).
    TransientFailure,
}

/// A delivery request: what the data phase hands on once the terminator
/// line arrives.
pub struct Delivery {
    /// The captured sender address.
    pub sender: String,
    /// The candidate recipient addresses, in the order received.
    pub recipients: Vec<String>,
    /// The raw message accumulated during the data phase.
    pub raw: Vec<u8>,
}

/// Mathematical model of a delivery request.
#[verifier::ext_equal]
pub struct DeliveryModel {
    pub sender: Seq<char>,
    pub recipients: Seq<Seq<char>>,
    pub raw: Seq<u8>,
}

impl View for Delivery {
    type V = DeliveryModel;

    open spec fn view(&self) -> DeliveryModel {
        DeliveryModel {
            sender: self.sender@,
            recipients: self.recipients.deep_view(),
            raw: self.raw@,
        }
    }
}

/// What one step of the machine decides.
pub struct StepResult {
    /// The state the session is in afterwards.
    pub next: SmtpState,
    /// The reply to send now, if any; during data accumulation there is
    /// none, and the reply after the terminator comes from the delivery
    /// outcome instead.
    pub reply: Option<Reply>,
    /// The delivery to perform, present exactly when the terminator line
    /// ended a data phase.
    pub action: Option<Delivery>,
    /// Whether the connection is to be closed after the reply.
    pub close: bool,
}

/// Mathematical model of a step result.
#[verifier::ext_equal]
pub struct StepModel {
    pub next: StateModel,
    pub reply: Option<Reply>,
    pub action: Option<DeliveryModel>,
    pub close: bool,
}

impl View for StepResult {
    type V = StepModel;

    open spec fn view(&self) -> StepModel {
        StepModel {
            next: self.next@,
            reply: self.reply,
            action: match self.action {
                Some(d) => Some(d@),
                None => None,
            },
            close: self.close,
        }
    }
}

/// The step taken on QUIT: farewell and close, state unchanged.
pub open spec fn quit_step(s: StateModel) -> StepModel {
    StepModel { next: s, reply: Some(Reply::Farewell), action: None, close: true }
}

/// The step taken on a line the current state does not accept: a known
/// command out of sequence draws the sequence error and closes the
/// connection; an unknown command draws the not-recognized reply and the
/// state is kept.
pub open spec fn reject_step(s: StateModel, t: Seq<char>) -> StepModel {
    if is_known_line(t) {
        StepModel { next: s, reply: Some(Reply::BadSequence), action: None, close: true }
    } else {
        StepModel { next: s, reply: Some(Reply::NotRecognized), action: None, close: false }
    }
}

/// One step of the session state machine on one input line.
pub open spec fn step_spec(s: StateModel, line: Seq<char>) -> StepModel {
    match s {
        StateModel::Greeting => {
            let t = trim_spec(line);
            if is_helo_line(t) {
                StepModel {
                    next: StateModel::Ready,
                    reply: Some(Reply::Success),
                    action: None,
                    close: false,
                }
            } else if is_quit_cmd(t) {
                quit_step(s)
            } else {
                reject_step(s, t)
            }
        },
        StateModel::Ready => {
            let t = trim_spec(line);
            if is_mail_from_line(t) {
                StepModel {
                    next: StateModel::ReceivingRcpt(addr_spec(t)),
                    reply: Some(Reply::Success),
                    action: None,
                    close: false,
                }
            } else if is_quit_cmd(t) {
                quit_step(s)
            } else {
                reject_step(s, t)
            }
        },
        StateModel::ReceivingRcpt(from) => {
            let t = trim_spec(line);
            if is_rcpt_to_line(t) {
                StepModel {
                    next: StateModel::ReceivingData(from, seq![addr_spec(t)]),
                    reply: Some(Reply::Success),
                    action: None,
                    close: false,
                }
            } else if is_quit_cmd(t) {
                quit_step(s)
            } else {
                reject_step(s, t)
            }
        },
        StateModel::ReceivingData(from, rcpts) => {
            let t = trim_spec(line);
            if is_rcpt_to_line(t) {
                StepModel {
                    next: StateModel::ReceivingData(from, rcpts.push(addr_spec(t))),
                    reply: Some(Reply::Success),
                    action: None,
                    close: false,
                }
            } else if is_data_cmd(t) {
                StepModel {
                    next: StateModel::ReadingData(from, rcpts, Seq::empty()),
                    reply: Some(Reply::StartData),
                    action: None,
                    close: false,
                }
            } else if is_quit_cmd(t) {
                quit_step(s)
            } else {
                reject_step(s, t)
            }
        },
        StateModel::ReadingData(from, rcpts, buf) => {
            if is_terminator_line(line) {
                StepModel {
                    next: StateModel::Ready,
                    reply: None,
                    action: Some(DeliveryModel { sender: from, recipients: rcpts, raw: buf }),
                    close: false,
                }
            } else {
                StepModel {
                    next: StateModel::ReadingData(from, rcpts, buf + stored_bytes(line)),
                    reply: None,
                    action: None,
                    close: false,
                }
            }
        },
    }
}

proof fn lemma_first_char_ci(t: Seq<char>, k: Seq<char>)
    requires
        crate::ascii::starts_ci(t, k),
        k.len() > 0,
    ensures
        t.len() > 0,
        crate::ascii::lower_ascii(t[0]) == crate::ascii::lower_ascii(k[0]),
{
    assert(t.subrange(0, k.len() as int)[0] == t[0]);
}

/// No line is two different commands: the five keywords are told apart by
/// their first characters.
pub proof fn lemma_keywords_disjoint(t: Seq<char>)
    ensures
        is_helo_line(t) ==> !is_mail_from_line(t) && !is_rcpt_to_line(t) && !is_data_cmd(t)
            && !is_quit_cmd(t),
        is_mail_from_line(t) ==> !is_rcpt_to_line(t) && !is_data_cmd(t) && !is_quit_cmd(t),
        is_rcpt_to_line(t) ==> !is_data_cmd(t) && !is_quit_cmd(t),
        is_data_cmd(t) ==> !is_quit_cmd(t),
{
    reveal_strlit("HELO");
    reveal_strlit("EHLO");
    reveal_strlit("MAIL FROM");
    reveal_strlit("RCPT TO");
    reveal_strlit("DATA");
    reveal_strlit("QUIT");
    if is_helo_line(t) {
        if crate::ascii::starts_ci(t, "HELO"@) {
            lemma_first_char_ci(t, "HELO"@);
        } else {
            lemma_first_char_ci(t, "EHLO"@);
        }
    }
    if is_mail_from_line(t) {
        lemma_first_char_ci(t, "MAIL FROM"@);
    }
    if is_rcpt_to_line(t) {
        lemma_first_char_ci(t, "RCPT TO"@);
    }
    if is_data_cmd(t) {
        assert(t[0] == t.subrange(0, 4)[0]);
        assert(t.subrange(0, 4) =~= t);
        assert(crate::ascii::lower_ascii(t[0]) == crate::ascii::lower_ascii("DATA"@[0]));
    }
    if is_quit_cmd(t) {
        assert(t.subrange(0, 4) =~= t);
        assert(crate::ascii::lower_ascii(t[0]) == crate::ascii::lower_ascii("QUIT"@[0]));
    }
}

/// Run one step of the session state machine: classify the line (or, in
/// the data phase, decode it), and return the next state, the reply owed
/// now, the delivery action if a data phase just ended, and whether the
/// connection closes.
pub fn step(state: SmtpState, line: &str) -> (r: StepResult)
    ensures
        r@ == step_spec(state@, line@),
{
    proof {
        lemma_keywords_disjoint(trim_spec(line@));
    }
    match state {
        SmtpState::Greeting => match classify(line) {
            Command::Helo => StepResult {
                next: SmtpState::Ready,
                reply: Some(Reply::Success),
                action: None,
                close: false,
            },
            Command::Quit => StepResult {
                next: SmtpState::Greeting,
                reply: Some(Reply::Farewell),
                action: None,
                close: true,
            },
            Command::Unrecognized => StepResult {
                next: SmtpState::Greeting,
                reply: Some(Reply::NotRecognized),
                action: None,
                close: false,
            },
            _ => StepResult {
                next: SmtpState::Greeting,
                reply: Some(Reply::BadSequence),
                action: None,
                close: true,
            },
        },
        SmtpState::Ready => match classify(line) {
            Command::MailFrom(from) => StepResult {
                next: SmtpState::ReceivingRcpt(from),
                reply: Some(Reply::Success),
                action: None,
                close: false,
            },
            Command::Quit => StepResult {
                next: SmtpState::Ready,
                reply: Some(Reply::Farewell),
                action: None,
                close: true,
            },
            Command::Unrecognized => StepResult {
                next: SmtpState::Ready,
                reply: Some(Reply::NotRecognized),
                action: None,
                close: false,
            },
            _ => StepResult {
                next: SmtpState::Ready,
                reply: Some(Reply::BadSequence),
                action: None,
                close: true,
            },
        },
        SmtpState::ReceivingRcpt(from) => match classify(line) {
            Command::RcptTo(to) => {
                let mut rcpts: Vec<String> = Vec::new();
                rcpts.push(to);
                proof {
                    assert(rcpts.deep_view() =~= seq![addr_spec(trim_spec(line@))]);
                }
                StepResult {
                    next: SmtpState::ReceivingData(from, rcpts),
                    reply: Some(Reply::Success),
                    action: None,
                    close: false,
                }
            },
            Command::Quit => StepResult {
                next: SmtpState::ReceivingRcpt(from),
                reply: Some(Reply::Farewell),
                action: None,
                close: true,
            },
            Command::Unrecognized => StepResult {
                next: SmtpState::ReceivingRcpt(from),
                reply: Some(Reply::NotRecognized),
                action: None,
                close: false,
            },
            _ => StepResult {
                next: SmtpState::ReceivingRcpt(from),
                reply: Some(Reply::BadSequence),
                action: None,
                close: true,
            },
        },
        SmtpState::ReceivingData(from, rcpts) => match classify(line) {
            Command::RcptTo(to) => {
                let ghost old_rcpts = rcpts.deep_view();
                let ghost to_view = to@;
                let mut rcpts = rcpts;
                rcpts.push(to);
                proof {
                    assert(rcpts.deep_view() =~= old_rcpts.push(to_view));
                }
                StepResult {
                    next: SmtpState::ReceivingData(from, rcpts),
                    reply: Some(Reply::Success),
                    action: None,
                    close: false,
                }
            },
            Command::Data => StepResult {
                next: SmtpState::ReadingData(from, rcpts, Vec::new()),
                reply: Some(Reply::StartData),
                action: None,
                close: false,
            },
            Command::Quit => StepResult {
                next: SmtpState::ReceivingData(from, rcpts),
                reply: Some(Reply::Farewell),
                action: None,
                close: true,
            },
            Command::Unrecognized => StepResult {
                next: SmtpState::ReceivingData(from, rcpts),
                reply: Some(Reply::NotRecognized),
                action: None,
                close: false,
            },
            _ => StepResult {
                next: SmtpState::ReceivingData(from, rcpts),
                reply: Some(Reply::BadSequence),
                action: None,
                close: true,
            },
        },
        SmtpState::ReadingData(from, rcpts, buf) => match decode_data_line(line) {
            DataLine::Terminator => StepResult {
                next: SmtpState::Ready,
                reply: None,
                action: Some(Delivery { sender: from, recipients: rcpts, raw: buf }),
                close: false,
            },
            DataLine::Content(content) => {
                let ghost old_buf = buf@;
                let mut buf = buf;
                append_data_line(&mut buf, content.as_str());
                proof {
                    assert(buf@ =~= old_buf + stored_bytes(line@));
                }
                StepResult {
                    next: SmtpState::ReadingData(from, rcpts, buf),
                    reply: None,
                    action: None,
                    close: false,
                }
            },
        },
    }
}

/// The outcome of acting on a delivery request.
#[derive(Clone, Copy, PartialEq, Eq, Structural, Debug)]
pub enum DeliveryOutcome {
    /// A live recipient was found, the message parsed and stored.
    Accepted,
    /// No candidate recipient is a live mailbox; nothing was stored.
    NoValidRecipient,
    /// The raw message could not be parsed; nothing was stored.
    AssemblyFailed,
    /// The persistence sink failed; nothing usable was stored.
    StorageFailed,
}

/// The reply owed for a delivery outcome.
pub open spec fn delivery_reply_spec(o: DeliveryOutcome) -> Reply {
    match o {
        DeliveryOutcome::Accepted => Reply::Accepted,
        DeliveryOutcome::NoValidRecipient => Reply::NoRecipient,
        DeliveryOutcome::AssemblyFailed => Reply::TransientFailure,
        DeliveryOutcome::StorageFailed => Reply::TransientFailure,
    }
}

/// Map a delivery outcome to the reply the client sees: success, the
/// unknown-recipient failure, or a transient failure inviting a retry.
pub fn delivery_reply(o: &DeliveryOutcome) -> (r: Reply)
    ensures
        r == delivery_reply_spec(*o),
{
    match o {
        DeliveryOutcome::Accepted => Reply::Accepted,
        DeliveryOutcome::NoValidRecipient => Reply::NoRecipient,
        DeliveryOutcome::AssemblyFailed => Reply::TransientFailure,
        DeliveryOutcome::StorageFailed => Reply::TransientFailure,
    }
}

/// The wire text of a reply.
pub open spec fn reply_text_spec(r: Reply) -> Seq<char> {
    match r {
        Reply::ServiceReady => "220 fake-email.com Service Ready"@,
        Reply::Success => "250 OK"@,
        Reply::StartData => "354 End data with <CR><LF>.<CR><LF>"@,
        Reply::Farewell => "221 Bye"@,
        Reply::Accepted => "250 OK: Email accepted"@,
        Reply::NoRecipient => "550 User not local"@,
        Reply::BadSequence => "503 Bad sequence of commands"@,
        Reply::NotRecognized => "500 Command not recognized"@,
        Reply::TransientFailure => "451 Requested action aborted: local error in processing"@,
    }
}

/// The numeric code of a reply.
pub open spec fn reply_code_spec(r: Reply) -> u16 {
    match r {
        Reply::ServiceReady => 220,
        Reply::Success => 250,
        Reply::StartData => 354,
        Reply::Farewell => 221,
        Reply::Accepted => 250,
        Reply::NoRecipient => 550,
        Reply::BadSequence => 503,
        Reply::NotRecognized => 500,
        Reply::TransientFailure => 451,
    }
}

/// The full text of a reply line, to be sent followed by CRLF.
pub fn reply_text(r: &Reply) -> (res: String)
    ensures
        res@ == reply_text_spec(*r),
{
    match r {
        Reply::ServiceReady => "220 fake-email.com Service Ready".to_owned(),
        Reply::Success => "250 OK".to_owned(),
        Reply::StartData => "354 End data with <CR><LF>.<CR><LF>".to_owned(),
        Reply::Farewell => "221 Bye".to_owned(),
        Reply::Accepted => "250 OK: Email accepted".to_owned(),
        Reply::NoRecipient => "550 User not local".to_owned(),
        Reply::BadSequence => "503 Bad sequence of commands".to_owned(),
        Reply::NotRecognized => "500 Command not recognized".to_owned(),
        Reply::TransientFailure => "451 Requested action aborted: local error in processing"
            .to_owned(),
    }
}

/// The numeric code of a reply.
pub fn reply_code(r: &Reply) -> (res: u16)
    ensures
        res == reply_code_spec(*r),
{
    match r {
        Reply::ServiceReady => 220,
        Reply::Success => 250,
        Reply::StartData => 354,
        Reply::Farewell => 221,
        Reply::Accepted => 250,
        Reply::NoRecipient => 550,
        Reply::BadSequence => 503,
        Reply::NotRecognized => 500,
        Reply::TransientFailure => 451,
    }
}

/// Well-formedness of a session state: the states at and past recipient
/// capture always hold at least one candidate recipient.
pub open spec fn wf_state(s: StateModel) -> bool {
    match s {
        StateModel::ReceivingData(_, rcpts) => rcpts.len() >= 1,
        StateModel::ReadingData(_, rcpts, _) => rcpts.len() >= 1,
        _ => true,
    }
}

/// Invariant preservation: a session can only reach the data-accumulation
/// state with a sender and at least one candidate recipient captured.
pub proof fn lemma_step_preserves_wf(s: StateModel, line: Seq<char>)
    requires
        wf_state(s),
    ensures
        wf_state(step_spec(s, line).next),
{
}

/// Ordering law: before a sender is captured — in the greeting and ready
/// states — no input line yields a delivery action, and a DATA command
/// there draws the sequence-error reply.
pub proof fn lemma_data_needs_mail_from(s: StateModel, line: Seq<char>)
    requires
        s is Greeting || s is Ready,
    ensures
        step_spec(s, line).action is None,
        is_data_cmd(trim_spec(line)) ==> step_spec(s, line).reply == Some(Reply::BadSequence)
            && step_spec(s, line).close,
{
    lemma_keywords_disjoint(trim_spec(line));
}

/// A delivery action arises only from the data-accumulation state.
pub proof fn lemma_delivery_only_from_data(s: StateModel, line: Seq<char>)
    requires
        !(s is ReadingData),
    ensures
        step_spec(s, line).action is None,
{
}

/// The terminator line, and it alone, ends the data phase; the delivered
/// raw message is the buffer as accumulated, the terminator excluded, and
/// the delivery names exactly the session's own sender and recipients.
pub proof fn lemma_terminator_ends_data(
    from: Seq<char>,
    rcpts: Seq<Seq<char>>,
    buf: Seq<u8>,
    line: Seq<char>,
)
    ensures
        (step_spec(StateModel::ReadingData(from, rcpts, buf), line).action is Some)
            <==> is_terminator_line(line),
        is_terminator_line(line) ==> step_spec(StateModel::ReadingData(from, rcpts, buf), line)
            == (StepModel {
            next: StateModel::Ready,
            reply: None,
            action: Some(DeliveryModel { sender: from, recipients: rcpts, raw: buf }),
            close: false,
        }),
{
}

} // verus!
