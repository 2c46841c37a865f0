use tempmail::codec::{decode_data_line, DataLine};
use tempmail::command::{classify, parse_email_from_command, Command};
use tempmail::delivery::{finish_delivery, plan_reply, DeliveryPlan};
use tempmail::directory::{resolve_first, resolve_step, ResolveStep, TempEmailAddress};
use tempmail::session::{
    delivery_reply, reply_code, reply_text, step, Delivery, DeliveryOutcome, Reply, SmtpState,
    StepResult,
};

fn record(id: u128, address: &str) -> TempEmailAddress {
    TempEmailAddress {
        id,
        address: address.to_string(),
        username: None,
        created_at: 1_000,
        expires_at: 2_000,
        is_active: Some(true),
    }
}

/// Drive one session from the greeting through the data phase and return
/// the delivery request the terminator produced.
fn run_to_delivery(sender: &str, recipient: &str, body_lines: &[&str]) -> Delivery {
    let mut state = SmtpState::Greeting;
    let cmds: Vec<String> = vec![
        "EHLO test".to_string(),
        format!("MAIL FROM:<{}>", sender),
        format!("RCPT TO:<{}>", recipient),
        "DATA".to_string(),
    ];
    for line in &cmds {
        let r = step(state, line);
        assert!(r.action.is_none());
        assert!(!r.close);
        state = r.next;
    }
    for line in body_lines {
        let r = step(state, line);
        assert!(r.action.is_none());
        assert!(r.reply.is_none());
        state = r.next;
    }
    let r = step(state, ".");
    assert!(matches!(r.next, SmtpState::Ready));
    assert!(r.reply.is_none());
    assert!(!r.close);
    r.action.expect("terminator must produce a delivery")
}

#[test]
fn greeting_accepts_ehlo() {
    let r = step(SmtpState::Greeting, "EHLO test");
    assert_eq!(r.reply, Some(Reply::Success));
    assert!(matches!(r.next, SmtpState::Ready));
    assert!(!r.close);
}

#[test]
fn greeting_accepts_lowercase_helo() {
    let r = step(SmtpState::Greeting, "  helo client  ");
    assert_eq!(r.reply, Some(Reply::Success));
    assert!(matches!(r.next, SmtpState::Ready));
}

#[test]
fn quit_after_greeting_ends_session() {
    // Farewell reply, connection ends, no delivery, no directory work.
    let r = step(SmtpState::Greeting, "QUIT");
    assert_eq!(r.reply, Some(Reply::Farewell));
    assert!(r.close);
    assert!(r.action.is_none());
}

#[test]
fn data_before_mail_from_is_rejected() {
    // Ordering law: DATA before any MAIL FROM draws the sequence error
    // and produces no delivery.
    let r = step(SmtpState::Greeting, "DATA");
    assert_eq!(r.reply, Some(Reply::BadSequence));
    assert!(r.action.is_none());

    let r = step(SmtpState::Ready, "DATA");
    assert_eq!(r.reply, Some(Reply::BadSequence));
    assert!(r.close);
    assert!(r.action.is_none());
}

#[test]
fn unknown_command_draws_not_recognized_and_keeps_state() {
    let r = step(SmtpState::Ready, "XYZZY something");
    assert_eq!(r.reply, Some(Reply::NotRecognized));
    assert!(!r.close);
    assert!(matches!(r.next, SmtpState::Ready));
}

#[test]
fn out_of_sequence_known_command_closes() {
    let r = step(SmtpState::Ready, "RCPT TO:<x@y.z>");
    assert_eq!(r.reply, Some(Reply::BadSequence));
    assert!(r.close);
}

#[test]
fn mail_from_captures_sender() {
    let r = step(SmtpState::Ready, "MAIL FROM:<a@b.com>");
    assert_eq!(r.reply, Some(Reply::Success));
    match r.next {
        SmtpState::ReceivingRcpt(from) => assert_eq!(from, "a@b.com"),
        _ => panic!("expected the recipient-waiting state"),
    }
}

#[test]
fn recipients_accumulate_in_order() {
    let mut state = SmtpState::Greeting;
    for line in [
        "EHLO t",
        "MAIL FROM:<s@e.nd>",
        "RCPT TO:<one@x.y>",
        "RCPT TO:<two@x.y>",
        "RCPT TO:<three@x.y>",
    ] {
        state = step(state, line).next;
    }
    match state {
        SmtpState::ReceivingData(from, rcpts) => {
            assert_eq!(from, "s@e.nd");
            assert_eq!(rcpts, vec!["one@x.y", "two@x.y", "three@x.y"]);
        }
        _ => panic!("expected the data-or-more-recipients state"),
    }
}

#[test]
fn delivery_carries_session_fields() {
    let d = run_to_delivery(
        "a@b.com",
        "abc12345@fake-email.com",
        &["From: a@b.com", "Subject: Hi", "", "Hello"],
    );
    assert_eq!(d.sender, "a@b.com");
    assert_eq!(d.recipients, vec!["abc12345@fake-email.com"]);
    assert_eq!(
        d.raw,
        b"From: a@b.com\r\nSubject: Hi\r\n\r\nHello\r\n".to_vec()
    );
}

#[test]
fn stored_message_scenario() {
    // Scenario: an active directory record for the recipient; the client
    // runs the full sequence; exactly one message is stored, with sender
    // `a@b.com`, subject `Hi`, plain body `Hello`.
    let d = run_to_delivery(
        "a@b.com",
        "abc12345@fake-email.com",
        &["From: a@b.com", "Subject: Hi", "", "Hello"],
    );
    let rec = record(7, "abc12345@fake-email.com");
    let lookups = vec![Some(rec)];
    let k = resolve_first(&lookups).expect("the one recipient is live");
    assert_eq!(k, 0);
    let plan = finish_delivery(lookups[k].as_ref(), &d.raw);
    match plan {
        DeliveryPlan::Store { record_id, message } => {
            assert_eq!(record_id, 7);
            assert_eq!(message.from_address, "a@b.com");
            assert_eq!(message.subject.as_deref(), Some("Hi"));
            assert_eq!(message.body_plain.as_deref().map(str::trim_end), Some("Hello"));
            assert_eq!(message.size_bytes, d.raw.len());
        }
        _ => panic!("expected a store instruction"),
    }
    let code = reply_code(&delivery_reply(&DeliveryOutcome::Accepted));
    assert_eq!(code, 250);
}

#[test]
fn unknown_recipient_scenario() {
    // Scenario: recipient not in the directory; a 550-class reply and no
    // stored message.
    let d = run_to_delivery(
        "a@b.com",
        "nobody@fake-email.com",
        &["From: a@b.com", "Subject: Hi", "", "Hello"],
    );
    let lookups: Vec<Option<TempEmailAddress>> = vec![None];
    assert!(resolve_first(&lookups).is_none());
    let plan = finish_delivery(None, &d.raw);
    assert!(matches!(plan, DeliveryPlan::Reject));
    let code = reply_code(&delivery_reply(&DeliveryOutcome::NoValidRecipient));
    assert_eq!(code, 550);
}

#[test]
fn first_live_recipient_wins() {
    // Single-resolve law on values: with the second of three candidates
    // the first live one, the message is attributed to it, whatever the
    // third is.
    let lookups = vec![
        None,
        Some(record(21, "b@fake-email.com")),
        Some(record(22, "c@fake-email.com")),
    ];
    let k = resolve_first(&lookups).unwrap();
    assert_eq!(k, 1);
    let raw = b"From: s@e.nd\r\n\r\nhi\r\n".to_vec();
    match finish_delivery(lookups[k].as_ref(), &raw) {
        DeliveryPlan::Store { record_id, .. } => assert_eq!(record_id, 21),
        _ => panic!("expected a store instruction"),
    }
}

#[test]
fn no_match_means_no_store() {
    // No-match law on values: all lookups empty, nothing resolved.
    let lookups: Vec<Option<TempEmailAddress>> = vec![None, None, None];
    assert!(resolve_first(&lookups).is_none());
}

#[test]
fn plan_replies_when_nothing_is_stored() {
    let raw = b"From: s@e.nd\r\n\r\nhi\r\n".to_vec();
    assert_eq!(plan_reply(&finish_delivery(None, &raw)), Some(Reply::NoRecipient));
    let rec = record(5, "x@fake-email.com");
    let headerless: Vec<u8> = Vec::new();
    assert_eq!(
        plan_reply(&finish_delivery(Some(&rec), &headerless)),
        Some(Reply::TransientFailure)
    );
    assert_eq!(plan_reply(&finish_delivery(Some(&rec), &raw)), None);
}

#[test]
fn resolve_step_walks_candidates() {
    assert_eq!(resolve_step(3, 0, true), ResolveStep::Deliver(0));
    assert_eq!(resolve_step(3, 0, false), ResolveStep::TryNext(1));
    assert_eq!(resolve_step(3, 2, false), ResolveStep::NoMatch);
}

#[test]
fn two_sessions_do_not_cross_over() {
    // Isolation: two sessions, one to address A and one to B, stepped in
    // interleaving; each delivery is attributed to its own record with
    // its own fields.
    let rec_a = record(1, "a1@fake-email.com");
    let rec_b = record(2, "b2@fake-email.com");

    let mut s1 = SmtpState::Greeting;
    let mut s2 = SmtpState::Greeting;
    let script1 = [
        "EHLO one",
        "MAIL FROM:<one@src.com>",
        "RCPT TO:<a1@fake-email.com>",
        "DATA",
        "From: one@src.com",
        "Subject: for A",
        "",
        "message one",
    ];
    let script2 = [
        "EHLO two",
        "MAIL FROM:<two@src.com>",
        "RCPT TO:<b2@fake-email.com>",
        "DATA",
        "From: two@src.com",
        "Subject: for B",
        "",
        "message two",
    ];
    for i in 0..script1.len() {
        s1 = step(s1, script1[i]).next;
        s2 = step(s2, script2[i]).next;
    }
    let d1 = step(s1, ".").action.unwrap();
    let d2 = step(s2, ".").action.unwrap();
    assert_eq!(d1.recipients, vec!["a1@fake-email.com"]);
    assert_eq!(d2.recipients, vec!["b2@fake-email.com"]);

    let p1 = finish_delivery(Some(&rec_a), &d1.raw);
    let p2 = finish_delivery(Some(&rec_b), &d2.raw);
    match (p1, p2) {
        (
            DeliveryPlan::Store { record_id: id1, message: m1 },
            DeliveryPlan::Store { record_id: id2, message: m2 },
        ) => {
            assert_eq!(id1, 1);
            assert_eq!(id2, 2);
            assert_eq!(m1.subject.as_deref(), Some("for A"));
            assert_eq!(m2.subject.as_deref(), Some("for B"));
            assert_eq!(m1.from_address, "one@src.com");
            assert_eq!(m2.from_address, "two@src.com");
        }
        _ => panic!("both messages must be stored"),
    }
}

#[test]
fn session_delivers_twice_on_one_connection() {
    let d1 = run_to_delivery("a@b.c", "x@fake-email.com", &["", "first"]);
    assert_eq!(d1.raw, b"\r\nfirst\r\n".to_vec());
    // After the data phase the session is Ready again: run a second
    // envelope on the same connection.
    let mut state = SmtpState::Ready;
    for line in ["MAIL FROM:<d@e.f>", "RCPT TO:<y@fake-email.com>", "DATA", "second"] {
        state = step(state, line).next;
    }
    let d2 = step(state, ".").action.unwrap();
    assert_eq!(d2.sender, "d@e.f");
    assert_eq!(d2.raw, b"second\r\n".to_vec());
}

#[test]
fn transparency_keeps_ordinary_lines() {
    // Transparency law on values: no leading dot, stored unchanged.
    match decode_data_line("an ordinary line") {
        DataLine::Content(c) => assert_eq!(c, "an ordinary line"),
        _ => panic!("not a terminator"),
    }
}

#[test]
fn unstuffing_strips_one_leading_dot() {
    // Unstuffing law on values: "..x" stores ".x"; "." terminates.
    match decode_data_line("..x") {
        DataLine::Content(c) => assert_eq!(c, ".x"),
        _ => panic!("not a terminator"),
    }
    match decode_data_line(".only one leading dot kept") {
        DataLine::Content(c) => assert_eq!(c, "only one leading dot kept"),
        _ => panic!("not a terminator"),
    }
    assert!(matches!(decode_data_line("."), DataLine::Terminator));
    assert!(matches!(decode_data_line(".\r\n"), DataLine::Terminator));
    assert!(matches!(decode_data_line("..\r\n"), DataLine::Content(_)));
}

#[test]
fn data_lines_keep_inner_whitespace() {
    let mut state = SmtpState::ReadingData("s@e.nd".to_string(), vec!["r@x.y".to_string()], Vec::new());
    state = step(state, "  spaced  line  \r\n").next;
    let d = step(state, ".").action.unwrap();
    assert_eq!(d.raw, b"  spaced  line  \r\n".to_vec());
}

#[test]
fn classify_is_case_insensitive() {
    assert!(matches!(classify("ehlo x"), Command::Helo));
    assert!(matches!(classify("HeLo x"), Command::Helo));
    assert!(matches!(classify("data"), Command::Data));
    assert!(matches!(classify("quit"), Command::Quit));
    match classify("mail from:<s@e.nd>") {
        Command::MailFrom(a) => assert_eq!(a, "s@e.nd"),
        _ => panic!("expected a sender command"),
    }
    match classify("rcpt to:<r@x.y>") {
        Command::RcptTo(a) => assert_eq!(a, "r@x.y"),
        _ => panic!("expected a recipient command"),
    }
}

#[test]
fn classify_rejects_lookalikes() {
    assert!(matches!(classify("DATA NOW"), Command::Unrecognized));
    assert!(matches!(classify("QUITTER"), Command::Unrecognized));
    assert!(matches!(classify("NOOP"), Command::Unrecognized));
    assert!(matches!(classify(""), Command::Unrecognized));
}

#[test]
fn address_extraction_forms() {
    assert_eq!(parse_email_from_command("MAIL FROM:<a@b.com>"), "a@b.com");
    assert_eq!(parse_email_from_command("MAIL FROM: a@b.com "), "a@b.com");
    assert_eq!(parse_email_from_command("RCPT TO:<>"), "");
    assert_eq!(parse_email_from_command("no address here"), "");
    assert_eq!(parse_email_from_command("MAIL FROM:<x@y.z> extra"), "x@y.z");
}

#[test]
fn reply_texts_and_codes() {
    assert_eq!(reply_text(&Reply::ServiceReady), "220 fake-email.com Service Ready");
    assert_eq!(reply_text(&Reply::Success), "250 OK");
    assert_eq!(reply_text(&Reply::StartData), "354 End data with <CR><LF>.<CR><LF>");
    assert_eq!(reply_text(&Reply::Farewell), "221 Bye");
    assert_eq!(reply_text(&Reply::Accepted), "250 OK: Email accepted");
    assert_eq!(reply_text(&Reply::NoRecipient), "550 User not local");
    assert_eq!(reply_text(&Reply::BadSequence), "503 Bad sequence of commands");
    assert_eq!(reply_text(&Reply::NotRecognized), "500 Command not recognized");
    assert_eq!(reply_code(&Reply::StartData), 354);
    assert_eq!(reply_code(&Reply::TransientFailure), 451);
    assert_eq!(
        reply_code(&delivery_reply(&DeliveryOutcome::AssemblyFailed)),
        451
    );
    assert_eq!(
        reply_code(&delivery_reply(&DeliveryOutcome::StorageFailed)),
        451
    );
}

#[test]
fn record_liveness_rules() {
    let mut rec = record(9, "x@fake-email.com");
    assert!(rec.is_live(1_500));
    assert!(!rec.is_live(2_000)); // expiry is strict
    rec.is_active = Some(false);
    assert!(!rec.is_live(1_500));
    rec.is_active = None;
    assert!(!rec.is_live(1_500));
}

#[test]
fn step_result_shape_during_data() {
    let state = SmtpState::ReadingData("s".to_string(), vec!["r".to_string()], Vec::new());
    let r: StepResult = step(state, "DATA looks like a command but is body text");
    assert!(r.reply.is_none());
    assert!(r.action.is_none());
    match r.next {
        SmtpState::ReadingData(_, _, buf) => {
            assert_eq!(buf, b"DATA looks like a command but is body text\r\n".to_vec());
        }
        _ => panic!("the data phase goes on"),
    }
}
