//! Command classifier: turns a raw input line into a recognized command
//! plus argument, tolerating case and whitespace variance.
//!
//! Keyword matching is ASCII case-insensitive.  The envelope commands carry
//! one address, taken from between the first `<` and the next `>` after it;
//! when no such pair exists, the remainder of the line after the first `:`
//! is taken instead, with surrounding whitespace trimmed.

use vstd::prelude::*;

use crate::ascii::{
    find_char, first_index_from, seq_ci_eq, starts_ci, starts_with_ci, str_ci_eq, trim_spec,
    trim_str,
};

verus! {

/// The trimmed line opens a session: `HELO` or `EHLO`.
pub open spec fn is_helo_line(t: Seq<char>) -> bool {
    starts_ci(t, "HELO"@) || starts_ci(t, "EHLO"@)
}

/// The trimmed line names a sender: `MAIL FROM`.
pub open spec fn is_mail_from_line(t: Seq<char>) -> bool {
    starts_ci(t, "MAIL FROM"@)
}

/// The trimmed line names a recipient: `RCPT TO`.
pub open spec fn is_rcpt_to_line(t: Seq<char>) -> bool {
    starts_ci(t, "RCPT TO"@)
}

/// The trimmed line is exactly the body-transfer trigger `DATA`.
pub open spec fn is_data_cmd(t: Seq<char>) -> bool {
    seq_ci_eq(t, "DATA"@)
}

/// The trimmed line is exactly `QUIT`.
pub open spec fn is_quit_cmd(t: Seq<char>) -> bool {
    seq_ci_eq(t, "QUIT"@)
}

/// The trimmed line carries one of the known command keywords.
pub open spec fn is_known_line(t: Seq<char>) -> bool {
    ||| is_helo_line(t)
    ||| is_mail_from_line(t)
    ||| is_rcpt_to_line(t)
    ||| is_data_cmd(t)
    ||| is_quit_cmd(t)
}

/// The address between the first `<` and the next `>` after it, if both
/// are present.
pub open spec fn angle_addr(t: Seq<char>) -> Option<Seq<char>> {
    match first_index_from(t, '<', 0) {
        Some(i) => match first_index_from(t, '>', i + 1) {
            Some(j) => Some(t.subrange(i + 1, j)),
            None => None,
        },
        None => None,
    }
}

/// The remainder of the line after the first `:`, whitespace-trimmed;
/// empty when the line has no `:`.
pub open spec fn colon_remainder(t: Seq<char>) -> Seq<char> {
    match first_index_from(t, ':', 0) {
        Some(k) => trim_spec(t.subrange(k + 1, t.len() as int)),
        None => Seq::empty(),
    }
}

/// The address an envelope command carries: the angle-bracketed form when
/// present, otherwise the trimmed remainder after the keyword's `:`.
pub open spec fn addr_spec(t: Seq<char>) -> Seq<char> {
    match angle_addr(t) {
        Some(a) => a,
        None => colon_remainder(t),
    }
}

/// A recognized command with its argument, or `Unrecognized`.
pub enum Command {
    /// `HELO`/`EHLO`.
    Helo,
    /// `MAIL FROM`, carrying the sender address.
    MailFrom(String),
    /// `RCPT TO`, carrying one recipient address.
    RcptTo(String),
    /// `DATA`.
    Data,
    /// `QUIT`.
    Quit,
    /// No known command keyword.
    Unrecognized,
}

fn colon_fallback(command: &str) -> (r: String)
    ensures
        r@ == colon_remainder(command@),
{
    let n = command.unicode_len();
    match find_char(command, ':', 0) {
        Some(k) => {
            let rest = command.substring_char(k + 1, n);
            trim_str(rest).to_owned()
        },
        None => String::new(),
    }
}

/// Extract the address argument of an envelope command, as [`addr_spec`]
/// describes: between the first `<` and the next `>` when both exist,
/// otherwise the trimmed remainder after the first `:`.
pub fn parse_email_from_command(command: &str) -> (r: String)
    ensures
        r@ == addr_spec(command@),
{
    let n = command.unicode_len();
    match find_char(command, '<', 0) {
        Some(i) => match find_char(command, '>', i + 1) {
            Some(j) => command.substring_char(i + 1, j).to_owned(),
            None => colon_fallback(command),
        },
        None => colon_fallback(command),
    }
}

/// Classify a raw input line.  The line is whitespace-trimmed first; the
/// keyword decides the command, and envelope commands carry the extracted
/// address.
pub fn classify(line: &str) -> (r: Command)
    ensures
        ({
            let t = trim_spec(line@);
            match r {
                Command::Helo => is_helo_line(t),
                Command::MailFrom(a) => is_mail_from_line(t) && a@ == addr_spec(t),
                Command::RcptTo(a) => is_rcpt_to_line(t) && a@ == addr_spec(t),
                Command::Data => is_data_cmd(t),
                Command::Quit => is_quit_cmd(t),
                Command::Unrecognized => !is_known_line(t),
            }
        }),
{
    let t = trim_str(line);
    if starts_with_ci(t, "HELO") || starts_with_ci(t, "EHLO") {
        Command::Helo
    } else if starts_with_ci(t, "MAIL FROM") {
        Command::MailFrom(parse_email_from_command(t))
    } else if starts_with_ci(t, "RCPT TO") {
        Command::RcptTo(parse_email_from_command(t))
    } else if str_ci_eq(t, "DATA") {
        Command::Data
    } else if str_ci_eq(t, "QUIT") {
        Command::Quit
    } else {
        Command::Unrecognized
    }
}

} // verus!
