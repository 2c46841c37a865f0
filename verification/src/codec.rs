//! Dot-transparency codec for the data phase.
//!
//! During data accumulation a line of exactly one `.` ends the phase and is
//! never stored; a longer line beginning with `.` loses that first character
//! (undoing sender-side escaping); every other line is stored unchanged.
//! Stored lines are appended to the raw message buffer with a normalized
//! CRLF terminator.

use vstd::prelude::*;

verus! {

/// A carriage return or line feed, the characters stripped from the end of
/// an incoming wire line before the codec looks at it.
pub open spec fn is_crlf_char(c: char) -> bool {
    c == '\r' || c == '\n'
}

/// `s` with every trailing carriage return and line feed removed.
pub open spec fn strip_crlf_spec(s: Seq<char>) -> Seq<char>
    decreases s.len(),
{
    if s.len() > 0 && is_crlf_char(s.last()) {
        strip_crlf_spec(s.drop_last())
    } else {
        s
    }
}

/// A stripped line consisting of exactly one `.` ends the data phase.
pub open spec fn is_terminator_line(line: Seq<char>) -> bool {
    strip_crlf_spec(line) == seq!['.']
}

/// Reverse the sender-side escaping: a stripped, non-terminator line that
/// begins with `.` loses that first character; any other line is unchanged.
pub open spec fn unstuff_spec(s: Seq<char>) -> Seq<char> {
    if s.len() > 0 && s[0] == '.' {
        s.drop_first()
    } else {
        s
    }
}

/// The bytes a stored line contributes to the raw message buffer: the
/// UTF-8 encoding of its unstuffed content followed by CRLF.
pub open spec fn stored_bytes(line: Seq<char>) -> Seq<u8> {
    vstd::utf8::encode_utf8(unstuff_spec(strip_crlf_spec(line))) + seq![13u8, 10u8]
}

/// What one incoming line means during the data phase.
pub enum DataLine {
    /// The line ends the phase; nothing is stored.
    Terminator,
    /// The line stays; the carried string is the content to store.
    Content(String),
}

proof fn lemma_strip_crlf_take(s: Seq<char>, j: int)
    requires
        0 <= j <= s.len(),
        forall|k: int| j <= k < s.len() ==> is_crlf_char(s[k]),
        j > 0 ==> !is_crlf_char(s[j - 1]),
    ensures
        strip_crlf_spec(s) == s.subrange(0, j),
    decreases s.len() - j,
{
    if j == s.len() {
        if s.len() > 0 && is_crlf_char(s.last()) {
            assert(!is_crlf_char(s[j - 1]));
            assert(false);
        }
        assert(s.subrange(0, s.len() as int) =~= s);
    } else {
        assert(is_crlf_char(s.last()));
        let t = s.drop_last();
        assert(t =~= s.subrange(0, s.len() - 1));
        lemma_strip_crlf_take(t, j);
        assert(t.subrange(0, j) =~= s.subrange(0, j));
    }
}

/// Executable test for [`is_crlf_char`].
fn is_crlf(c: char) -> (r: bool)
    ensures
        r == is_crlf_char(c),
{
    c == '\r' || c == '\n'
}

/// Classify one incoming data-phase line: terminator, or content to store
/// with the transparency escape undone.
pub fn decode_data_line(line: &str) -> (r: DataLine)
    ensures
        match r {
            DataLine::Terminator => is_terminator_line(line@),
            DataLine::Content(c) => {
                &&& !is_terminator_line(line@)
                &&& c@ == unstuff_spec(strip_crlf_spec(line@))
            },
        },
{
    let n = line.unicode_len();
    let mut j: usize = n;
    while j > 0 && is_crlf(line.get_char(j - 1))
        invariant
            0 <= j <= n,
            n == line@.len(),
            forall|k: int| j <= k < n ==> is_crlf_char(line@[k]),
        decreases j,
    {
        j -= 1;
    }
    proof {
        lemma_strip_crlf_take(line@, j as int);
    }
    let stripped = line.substring_char(0, j);
    if j == 1 && stripped.get_char(0) == '.' {
        proof {
            assert(stripped@ =~= seq!['.']);
        }
        DataLine::Terminator
    } else if j > 0 && stripped.get_char(0) == '.' {
        proof {
            assert(stripped@ != seq!['.']);
            assert(stripped@.subrange(1, j as int) =~= unstuff_spec(stripped@));
        }
        DataLine::Content(stripped.substring_char(1, j).to_owned())
    } else {
        proof {
            assert(stripped@ != seq!['.']);
        }
        DataLine::Content(stripped.to_owned())
    }
}

/// Append one stored line to the raw message buffer, with a normalized
/// CRLF line terminator.
pub fn append_data_line(buf: &mut Vec<u8>, content: &str)
    ensures
        final(buf)@ == old(buf)@ + vstd::utf8::encode_utf8(content@) + seq![13u8, 10u8],
{
    buf.extend_from_slice(content.as_bytes());
    buf.push(13);
    buf.push(10);
    proof {
        assert(buf@ =~= old(buf)@ + vstd::utf8::encode_utf8(content@) + seq![13u8, 10u8]);
    }
}

/// Transparency law: a stripped line that does not begin with `.` (and so
/// in particular is not the terminator) is stored exactly as it arrived.
pub proof fn lemma_transparency_verbatim(line: Seq<char>)
    requires
        line != seq!['.'],
        line.len() > 0 ==> line[0] != '.',
    ensures
        unstuff_spec(line) == line,
{
}

/// Unstuffing law: a stripped line `..x` is stored as `.x`; more generally
/// a second leading `.` protects the first.
pub proof fn lemma_unstuffing(x: Seq<char>)
    ensures
        unstuff_spec(seq!['.', '.'] + x) == seq!['.'] + x,
{
    assert((seq!['.', '.'] + x).drop_first() =~= seq!['.'] + x);
}

} // verus!
