//! Address generation: a sanitized username or a random local part,
//! joined with the service domain.
//!
//! Unicode case folding and the alphanumeric test come from the standard
//! library behind trusted wrappers whose results are named functions of
//! their argument; randomness comes from the `rand` crate, of which
//! nothing is assumed beyond the range of the drawn index.

use vstd::prelude::*;
use vstd::string::{StrSliceExecFns, StringExecFns};

verus! {

/// What `str::to_lowercase` returns for these characters.
pub uninterp spec fn lower_of(s: Seq<char>) -> Seq<char>;

/// Relies on str::to_lowercase: the lowercase form of a string depends
/// on its characters alone.
#[verifier::external_body]
fn lowercase(s: &str) -> (r: String)
    ensures
        r@ == lower_of(s@),
{
    s.to_lowercase()
}

/// Whether `char::is_alphanumeric` holds of this character.
pub uninterp spec fn is_alnum(c: char) -> bool;

/// Relies on char::is_alphanumeric: whether a character is alphanumeric
/// depends on the character alone.
#[verifier::external_body]
pub(crate) fn char_alnum(c: char) -> (r: bool)
    ensures
        r == is_alnum(c),
{
    c.is_alphanumeric()
}

/// Relies on rand::random_range over `0..bound`: the drawn index lies
/// below `bound` (the range must not be empty); nothing more is assumed
/// of the drawn value.
#[verifier::external_body]
fn random_below(bound: usize) -> (r: usize)
    requires
        bound > 0,
    ensures
        r < bound,
{
    rand::random_range(0..bound)
}

/// `s` with every character that is not alphanumeric removed.
pub open spec fn filter_alnum(s: Seq<char>) -> Seq<char>
    decreases s.len(),
{
    if s.len() == 0 {
        Seq::empty()
    } else if is_alnum(s.last()) {
        filter_alnum(s.drop_last()) + seq![s.last()]
    } else {
        filter_alnum(s.drop_last())
    }
}

/// Lower-case the username and drop every character that is not
/// alphanumeric, so the local part of an address is clean before use.
pub fn sanitize(username: String) -> (r: String)
    ensures
        r@ == filter_alnum(lower_of(username@)),
{
    let lowered = lowercase(username.as_str());
    let n = lowered.as_str().unicode_len();
    let mut out = String::new();
    let mut i: usize = 0;
    while i < n
        invariant
            0 <= i <= n,
            n == lowered@.len(),
            out@ == filter_alnum(lowered@.subrange(0, i as int)),
        decreases n - i,
    {
        let c = lowered.as_str().get_char(i);
        proof {
            assert(lowered@.subrange(0, i + 1).drop_last() =~= lowered@.subrange(0, i as int));
            assert(lowered@.subrange(0, i + 1).last() == lowered@[i as int]);
        }
        if char_alnum(c) {
            let piece = lowered.as_str().substring_char(i, i + 1);
            out.append(piece);
            proof {
                assert(piece@ =~= seq![lowered@[i as int]]);
            }
        }
        i += 1;
    }
    proof {
        assert(lowered@.subrange(0, n as int) =~= lowered@);
    }
    out
}

/// The characters a random local part draws from: visually ambiguous
/// characters are left out.
pub open spec fn charset() -> Seq<char> {
    "abcdefghjkmnpqrstuvwxyz23456789"@
}

/// A random local part: `length` characters drawn from [`charset`].
pub fn random_string(length: usize) -> (r: String)
    ensures
        r@.len() == length,
        forall|i: int| 0 <= i < length ==> charset().contains(r@[i]),
{
    let cs: &str = "abcdefghjkmnpqrstuvwxyz23456789";
    proof {
        reveal_strlit("abcdefghjkmnpqrstuvwxyz23456789");
    }
    let n = cs.unicode_len();
    let mut out = String::new();
    let mut k: usize = 0;
    while k < length
        invariant
            0 <= k <= length,
            n == charset().len(),
            n == 31,
            cs@ == charset(),
            out@.len() == k,
            forall|i: int| 0 <= i < k ==> charset().contains(out@[i]),
        decreases length - k,
    {
        let idx = random_below(n);
        let piece = cs.substring_char(idx, idx + 1);
        out.append(piece);
        proof {
            assert(piece@[0] == charset()[idx as int]);
            assert(charset().contains(out@[k as int]));
        }
        k += 1;
    }
    out
}

/// Build a mailbox address from an optional requested username and the
/// service domain.  A given username is sanitized and becomes the local
/// part; otherwise the local part is eight random characters from
/// [`charset`].  The domain follows after `@`.
pub fn generate_email_address(username: Option<String>, domain: &str) -> (r: String)
    ensures
        username matches Some(u) ==> r@ == filter_alnum(lower_of(u@)) + "@"@ + domain@,
        username is None ==> ({
            &&& r@.len() == 9 + domain@.len()
            &&& forall|i: int| 0 <= i < 8 ==> charset().contains(r@[i])
            &&& r@[8] == '@'
            &&& r@.subrange(9, r@.len() as int) == domain@
        }),
{
    let ghost had_name = username is Some;
    let mut out = match username {
        Some(name) => sanitize(name),
        None => random_string(8),
    };
    let ghost local = out@;
    out.append("@");
    out.append(domain);
    proof {
        reveal_strlit("@");
        assert(out@ =~= local + "@"@ + domain@);
        if !had_name {
            assert(local.len() == 8);
            assert forall|i: int| 0 <= i < 8 implies charset().contains(out@[i]) by {
                assert(out@[i] == local[i]);
            }
            assert(out@[8] == '@');
            assert(out@.subrange(9, out@.len() as int) =~= domain@);
        }
    }
    out
}

} // verus!
