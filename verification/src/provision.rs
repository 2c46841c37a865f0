//! Rules for provisioning a temporary mailbox: request validation, TTL
//! clamping, expiry arithmetic, and the retry policy around the store's
//! unique-address constraint.
//!
//! The store itself is an external collaborator; the caller performs each
//! insert and classifies its outcome, and [`next_attempt`] decides
//! whether to retry with a fresh address, succeed, or give up.

use vstd::prelude::*;
use vstd::string::StringSliceAdditionalSpecFns;

use crate::ascii::str_eq;
use crate::directory::TempEmailAddress;
use crate::generator::{char_alnum, is_alnum};

verus! {

/// A request for a new temporary mailbox.
pub struct TempEmailRequest {
    /// The username wished for, if any.
    pub username: Option<String>,
    /// The requested lifetime in minutes, if any.
    pub ttl_minutes: Option<u64>,
}

/// Why a requested username was rejected.
#[derive(Clone, Copy, PartialEq, Eq, Structural, Debug)]
pub enum ValidationError {
    /// The username is shorter than 3 or longer than 20 bytes.
    BadLength,
    /// The username holds a character that is neither alphanumeric nor
    /// an underscore.
    BadCharacter,
}

impl ValidationError {
    /// The message reported for this rejection.
    pub fn message(&self) -> (r: String)
        ensures
            self is BadLength ==> r@ == "Username must be between 3 and 20 characters."@,
            self is BadCharacter ==> r@
                == "Username can only contain alphanumeric characters and underscores."@,
    {
        match self {
            ValidationError::BadLength => "Username must be between 3 and 20 characters."
                .to_owned(),
            ValidationError::BadCharacter =>
                "Username can only contain alphanumeric characters and underscores.".to_owned(),
        }
    }
}

/// The username's UTF-8 form is between 3 and 20 bytes long.
pub open spec fn username_len_ok(s: Seq<char>) -> bool {
    3 <= vstd::utf8::encode_utf8(s).len() <= 20
}

/// Every character of the username is alphanumeric or an underscore.
pub open spec fn username_chars_ok(s: Seq<char>) -> bool {
    forall|i: int| 0 <= i < s.len() ==> is_alnum(s[i]) || s[i] == '_'
}

/// A username the service accepts.
pub open spec fn username_ok(s: Seq<char>) -> bool {
    username_len_ok(s) && username_chars_ok(s)
}

/// Check a requested username: its length must lie between 3 and 20
/// bytes and it may hold only alphanumeric characters and underscores.
pub fn validate_username(username: &str) -> (r: Result<(), ValidationError>)
    ensures
        ((r is Ok) <==> username_ok(username@)),
        ((r matches Err(e) && e is BadLength) <==> !username_len_ok(username@)),
        ((r matches Err(e) && e is BadCharacter) <==> (username_len_ok(username@)
            && !username_chars_ok(username@))),
{
    let len = username.as_bytes().len();
    proof {
        assert(username.spec_bytes() == vstd::utf8::encode_utf8(username@));
    }
    if len < 3 || len > 20 {
        return Err(ValidationError::BadLength);
    }
    let n = username.unicode_len();
    let mut i: usize = 0;
    while i < n
        invariant
            0 <= i <= n,
            n == username@.len(),
            username_len_ok(username@),
            forall|j: int| 0 <= j < i ==> is_alnum(username@[j]) || username@[j] == '_',
        decreases n - i,
    {
        let c = username.get_char(i);
        if !(char_alnum(c) || c == '_') {
            proof {
                assert(!(is_alnum(username@[i as int]) || username@[i as int] == '_'));
                assert(!username_chars_ok(username@));
            }
            return Err(ValidationError::BadCharacter);
        }
        i += 1;
    }
    Ok(())
}

/// The requested lifetime, defaulted and clamped to the service's range
/// of 10 minutes to 24 hours.
pub open spec fn clamp_ttl_spec(requested: Option<u64>) -> u64 {
    let v = match requested {
        Some(v) => v,
        None => 1440,
    };
    if v < 10 {
        10
    } else if v > 1440 {
        1440
    } else {
        v
    }
}

/// Default and clamp the requested lifetime in minutes: absent means a
/// day, and the result always lies between 10 and 1440 minutes.
pub fn clamp_ttl(requested: Option<u64>) -> (r: u64)
    ensures
        r == clamp_ttl_spec(requested),
        10 <= r <= 1440,
{
    let v = match requested {
        Some(v) => v,
        None => 1440,
    };
    if v < 10 {
        10
    } else if v > 1440 {
        1440
    } else {
        v
    }
}

/// Validate a whole mailbox request: a present username must pass
/// [`validate_username`]; on success the granted lifetime is the clamped
/// request.
pub fn plan_request(req: &TempEmailRequest) -> (r: Result<u64, ValidationError>)
    ensures
        ((r is Ok) <==> (match req.username {
            Some(u) => username_ok(u@),
            None => true,
        })),
        r matches Ok(t) ==> t == clamp_ttl_spec(req.ttl_minutes),
        r matches Err(e) ==> (match req.username {
            Some(u) => {
                &&& ((e is BadLength) <==> !username_len_ok(u@))
                &&& ((e is BadCharacter) <==> (username_len_ok(u@) && !username_chars_ok(u@)))
            },
            None => false,
        }),
{
    match &req.username {
        Some(u) => match validate_username(u.as_str()) {
            Ok(_) => Ok(clamp_ttl(req.ttl_minutes)),
            Err(e) => Err(e),
        },
        None => Ok(clamp_ttl(req.ttl_minutes)),
    }
}

/// Expiry timestamp for a mailbox created at `created_at` (seconds) that
/// lives `ttl_minutes` minutes.
pub fn expiry_at(created_at: i64, ttl_minutes: i64) -> (r: i64)
    requires
        0 <= ttl_minutes <= 1440,
        created_at <= i64::MAX - 86400,
    ensures
        r == created_at + ttl_minutes * 60,
{
    created_at + ttl_minutes * 60
}

/// Is this database error code the unique-constraint violation that a
/// colliding address raises?
pub fn is_unique_violation(code: &Option<String>) -> (r: bool)
    ensures
        r == (match code {
            Some(c) => c@ == "23505"@,
            None => false,
        }),
{
    match code {
        Some(c) => str_eq(c.as_str(), "23505"),
        None => false,
    }
}

/// How one insert attempt of a fresh address ended, as the caller
/// classified it.
pub enum InsertOutcome {
    /// The insert went through and returned this record.
    Inserted(TempEmailAddress),
    /// The insert hit the unique-address constraint: the address is
    /// taken.
    DuplicateAddress,
    /// The insert failed for any other reason.
    Failed,
}

/// What the provisioning loop does after one insert attempt.
pub enum ProvisionStep {
    /// Provisioning succeeded with this record.
    Done(TempEmailAddress),
    /// Generate a fresh address and try again.
    Retry,
    /// Give up: no unique address was found within the retry budget.
    FailCollision,
    /// Give up: the store failed.
    FailDatabase,
}

/// How many times a colliding address is regenerated before giving up.
pub const MAX_RETRIES: usize = 3;

/// Decide how provisioning goes on after an insert attempt:
/// success passes the record through; a collision is retried while fewer
/// than [`MAX_RETRIES`] attempts are done; anything else gives up.
pub fn next_attempt(outcome: InsertOutcome, attempts_done: usize) -> (r: ProvisionStep)
    ensures
        outcome matches InsertOutcome::Inserted(rec) ==> (r matches ProvisionStep::Done(d) && d
            == rec),
        ((outcome is DuplicateAddress) && attempts_done < MAX_RETRIES) ==> (r is Retry),
        ((outcome is DuplicateAddress) && attempts_done >= MAX_RETRIES) ==> (r is FailCollision),
        (outcome is Failed) ==> (r is FailDatabase),
{
    match outcome {
        InsertOutcome::Inserted(rec) => ProvisionStep::Done(rec),
        InsertOutcome::DuplicateAddress => {
            if attempts_done < MAX_RETRIES {
                ProvisionStep::Retry
            } else {
                ProvisionStep::FailCollision
            }
        },
        InsertOutcome::Failed => ProvisionStep::FailDatabase,
    }
}

} // verus!
