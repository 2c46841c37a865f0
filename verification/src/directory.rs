//! Address directory model and recipient resolution.
//!
//! A directory record stands for one live temporary mailbox.  Identifiers
//! are carried as 128-bit integers and timestamps as seconds, so the rules
//! on them — liveness, expiry — are plain arithmetic here, whatever types
//! the store around the library uses.
//!
//! Resolution walks the session's candidate recipients in submission order
//! and stops at the first that resolved to a live record.

use vstd::prelude::*;

verus! {

/// One live temporary mailbox, as the directory answers a lookup.
pub struct TempEmailAddress {
    /// The record's identifier.
    pub id: u128,
    /// The mailbox address.
    pub address: String,
    /// The username the address was requested under, if any.
    pub username: Option<String>,
    /// Creation time, in seconds.
    pub created_at: i64,
    /// Expiry time, in seconds.
    pub expires_at: i64,
    /// Whether the record is active; an absent flag counts as inactive.
    pub is_active: Option<bool>,
}

/// A record accepts mail at time `now` when it is marked active and has
/// not expired.
pub open spec fn record_live_spec(rec: TempEmailAddress, now: i64) -> bool {
    rec.is_active == Some(true) && rec.expires_at > now
}

impl TempEmailAddress {
    /// Is this record a live mailbox at time `now` (seconds)?
    pub fn is_live(&self, now: i64) -> (r: bool)
        ensures
            r == record_live_spec(*self, now),
    {
        match self.is_active {
            Some(active) => active && self.expires_at > now,
            None => false,
        }
    }
}

/// The position of the first resolved candidate at or after `from`, if
/// any.
pub open spec fn first_some_index<T>(s: Seq<Option<T>>, from: int) -> Option<int>
    decreases s.len() - from
        when 0 <= from <= s.len()
{
    if from >= s.len() {
        None
    } else if s[from] is Some {
        Some(from)
    } else {
        first_some_index(s, from + 1)
    }
}

proof fn lemma_first_some_found<T>(s: Seq<Option<T>>, from: int, k: int)
    requires
        0 <= from <= k < s.len(),
        s[k] is Some,
        forall|i: int| from <= i < k ==> s[i] is None,
    ensures
        first_some_index(s, from) == Some(k),
    decreases k - from,
{
    if from < k {
        lemma_first_some_found(s, from + 1, k);
    }
}

proof fn lemma_first_some_missing<T>(s: Seq<Option<T>>, from: int)
    requires
        0 <= from <= s.len(),
        forall|i: int| from <= i < s.len() ==> s[i] is None,
    ensures
        first_some_index(s, from) is None,
    decreases s.len() - from,
{
    if from < s.len() {
        lemma_first_some_missing(s, from + 1);
    }
}

/// Single-resolve law: when candidate `k` is the first in submission
/// order that resolved, resolution picks `k`, whatever the candidates
/// after `k` resolved to.
pub proof fn lemma_single_resolve<T>(s: Seq<Option<T>>, k: int)
    requires
        0 <= k < s.len(),
        s[k] is Some,
        forall|i: int| 0 <= i < k ==> s[i] is None,
    ensures
        first_some_index(s, 0) == Some(k),
{
    lemma_first_some_found(s, 0, k);
}

/// No-match law: when no candidate resolved, resolution finds nothing.
pub proof fn lemma_no_match<T>(s: Seq<Option<T>>)
    requires
        forall|i: int| 0 <= i < s.len() ==> s[i] is None,
    ensures
        first_some_index(s, 0) is None,
{
    lemma_first_some_missing(s, 0);
}

/// Pick the delivery target among the candidates' lookup results, in
/// submission order: the first that resolved, none when none did.
pub fn resolve_first(lookups: &Vec<Option<TempEmailAddress>>) -> (r: Option<usize>)
    ensures
        match r {
            Some(k) => first_some_index(lookups@, 0) == Some(k as int),
            None => first_some_index(lookups@, 0) is None,
        },
{
    let n = lookups.len();
    let mut i: usize = 0;
    while i < n
        invariant
            0 <= i <= n,
            n == lookups@.len(),
            forall|k: int| 0 <= k < i ==> lookups@[k] is None,
        decreases n - i,
    {
        if lookups[i].is_some() {
            proof {
                lemma_first_some_found(lookups@, 0, i as int);
            }
            return Some(i);
        }
        i += 1;
    }
    proof {
        lemma_first_some_missing(lookups@, 0);
    }
    None
}

/// What a short-circuiting resolution loop does after one directory
/// lookup.
#[derive(Clone, Copy, PartialEq, Eq, Structural, Debug)]
pub enum ResolveStep {
    /// The candidate at this position resolved: deliver to it.
    Deliver(usize),
    /// The candidate did not resolve; try the one at this position next.
    TryNext(usize),
    /// The candidate did not resolve and none are left.
    NoMatch,
}

/// Decide how resolution goes on after looking up the candidate at
/// `index` of `count`: stop at the first hit, otherwise advance, and give
/// up after the last candidate.
pub fn resolve_step(count: usize, index: usize, found: bool) -> (r: ResolveStep)
    requires
        index < count,
    ensures
        found ==> r == ResolveStep::Deliver(index),
        !found && index + 1 < count ==> r == ResolveStep::TryNext((index + 1) as usize),
        !found && index + 1 >= count ==> r == ResolveStep::NoMatch,
{
    if found {
        ResolveStep::Deliver(index)
    } else if index + 1 < count {
        ResolveStep::TryNext(index + 1)
    } else {
        ResolveStep::NoMatch
    }
}

} // verus!
