//! Crash-recovery data shared by the session and the background: the
//! integrity report of a restored session and the staleness rule of the
//! in-flight lock.

use vstd::prelude::*;

verus! {

/// Outcome of the verification of a restored session.
#[derive(Debug, Clone, Copy, PartialEq, Eq, Structural)]
pub enum IntegrityStatus {
    /// Every chunk verified.
    Clean,
    /// A contiguous prefix of the chunks verified.
    Partial,
    /// The session could not be recovered.
    Incomplete,
}

/// Report produced by crash recovery for one session.
#[derive(Debug, Clone)]
pub struct IntegrityReport {
    pub status: IntegrityStatus,
    pub total_chunks: u32,
    pub verified_chunks: u32,
    pub lost_chunks: u32,
    pub contiguous_prefix: u32,
    pub recommended_action: String,
    pub session_id: String,
    pub detail_message: Option<String>,
}

/// Age, in milliseconds, beyond which an in-flight lock is considered stale.
pub const LOCK_STALE_AFTER_MS: u64 = 30000;

/// A lock is stale when it records a start time and more than thirty
/// seconds have passed since then.
pub open spec fn lock_is_stale(started_at_ms: Option<u64>, now_ms: u64) -> bool {
    match started_at_ms {
        Some(start) => now_ms > start && now_ms - start > LOCK_STALE_AFTER_MS,
        None => false,
    }
}

/// Law: staleness depends only on how long ago the lock started.  A lock
/// without a start time is never stale; a lock is fresh up to thirty seconds
/// after its start and stale from then on; once stale it stays stale as time
/// passes, and a lock started earlier is stale whenever a later one is.
pub proof fn lemma_lock_staleness(start: u64, now: u64, later: u64, earlier_start: u64)
    ensures
        !lock_is_stale(None, now),
        now <= start + 30000 ==> !lock_is_stale(Some(start), now),
        now > start + 30000 ==> lock_is_stale(Some(start), now),
        lock_is_stale(Some(start), now) && now <= later ==> lock_is_stale(Some(start), later),
        lock_is_stale(Some(start), now) && earlier_start <= start ==> lock_is_stale(Some(earlier_start), now),
{
}

/// Decide whether an in-flight lock, started at `started_at_ms` (if the
/// lock records it), is stale at time `now_ms`.
pub fn is_lock_stale(started_at_ms: Option<u64>, now_ms: u64) -> (r: bool)
    ensures
        r == lock_is_stale(started_at_ms, now_ms),
{
    match started_at_ms {
        Some(start) => now_ms > start && now_ms - start > LOCK_STALE_AFTER_MS,
        None => false,
    }
}

} // verus!
