//! Lifetimes that are counted in ledgers.
use vstd::prelude::*;
use crate::env::Env;

verus! {

/// Ledgers that an approval lives: seven days of ledgers that close every five
/// seconds.
pub const PENDING_APPROVAL_TTL_LEDGERS: u32 = 120_960;

/// Ledgers that the proposal of a new client lives: seven days of ledgers that close
/// every five seconds.
pub const PENDING_MIGRATION_TTL_LEDGERS: u32 = 120_960;

/// Ledgers that have to pass between the proposal of a governance admin and its
/// acceptance: one day of ledgers that close every five seconds.
pub const ADMIN_ROTATION_MIN_DELAY_LEDGERS: u32 = 17_280;

/// The ledger at which something that lives `ttl_ledgers` from `sequence` on
/// expires. There is no ledger past the last one.
pub open spec fn expiry(sequence: u32, ttl_ledgers: u32) -> u32 {
    if sequence + ttl_ledgers > u32::MAX {
        u32::MAX
    } else {
        (sequence + ttl_ledgers) as u32
    }
}

/// The ledger at which something that lives `ttl_ledgers` from now on expires.
pub fn compute_expiry(env: &Env, ttl_ledgers: u32) -> (ledger: u32)
    ensures
        ledger == expiry(env@.call.sequence, ttl_ledgers),
{
    match env.call.sequence.checked_add(ttl_ledgers) {
        Some(ledger) => ledger,
        None => u32::MAX,
    }
}

} // verus!
