//! Pruning the table of refresh tokens: records that expired long ago are
//! of no use to anyone.

use crate::clock::unix_now;
use crate::entity::refresh_tokens::{RefreshTokens, Row};
use vstd::prelude::*;

verus! {

/// How long a record is kept after its token has expired, in seconds:
/// twenty-one days.
pub const PRUNE_AGE: i64 = 1814400;

/// What is left of the table after pruning at the time `now`: the records
/// whose token expired no more than `PRUNE_AGE` seconds ago.
pub open spec fn pruned(tokens: Map<Seq<char>, Row>, now: i64) -> Map<Seq<char>, Row> {
    Map::new(
        |k: Seq<char>| tokens.contains_key(k) && now - tokens[k].expiry <= PRUNE_AGE,
        |k: Seq<char>| tokens[k],
    )
}

/// Prunes the table at a given time.
pub fn run_at(tokens: &mut RefreshTokens, now: i64)
    ensures
        final(tokens)@ == pruned(old(tokens)@, now),
{
    if now <= i64::MIN + PRUNE_AGE {
        // Nothing can have expired that long ago.
        assert(tokens@ =~= pruned(tokens@, now));
        return ;
    }
    let last_gone: i64 = now - PRUNE_AGE - 1;
    tokens.delete_expired(last_gone);
    assert(tokens@ =~= pruned(old(tokens)@, now));
}

/// Prunes the table at the time the clock shows.
pub fn run(tokens: &mut RefreshTokens)
    ensures
        exists|now: i64| final(tokens)@ == #[trigger] pruned(old(tokens)@, now),
{
    let now = unix_now();
    run_at(tokens, now)
}

} // verus!
