use vstd::prelude::*;
use crate::state::{Battle, MAX_BPS};

verus! {

/// `bps` basis points of `amount`, rounded down.
pub open spec fn bps_of(amount: int, bps: int) -> int {
    amount * bps / (MAX_BPS as int)
}

/// `bps` basis points of `amount`, rounded down, computed as the program
/// does: `None` when `amount * bps` does not fit in a `u64`.
pub fn bps_share(amount: u64, bps: u16) -> (r: Option<u64>)
    ensures
        r is None <==> amount * bps > u64::MAX,
        r matches Some(v) ==> v == bps_of(amount as int, bps as int),
{
    match amount.checked_mul(bps as u64) {
        Some(p) => {
            let v = p / 10_000;
            Some(v)
        },
        None => None,
    }
}

/// The side that wins a battle: the higher metric, and on a tie the larger
/// pot, side A winning a tie of pots.
pub open spec fn decided_winner(b: Battle) -> u8 {
    if b.metrics_a > b.metrics_b {
        0
    } else if b.metrics_b > b.metrics_a {
        1
    } else if b.pot_a >= b.pot_b {
        0
    } else {
        1
    }
}

/// The winning side's pot, by the recorded winner (side B unless the winner is 0).
pub open spec fn winner_pot(b: Battle) -> u64 {
    if b.winner == 0 { b.pot_a } else { b.pot_b }
}

/// Both pots together.
pub open spec fn total_pool(b: Battle) -> int {
    b.pot_a + b.pot_b
}

/// The rake taken from a resolved battle's pool at `rake_bps`.
pub open spec fn pool_rake(b: Battle, rake_bps: u16) -> int {
    bps_of(total_pool(b), rake_bps as int)
}

/// What is left of the pool for the winners after the rake.
pub open spec fn distributable(b: Battle, rake_bps: u16) -> int {
    total_pool(b) - pool_rake(b, rake_bps)
}

/// A winning stake's share of the distributable pool, pro rata to the
/// winner pot and rounded down (before it is cut to 64 bits).
pub open spec fn pro_rata(amount: int, dist: int, wpot: int) -> int {
    amount * dist / wpot
}

/// 2^64
pub open spec fn two_pow_64() -> int {
    0x1_0000_0000_0000_0000
}

} // verus!
