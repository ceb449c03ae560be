use vstd::prelude::*;
use crate::address::Address;

verus! {

/// Largest basis-point value accepted anywhere: 10_000 bps is 100%.
pub const MAX_BPS: u16 = 10_000;

/// Shortest round an arena may require, in seconds.
pub const MIN_ARENA_DURATION_SECS: i64 = 60;

/// `Battle::winner` while the battle is unresolved.
pub const WINNER_UNKNOWN: u8 = 255;

/// Program-wide configuration, stored once.
#[derive(Clone, Copy, Debug)]
pub struct Global {
    pub admin: Address,
    pub fee_bps: u16,
    pub bet_rake_bps: u16,
    pub entry_fee_lamports: u64,
    pub bump: u8,
    pub reserve_bump: u8,
}

impl Global {
    /// Serialized size of the account data, without the 8-byte discriminator.
    pub const SIZE: usize = 32 + 2 + 2 + 8 + 1 + 1;

    /// Both rates are at most 100%.
    pub open spec fn wf(&self) -> bool {
        &&& self.fee_bps <= MAX_BPS
        &&& self.bet_rake_bps <= MAX_BPS
    }
}

/// What an arena's battles are scored on.
#[derive(Clone, Copy, Debug, PartialEq, Eq, Structural)]
pub enum ArenaKind {
    VolumeWar,
    SentimentDuel,
    Challenge,
}

/// An arena: an authority that runs battles, scored by an oracle.
#[derive(Clone, Copy, Debug)]
pub struct Arena {
    pub authority: Address,
    pub kind: ArenaKind,
    pub reward_bps_from_reserve: u16,
    pub min_duration_secs: i64,
    pub oracle: Address,
    pub bump: u8,
}

impl Arena {
    pub const SIZE: usize = 32 + 1 + 2 + 8 + 32 + 1;

    /// The reward rate is at most 100% and rounds last at least a minute.
    pub open spec fn wf(&self) -> bool {
        &&& self.reward_bps_from_reserve <= MAX_BPS
        &&& self.min_duration_secs >= MIN_ARENA_DURATION_SECS
    }
}

/// A battle between two forges, with its scores and betting pots.
#[derive(Clone, Copy, Debug)]
pub struct Battle {
    pub arena: Address,
    pub forge_a: Address,
    pub forge_b: Address,
    pub start_ts: i64,
    pub end_ts: i64,
    pub nonce: u64,
    pub metrics_a: u128,
    pub metrics_b: u128,
    pub pot_a: u64,
    pub pot_b: u64,
    pub resolved: bool,
    /// 0 (side A) or 1 (side B) once resolved; `WINNER_UNKNOWN` before.
    pub winner: u8,
    pub bump: u8,
}

impl Battle {
    pub const SIZE: usize = 32 + 32 + 32 + 8 + 8 + 8 + 16 + 16 + 8 + 8 + 1 + 1 + 1;

    /// The round is a proper interval and the winner is known exactly when resolved.
    pub open spec fn wf(&self) -> bool {
        &&& self.start_ts < self.end_ts
        &&& self.resolved ==> self.winner <= 1
        &&& !self.resolved ==> self.winner == WINNER_UNKNOWN
    }
}

/// One bettor's stake in one battle.
#[derive(Clone, Copy, Debug)]
pub struct Bet {
    pub battle: Address,
    pub bettor: Address,
    pub side: u8,
    pub amount: u64,
    pub claimed: bool,
    pub bump: u8,
}

impl Bet {
    pub const SIZE: usize = 32 + 32 + 1 + 8 + 1 + 1;

    /// The recorded side is A (0) or B (1).
    pub open spec fn wf(&self) -> bool {
        self.side <= 1
    }
}

/// A registered token project.
#[derive(Clone, Copy, Debug)]
pub struct Forge {
    pub mint: Address,
    pub creator: Address,
    pub bump: u8,
    pub created_at: i64,
}

impl Forge {
    pub const SIZE: usize = 32 + 32 + 1 + 8;
}

/// Event emitted when a forge mints its own token.
#[derive(Clone, Copy, Debug)]
pub struct ForgeCreated {
    pub mint: Address,
    pub creator: Address,
    pub ts: i64,
}

/// Why an instruction is refused.
#[derive(Clone, Copy, Debug, PartialEq, Eq, Structural)]
pub enum ArenaErr {
    InvalidBps,
    MissingBump,
    DurationTooShort,
    BadTimes,
    Unauthorized,
    NotInRound,
    RoundEnded,
    NotEnded,
    NotResolved,
    AlreadyResolved,
    BadSide,
    ZeroAmount,
    Overflow,
    Insufficient,
    EmptyWinnerPot,
    BadBet,
    AlreadyClaimed,
}

} // verus!
