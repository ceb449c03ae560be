use vstd::prelude::*;
use crate::address::Address;
use crate::state::{Arena, ArenaErr, Battle, Bet, Global, WINNER_UNKNOWN};
use crate::payout::{
    bps_of, bps_share, decided_winner, distributable, pool_rake, pro_rata, total_pool,
    two_pow_64, winner_pot,
};
use crate::system::system_transfer;
use crate::transfer::{
    debit_lamports, reserve_signer_seeds, reserve_signer_seeds_spec, transfer_lamports, LamportDebit,
    LamportTransfer,
};

verus! {

// ------------------------------ Battles -------------------------------------

/// What `init_battle` reads: the config, the arena, both forges and their creators (who
/// each pay the entry fee into the reserve vault), and the new battle account.
#[derive(Clone, Copy, Debug)]
pub struct InitBattle {
    pub global: Global,
    pub reserve_vault: Address,
    pub arena_key: Address,
    pub arena: Arena,
    pub forge_a_key: Address,
    pub forge_b_key: Address,
    pub forge_a_creator: Address,
    pub forge_a_creator_lamports: u64,
    pub forge_b_creator: Address,
    pub forge_b_creator_lamports: u64,
    pub battle: Battle,
    pub battle_bump: u8,
}

/// What forge B's creator holds when its fee is taken: after paying forge
/// A's fee too when both forges have the same creator.
pub open spec fn creator_b_lamports_at_fee(ctx: InitBattle) -> int {
    if ctx.forge_b_creator == ctx.forge_a_creator {
        ctx.forge_a_creator_lamports - ctx.global.entry_fee_lamports
    } else {
        ctx.forge_b_creator_lamports as int
    }
}

/// The error `init_battle` answers, if any, checked in the program's order.
pub open spec fn init_battle_error(ctx: InitBattle, start_ts: i64, end_ts: i64) -> Option<ArenaErr> {
    if end_ts <= start_ts {
        Some(ArenaErr::BadTimes)
    } else if end_ts - start_ts < ctx.arena.min_duration_secs {
        Some(ArenaErr::DurationTooShort)
    } else if ctx.forge_a_creator_lamports < ctx.global.entry_fee_lamports {
        Some(ArenaErr::Insufficient)
    } else if creator_b_lamports_at_fee(ctx) < ctx.global.entry_fee_lamports {
        Some(ArenaErr::Insufficient)
    } else {
        None
    }
}

/// A fresh battle between the two forges over `[start_ts, end_ts]`.
pub open spec fn new_battle(ctx: InitBattle, nonce: u64, start_ts: i64, end_ts: i64) -> Battle {
    Battle {
        arena: ctx.arena_key,
        forge_a: ctx.forge_a_key,
        forge_b: ctx.forge_b_key,
        start_ts,
        end_ts,
        nonce,
        metrics_a: 0,
        metrics_b: 0,
        pot_a: 0,
        pot_b: 0,
        resolved: false,
        winner: WINNER_UNKNOWN,
        bump: ctx.battle_bump,
    }
}

/// Opens a battle between two forges in an arena; both forge creators pay
/// the entry fee into the reserve vault.
pub fn init_battle(ctx: &mut InitBattle, nonce: u64, start_ts: i64, end_ts: i64) -> (r: Result<Vec<LamportTransfer>, ArenaErr>)
    requires
        start_ts < end_ts ==> end_ts - start_ts <= i64::MAX,
    ensures
        r is Err <==> init_battle_error(*old(ctx), start_ts, end_ts) is Some,
        r matches Err(e) ==> init_battle_error(*old(ctx), start_ts, end_ts) == Some(e) && *final(ctx) == *old(ctx),
        r matches Ok(ts) ==> {
            &&& ts@.len() == 2
            &&& ts@[0].moves(old(ctx).forge_a_creator, old(ctx).reserve_vault, old(ctx).global.entry_fee_lamports, seq![])
            &&& ts@[1].moves(old(ctx).forge_b_creator, old(ctx).reserve_vault, old(ctx).global.entry_fee_lamports, seq![])
            &&& *final(ctx) == (InitBattle { battle: new_battle(*old(ctx), nonce, start_ts, end_ts), ..*old(ctx) })
            &&& final(ctx).battle.wf()
        },
{
    if !(end_ts > start_ts) {
        return Err(ArenaErr::BadTimes);
    }
    if !(end_ts - start_ts >= ctx.arena.min_duration_secs) {
        return Err(ArenaErr::DurationTooShort);
    }
    let fee = ctx.global.entry_fee_lamports;
    let ta = match transfer_lamports(&ctx.forge_a_creator, ctx.forge_a_creator_lamports, &ctx.reserve_vault, fee) {
        Ok(t) => t,
        Err(e) => return Err(e),
    };
    let b_lamports = if ctx.forge_b_creator == ctx.forge_a_creator {
        ctx.forge_a_creator_lamports - fee
    } else {
        ctx.forge_b_creator_lamports
    };
    let tb = match transfer_lamports(&ctx.forge_b_creator, b_lamports, &ctx.reserve_vault, fee) {
        Ok(t) => t,
        Err(e) => return Err(e),
    };
    ctx.battle = Battle {
        arena: ctx.arena_key,
        forge_a: ctx.forge_a_key,
        forge_b: ctx.forge_b_key,
        start_ts,
        end_ts,
        nonce,
        metrics_a: 0,
        metrics_b: 0,
        pot_a: 0,
        pot_b: 0,
        resolved: false,
        winner: WINNER_UNKNOWN,
        bump: ctx.battle_bump,
    };
    let mut ts: Vec<LamportTransfer> = Vec::new();
    ts.push(ta);
    ts.push(tb);
    Ok(ts)
}

/// What `update_metrics` reads: the signing oracle, the arena, the battle and the clock.
#[derive(Clone, Copy, Debug)]
pub struct UpdateMetrics {
    pub oracle: Address,
    pub arena: Arena,
    pub battle: Battle,
    pub now: i64,
}

/// The error `update_metrics` answers, if any, checked in the program's order.
pub open spec fn update_metrics_error(ctx: UpdateMetrics, add_a: u128, add_b: u128) -> Option<ArenaErr> {
    if ctx.arena.oracle != ctx.oracle {
        Some(ArenaErr::Unauthorized)
    } else if ctx.battle.resolved {
        Some(ArenaErr::AlreadyResolved)
    } else if !(ctx.now >= ctx.battle.start_ts && ctx.now <= ctx.battle.end_ts) {
        Some(ArenaErr::NotInRound)
    } else if ctx.battle.metrics_a + add_a > u128::MAX {
        Some(ArenaErr::Overflow)
    } else if ctx.battle.metrics_b + add_b > u128::MAX {
        Some(ArenaErr::Overflow)
    } else {
        None
    }
}

/// The battle after `add_a` and `add_b` are added to the two sides' scores.
pub open spec fn battle_with_metrics(b: Battle, add_a: u128, add_b: u128) -> Battle {
    Battle { metrics_a: (b.metrics_a + add_a) as u128, metrics_b: (b.metrics_b + add_b) as u128, ..b }
}

/// The arena's oracle adds to both sides' scores while the round runs.
pub fn update_metrics(ctx: &mut UpdateMetrics, add_a: u128, add_b: u128) -> (r: Result<(), ArenaErr>)
    ensures
        r is Err <==> update_metrics_error(*old(ctx), add_a, add_b) is Some,
        r matches Err(e) ==> update_metrics_error(*old(ctx), add_a, add_b) == Some(e) && *final(ctx) == *old(ctx),
        r is Ok ==> *final(ctx) == (UpdateMetrics { battle: battle_with_metrics(old(ctx).battle, add_a, add_b), ..*old(ctx) }),
        r is Ok && old(ctx).battle.wf() ==> final(ctx).battle.wf(),
{
    if ctx.arena.oracle != ctx.oracle {
        return Err(ArenaErr::Unauthorized);
    }
    if ctx.battle.resolved {
        return Err(ArenaErr::AlreadyResolved);
    }
    if !(ctx.now >= ctx.battle.start_ts && ctx.now <= ctx.battle.end_ts) {
        return Err(ArenaErr::NotInRound);
    }
    let ma = match ctx.battle.metrics_a.checked_add(add_a) {
        Some(v) => v,
        None => return Err(ArenaErr::Overflow),
    };
    let mb = match ctx.battle.metrics_b.checked_add(add_b) {
        Some(v) => v,
        None => return Err(ArenaErr::Overflow),
    };
    ctx.battle.metrics_a = ma;
    ctx.battle.metrics_b = mb;
    Ok(())
}

/// What `place_bet` reads: the bettor and its lamports, the battle (its
/// address and data), the bettor's bet account for it, and the clock.
#[derive(Clone, Copy, Debug)]
pub struct PlaceBet {
    pub bettor: Address,
    pub bettor_lamports: u64,
    pub battle_key: Address,
    pub battle: Battle,
    pub bet: Bet,
    pub bet_bump: u8,
    pub now: i64,
}

/// The error `place_bet` answers, if any, checked in the program's order.
pub open spec fn place_bet_error(ctx: PlaceBet, side: u8, amount: u64) -> Option<ArenaErr> {
    if !(side == 0 || side == 1) {
        Some(ArenaErr::BadSide)
    } else if amount == 0 {
        Some(ArenaErr::ZeroAmount)
    } else if ctx.now >= ctx.battle.end_ts {
        Some(ArenaErr::RoundEnded)
    } else if ctx.bettor_lamports < amount {
        Some(ArenaErr::Insufficient)
    } else if side == 0 && ctx.battle.pot_a + amount > u64::MAX {
        Some(ArenaErr::Overflow)
    } else if side == 1 && ctx.battle.pot_b + amount > u64::MAX {
        Some(ArenaErr::Overflow)
    } else if ctx.bet.amount + amount > u64::MAX {
        Some(ArenaErr::Overflow)
    } else {
        None
    }
}

/// The battle after `amount` is added to the pot of `side`.
pub open spec fn battle_with_stake(b: Battle, side: u8, amount: u64) -> Battle {
    if side == 0 {
        Battle { pot_a: (b.pot_a + amount) as u64, ..b }
    } else {
        Battle { pot_b: (b.pot_b + amount) as u64, ..b }
    }
}

/// The bet after `amount` more is staked: an empty bet is first (re)filled
/// with the battle, the bettor, the side and the bump; a bet that already
/// holds a stake keeps its recorded side.
pub open spec fn bet_with_stake(bet: Bet, battle_key: Address, bettor: Address, side: u8, amount: u64, bump: u8) -> Bet {
    if bet.amount == 0 {
        Bet { battle: battle_key, bettor, side, amount: (bet.amount + amount) as u64, claimed: false, bump }
    } else {
        Bet { amount: (bet.amount + amount) as u64, ..bet }
    }
}

/// Stakes `amount_lamports` on side 0 (A) or 1 (B) before the round ends;
/// the lamports are escrowed in the battle account.
pub fn place_bet(ctx: &mut PlaceBet, side: u8, amount_lamports: u64) -> (r: Result<Vec<LamportTransfer>, ArenaErr>)
    ensures
        r is Err <==> place_bet_error(*old(ctx), side, amount_lamports) is Some,
        r matches Err(e) ==> place_bet_error(*old(ctx), side, amount_lamports) == Some(e) && *final(ctx) == *old(ctx),
        r matches Ok(ts) ==> {
            &&& ts@.len() == 1
            &&& ts@[0].moves(old(ctx).bettor, old(ctx).battle_key, amount_lamports, seq![])
            &&& *final(ctx) == (PlaceBet {
                battle: battle_with_stake(old(ctx).battle, side, amount_lamports),
                bet: bet_with_stake(old(ctx).bet, old(ctx).battle_key, old(ctx).bettor, side, amount_lamports, old(ctx).bet_bump),
                ..*old(ctx)
            })
        },
        r is Ok && old(ctx).battle.wf() ==> final(ctx).battle.wf(),
        r is Ok && (old(ctx).bet.wf() || old(ctx).bet.amount == 0) ==> final(ctx).bet.wf(),
{
    if !(side == 0 || side == 1) {
        return Err(ArenaErr::BadSide);
    }
    if !(amount_lamports > 0) {
        return Err(ArenaErr::ZeroAmount);
    }
    if !(ctx.now < ctx.battle.end_ts) {
        return Err(ArenaErr::RoundEnded);
    }
    let t = match transfer_lamports(&ctx.bettor, ctx.bettor_lamports, &ctx.battle_key, amount_lamports) {
        Ok(t) => t,
        Err(e) => return Err(e),
    };
    let mut battle = ctx.battle;
    if side == 0 {
        battle.pot_a = match battle.pot_a.checked_add(amount_lamports) {
            Some(v) => v,
            None => return Err(ArenaErr::Overflow),
        };
    } else {
        battle.pot_b = match battle.pot_b.checked_add(amount_lamports) {
            Some(v) => v,
            None => return Err(ArenaErr::Overflow),
        };
    }
    let mut bet = ctx.bet;
    if bet.amount == 0 {
        bet.battle = ctx.battle_key;
        bet.bettor = ctx.bettor;
        bet.side = side;
        bet.claimed = false;
        bet.bump = ctx.bet_bump;
    }
    bet.amount = match bet.amount.checked_add(amount_lamports) {
        Some(v) => v,
        None => return Err(ArenaErr::Overflow),
    };
    ctx.battle = battle;
    ctx.bet = bet;
    let mut ts: Vec<LamportTransfer> = Vec::new();
    ts.push(t);
    Ok(ts)
}

/// What `resolve_battle` reads: the arena and its battle, the reserve vault
/// and its lamports, the reward recipient and the clock.
#[derive(Clone, Copy, Debug)]
pub struct ResolveBattle {
    pub global: Global,
    pub reserve_vault: Address,
    pub reserve_lamports: u64,
    pub arena: Arena,
    pub battle: Battle,
    pub winner_recipient: Address,
    pub now: i64,
}

/// The error `resolve_battle` answers, if any, checked in the program's order.
pub open spec fn resolve_battle_error(ctx: ResolveBattle) -> Option<ArenaErr> {
    if ctx.now < ctx.battle.end_ts {
        Some(ArenaErr::NotEnded)
    } else if ctx.battle.resolved {
        Some(ArenaErr::AlreadyResolved)
    } else if ctx.reserve_lamports * ctx.arena.reward_bps_from_reserve > u64::MAX {
        Some(ArenaErr::Overflow)
    } else {
        None
    }
}

/// The reserve reward: the arena's basis points of the reserve's lamports.
pub open spec fn resolve_reward(ctx: ResolveBattle) -> int {
    bps_of(ctx.reserve_lamports as int, ctx.arena.reward_bps_from_reserve as int)
}

/// The battle once resolved: the winner decided by the metrics (a tie goes
/// to the larger pot, then to side A).
pub open spec fn resolved_battle(b: Battle) -> Battle {
    Battle { winner: decided_winner(b), resolved: true, ..b }
}

/// After the round ends, decides the winner once and for all and pays the
/// arena's share of the reserve vault to the winner's recipient.
pub fn resolve_battle(ctx: &mut ResolveBattle) -> (r: Result<Vec<LamportTransfer>, ArenaErr>)
    ensures
        r is Err <==> resolve_battle_error(*old(ctx)) is Some,
        r matches Err(e) ==> resolve_battle_error(*old(ctx)) == Some(e) && *final(ctx) == *old(ctx),
        r matches Ok(ts) ==> {
            &&& *final(ctx) == (ResolveBattle { battle: resolved_battle(old(ctx).battle), ..*old(ctx) })
            &&& old(ctx).battle.wf() ==> final(ctx).battle.wf()
            &&& resolve_reward(*old(ctx)) == 0 ==> ts@.len() == 0
            &&& resolve_reward(*old(ctx)) > 0 ==> ts@.len() == 1 && ts@[0].moves(
                old(ctx).reserve_vault,
                old(ctx).winner_recipient,
                resolve_reward(*old(ctx)) as u64,
                reserve_signer_seeds_spec(old(ctx).global.reserve_bump),
            )
        },
{
    if !(ctx.now >= ctx.battle.end_ts) {
        return Err(ArenaErr::NotEnded);
    }
    if ctx.battle.resolved {
        return Err(ArenaErr::AlreadyResolved);
    }
    let winner: u8 = if ctx.battle.metrics_a > ctx.battle.metrics_b {
        0
    } else if ctx.battle.metrics_b > ctx.battle.metrics_a {
        1
    } else if ctx.battle.pot_a >= ctx.battle.pot_b {
        0
    } else {
        1
    };
    let reward = match bps_share(ctx.reserve_lamports, ctx.arena.reward_bps_from_reserve) {
        Some(v) => v,
        None => return Err(ArenaErr::Overflow),
    };
    ctx.battle.winner = winner;
    ctx.battle.resolved = true;
    let mut ts: Vec<LamportTransfer> = Vec::new();
    if reward > 0 {
        let seeds = reserve_signer_seeds(ctx.global.reserve_bump);
        let ix = system_transfer(&ctx.reserve_vault, &ctx.winner_recipient, reward);
        ts.push(LamportTransfer {
            from: ctx.reserve_vault,
            to: ctx.winner_recipient,
            lamports: reward,
            signer_seeds: seeds,
            instruction: ix,
        });
    }
    Ok(ts)
}

// ------------------------------ Claims --------------------------------------

/// What `claim_bet` reads: the claiming bettor, the battle (its address, data
/// and lamports), the bet and the config.
#[derive(Clone, Copy, Debug)]
pub struct ClaimBet {
    pub bettor: Address,
    pub battle_key: Address,
    pub battle: Battle,
    pub battle_lamports: u64,
    pub bet: Bet,
    pub global: Global,
}

/// The bet is on the side that lost.
pub open spec fn bet_lost(battle: Battle, bet: Bet) -> bool {
    (battle.winner == 0 && bet.side == 1) || (battle.winner == 1 && bet.side == 0)
}

/// A winning bet's payout: its pro-rata share of the pool after the rake,
/// cut to 64 bits as the program's cast does.
pub open spec fn claim_payout(ctx: ClaimBet) -> u64 {
    (pro_rata(
        ctx.bet.amount as int,
        distributable(ctx.battle, ctx.global.bet_rake_bps),
        winner_pot(ctx.battle) as int,
    ) % two_pow_64()) as u64
}

/// The error `claim_bet` answers, if any, checked in the program's order.
pub open spec fn claim_bet_error(ctx: ClaimBet) -> Option<ArenaErr> {
    if !ctx.battle.resolved {
        Some(ArenaErr::NotResolved)
    } else if ctx.bet.claimed {
        Some(ArenaErr::AlreadyClaimed)
    } else if ctx.bet.battle != ctx.battle_key {
        Some(ArenaErr::BadBet)
    } else if ctx.bet.bettor != ctx.bettor {
        Some(ArenaErr::Unauthorized)
    } else if bet_lost(ctx.battle, ctx.bet) {
        None
    } else if total_pool(ctx.battle) > u64::MAX {
        Some(ArenaErr::Overflow)
    } else if total_pool(ctx.battle) * ctx.global.bet_rake_bps > u64::MAX {
        Some(ArenaErr::Overflow)
    } else if pool_rake(ctx.battle, ctx.global.bet_rake_bps) > total_pool(ctx.battle) {
        Some(ArenaErr::Overflow)
    } else if winner_pot(ctx.battle) == 0 {
        Some(ArenaErr::EmptyWinnerPot)
    } else if ctx.battle_lamports < claim_payout(ctx) {
        Some(ArenaErr::Insufficient)
    } else {
        None
    }
}

/// After resolution, a winning bettor claims a pro-rata share of both pots
/// minus the rake, debited from the battle account (which this program
/// owns) and credited to the bettor; the bet is then marked
/// claimed. A bet on the losing side is answered `Ok` with no payout and
/// is left as it was.
pub fn claim_bet(ctx: &mut ClaimBet) -> (r: Result<Vec<LamportDebit>, ArenaErr>)
    ensures
        r is Err <==> claim_bet_error(*old(ctx)) is Some,
        r matches Err(e) ==> claim_bet_error(*old(ctx)) == Some(e) && *final(ctx) == *old(ctx),
        r matches Ok(ts) ==> (bet_lost(old(ctx).battle, old(ctx).bet) ==> ts@.len() == 0 && *final(ctx) == *old(ctx)),
        r matches Ok(ts) ==> !bet_lost(old(ctx).battle, old(ctx).bet) ==> {
            &&& ts@.len() == 1
            &&& ts@[0] == (LamportDebit { from: old(ctx).battle_key, to: old(ctx).bettor, lamports: claim_payout(*old(ctx)) })
            &&& *final(ctx) == (ClaimBet { bet: Bet { claimed: true, ..old(ctx).bet }, ..*old(ctx) })
        },
{
    if !ctx.battle.resolved {
        return Err(ArenaErr::NotResolved);
    }
    if ctx.bet.claimed {
        return Err(ArenaErr::AlreadyClaimed);
    }
    if ctx.bet.battle != ctx.battle_key {
        return Err(ArenaErr::BadBet);
    }
    if ctx.bet.bettor != ctx.bettor {
        return Err(ArenaErr::Unauthorized);
    }
    let (wpot, lpot) = if ctx.battle.winner == 0 {
        (ctx.battle.pot_a, ctx.battle.pot_b)
    } else {
        (ctx.battle.pot_b, ctx.battle.pot_a)
    };
    if (ctx.battle.winner == 0 && ctx.bet.side == 1) || (ctx.battle.winner == 1 && ctx.bet.side == 0) {
        return Ok(Vec::new());
    }
    let total = match wpot.checked_add(lpot) {
        Some(t) => t,
        None => return Err(ArenaErr::Overflow),
    };
    let rake = match bps_share(total, ctx.global.bet_rake_bps) {
        Some(v) => v,
        None => return Err(ArenaErr::Overflow),
    };
    let dist = match total.checked_sub(rake) {
        Some(d) => d,
        None => return Err(ArenaErr::Overflow),
    };
    if wpot == 0 {
        return Err(ArenaErr::EmptyWinnerPot);
    }
    let amount = ctx.bet.amount;
    proof {
        assert(amount as int * dist as int <= u64::MAX as int * u64::MAX as int) by (nonlinear_arith)
            requires
                amount <= u64::MAX,
                dist <= u64::MAX,
        ;
    }
    let prod: u128 = (amount as u128) * (dist as u128);
    let q: u128 = prod / (wpot as u128);
    let payout: u64 = #[verifier::truncate] (q as u64);
    proof {
        assert(#[verifier::truncate] (q as u64) == (q % 0x1_0000_0000_0000_0000u128) as u64) by (bit_vector);
    }
    let t = match debit_lamports(&ctx.battle_key, ctx.battle_lamports, &ctx.bettor, payout) {
        Ok(t) => t,
        Err(e) => return Err(e),
    };
    ctx.bet.claimed = true;
    let mut ts: Vec<LamportDebit> = Vec::new();
    ts.push(t);
    Ok(ts)
}

/// What `sweep_rake` reads: the config, the reserve vault, and the battle
/// (its address, data and lamports).
#[derive(Clone, Copy, Debug)]
pub struct SweepRake {
    pub global: Global,
    pub reserve_vault: Address,
    pub battle_key: Address,
    pub battle: Battle,
    pub battle_lamports: u64,
}

/// The error `sweep_rake` answers, if any, checked in the program's order.
pub open spec fn sweep_rake_error(ctx: SweepRake) -> Option<ArenaErr> {
    if !ctx.battle.resolved {
        Some(ArenaErr::NotResolved)
    } else if total_pool(ctx.battle) > u64::MAX {
        Some(ArenaErr::Overflow)
    } else if total_pool(ctx.battle) * ctx.global.bet_rake_bps > u64::MAX {
        Some(ArenaErr::Overflow)
    } else {
        None
    }
}

/// What a sweep moves: the battle's rake, or all the battle holds if less.
pub open spec fn sweep_amount(ctx: SweepRake) -> int {
    let rake = pool_rake(ctx.battle, ctx.global.bet_rake_bps);
    if ctx.battle_lamports < rake { ctx.battle_lamports as int } else { rake }
}

/// Moves a resolved battle's rake (at most what the battle account holds)
/// into the reserve vault. No account data changes, and nothing records
/// the sweep: a later sweep of the same battle moves its rake again.
pub fn sweep_rake(ctx: &SweepRake) -> (r: Result<Vec<LamportDebit>, ArenaErr>)
    ensures
        r is Err <==> sweep_rake_error(*ctx) is Some,
        r matches Err(e) ==> sweep_rake_error(*ctx) == Some(e),
        r matches Ok(ts) ==> {
            &&& sweep_amount(*ctx) == 0 ==> ts@.len() == 0
            &&& sweep_amount(*ctx) > 0 ==> ts@.len() == 1 && ts@[0] == (LamportDebit {
                from: ctx.battle_key,
                to: ctx.reserve_vault,
                lamports: sweep_amount(*ctx) as u64,
            })
        },
{
    if !ctx.battle.resolved {
        return Err(ArenaErr::NotResolved);
    }
    let (wpot, lpot) = if ctx.battle.winner == 0 {
        (ctx.battle.pot_a, ctx.battle.pot_b)
    } else {
        (ctx.battle.pot_b, ctx.battle.pot_a)
    };
    let total = match wpot.checked_add(lpot) {
        Some(t) => t,
        None => return Err(ArenaErr::Overflow),
    };
    let rake = match bps_share(total, ctx.global.bet_rake_bps) {
        Some(v) => v,
        None => return Err(ArenaErr::Overflow),
    };
    let available = ctx.battle_lamports;
    let to_transfer = if available < rake { available } else { rake };
    let mut ts: Vec<LamportDebit> = Vec::new();
    if to_transfer > 0 {
        let t = match debit_lamports(&ctx.battle_key, available, &ctx.reserve_vault, to_transfer) {
            Ok(t) => t,
            Err(e) => return Err(e),
        };
        ts.push(t);
    }
    Ok(ts)
}

} // verus!
