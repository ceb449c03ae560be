use vstd::prelude::*;
use vstd::arithmetic::div_mod::{lemma_div_is_ordered, lemma_div_multiples_vanish, lemma_div_pos_is_pos, lemma_fundamental_div_mod};
use crate::state::{ArenaErr, Battle, Bet, MAX_BPS, WINNER_UNKNOWN};
use crate::admin::{withdraw_error, WithdrawFromReserve};
use crate::registry::{
    create_arena_error, forge_token_steps, ForgeNewToken, TokenStep,
};
use crate::system::is_system_create_account;
use crate::transfer::{mint_authority_signer_seeds_spec, mint_signer_seeds_spec, seeds_view};
use crate::payout::{bps_of, decided_winner, distributable, pool_rake, pro_rata, total_pool, two_pow_64, winner_pot};
use crate::battle::{
    bet_lost, bet_with_stake, battle_with_metrics, battle_with_stake, claim_bet_error, claim_payout, new_battle, place_bet_error,
    resolve_battle_error, resolve_reward, resolved_battle, sweep_amount, sweep_rake_error, update_metrics_error, ClaimBet,
    InitBattle, init_battle_error, PlaceBet, ResolveBattle, SweepRake, UpdateMetrics,
};

verus! {

// ------------------------------ Shares --------------------------------------

/// A basis-point share of at most 100% lies between nothing and the whole.
pub proof fn law_bps_share_within_whole(amount: int, bps: int)
    requires
        0 <= amount,
        0 <= bps <= MAX_BPS,
    ensures
        0 <= bps_of(amount, bps) <= amount,
{
    assert(0 <= amount * bps <= amount * 10000) by (nonlinear_arith)
        requires
            0 <= amount,
            0 <= bps <= 10000,
    ;
    lemma_div_pos_is_pos(amount * bps, 10000);
    lemma_div_is_ordered(amount * bps, amount * 10000, 10000);
    assert(amount * 10000 == 10000 * amount) by (nonlinear_arith);
    lemma_div_multiples_vanish(amount, 10000);
}

/// The rake and what is left for the winners split the whole pool, and
/// neither is negative, when the rake rate is at most 100%.
pub proof fn law_rake_splits_pool(b: Battle, rake_bps: u16)
    requires
        rake_bps <= MAX_BPS,
    ensures
        pool_rake(b, rake_bps) + distributable(b, rake_bps) == total_pool(b),
        0 <= pool_rake(b, rake_bps) <= total_pool(b),
        0 <= distributable(b, rake_bps) <= total_pool(b),
{
    law_bps_share_within_whole(total_pool(b), rake_bps as int);
}

/// The reserve reward of a battle in a well-formed arena is never more than
/// the reserve holds.
pub proof fn law_reward_within_reserve(ctx: ResolveBattle)
    requires
        ctx.arena.wf(),
    ensures
        0 <= resolve_reward(ctx) <= ctx.reserve_lamports,
{
    law_bps_share_within_whole(ctx.reserve_lamports as int, ctx.arena.reward_bps_from_reserve as int);
}

/// A sweep moves at most the battle's rake and at most what the battle holds.
pub proof fn law_sweep_within_rake_and_balance(ctx: SweepRake)
    requires
        ctx.global.wf(),
    ensures
        0 <= sweep_amount(ctx) <= pool_rake(ctx.battle, ctx.global.bet_rake_bps),
        sweep_amount(ctx) <= ctx.battle_lamports,
{
    law_rake_splits_pool(ctx.battle, ctx.global.bet_rake_bps);
}

// ------------------------------ Payouts -------------------------------------

/// A stake of at most the winner pot gets at most the distributable pool.
pub proof fn law_share_within_pool(amount: int, dist: int, wpot: int)
    requires
        0 <= amount <= wpot,
        0 < wpot,
        0 <= dist,
    ensures
        0 <= pro_rata(amount, dist, wpot) <= dist,
{
    assert(0 <= amount * dist <= wpot * dist) by (nonlinear_arith)
        requires
            0 <= amount <= wpot,
            0 <= dist,
    ;
    lemma_div_pos_is_pos(amount * dist, wpot);
    lemma_div_is_ordered(amount * dist, wpot * dist, wpot);
    assert(wpot * dist == dist * wpot) by (nonlinear_arith);
    assert((wpot * dist) / wpot == dist) by {
        lemma_div_multiples_vanish(dist, wpot);
    }
}

/// A winning bet whose stake is at most its side's pot is paid exactly its
/// pro-rata share of the pool after the rake (nothing is cut off by the
/// 64-bit cast), and that share is at most the distributable pool.
pub proof fn law_claim_payout_is_share(ctx: ClaimBet)
    requires
        ctx.global.wf(),
        claim_bet_error(ctx) is None,
        !bet_lost(ctx.battle, ctx.bet),
        ctx.bet.amount <= winner_pot(ctx.battle),
    ensures
        claim_payout(ctx) as int == pro_rata(
            ctx.bet.amount as int,
            distributable(ctx.battle, ctx.global.bet_rake_bps),
            winner_pot(ctx.battle) as int,
        ),
        claim_payout(ctx) as int <= distributable(ctx.battle, ctx.global.bet_rake_bps),
{
    let dist = distributable(ctx.battle, ctx.global.bet_rake_bps);
    law_rake_splits_pool(ctx.battle, ctx.global.bet_rake_bps);
    law_share_within_pool(ctx.bet.amount as int, dist, winner_pot(ctx.battle) as int);
    let p = pro_rata(ctx.bet.amount as int, dist, winner_pot(ctx.battle) as int);
    assert(0 <= p < two_pow_64());
    assert(p % two_pow_64() == p) by {
        lemma_fundamental_div_mod(p, two_pow_64());
        vstd::arithmetic::div_mod::lemma_small_mod(p as nat, two_pow_64() as nat);
    }
}

/// The sum of a list of stakes.
pub open spec fn sum_stakes(stakes: Seq<u64>) -> int
    decreases stakes.len(),
{
    if stakes.len() == 0 {
        0
    } else {
        sum_stakes(stakes.drop_last()) + stakes.last()
    }
}

/// The sum of the pro-rata shares of a list of stakes.
pub open spec fn sum_shares(stakes: Seq<u64>, dist: int, wpot: int) -> int
    decreases stakes.len(),
{
    if stakes.len() == 0 {
        0
    } else {
        sum_shares(stakes.drop_last(), dist, wpot) + pro_rata(stakes.last() as int, dist, wpot)
    }
}

proof fn lemma_shares_scaled(stakes: Seq<u64>, dist: int, wpot: int)
    requires
        0 < wpot,
        0 <= dist,
    ensures
        sum_shares(stakes, dist, wpot) * wpot <= sum_stakes(stakes) * dist,
        0 <= sum_shares(stakes, dist, wpot),
    decreases stakes.len(),
{
    if stakes.len() > 0 {
        let rest = stakes.drop_last();
        let a = stakes.last() as int;
        lemma_shares_scaled(rest, dist, wpot);
        let s = sum_shares(rest, dist, wpot);
        let t = sum_stakes(rest);
        let p = pro_rata(a, dist, wpot);
        assert(0 <= a * dist) by (nonlinear_arith)
            requires
                0 <= a,
                0 <= dist,
        ;
        lemma_fundamental_div_mod(a * dist, wpot);
        lemma_div_pos_is_pos(a * dist, wpot);
        assert(0 <= (a * dist) % wpot) by {
            vstd::arithmetic::div_mod::lemma_mod_pos_bound(a * dist, wpot);
        }
        assert(p * wpot <= a * dist) by (nonlinear_arith)
            requires
                a * dist == wpot * p + (a * dist) % wpot,
                0 <= (a * dist) % wpot,
        ;
        assert((s + p) * wpot <= (t + a) * dist) by (nonlinear_arith)
            requires
                s * wpot <= t * dist,
                p * wpot <= a * dist,
        ;
    }
}

/// Solvency of claims: when the winning stakes add up to at most the
/// winner pot, their pro-rata shares add up to at most the distributable
/// pool, so paying every winner never takes more than the pool minus the
/// rake.
pub proof fn law_winner_claims_within_pool(stakes: Seq<u64>, dist: int, wpot: int)
    requires
        0 < wpot,
        0 <= dist,
        sum_stakes(stakes) <= wpot,
    ensures
        0 <= sum_shares(stakes, dist, wpot) <= dist,
{
    lemma_shares_scaled(stakes, dist, wpot);
    let s = sum_shares(stakes, dist, wpot);
    assert(s <= dist) by (nonlinear_arith)
        requires
            s * wpot <= sum_stakes(stakes) * dist,
            sum_stakes(stakes) <= wpot,
            0 < wpot,
            0 <= dist,
    ;
}

/// A winning bet can be claimed once: once marked claimed, claiming it
/// again is refused with `AlreadyClaimed`.
pub proof fn law_claim_once(ctx: ClaimBet)
    requires
        claim_bet_error(ctx) is None,
        !bet_lost(ctx.battle, ctx.bet),
    ensures
        claim_bet_error(ClaimBet { bet: Bet { claimed: true, ..ctx.bet }, ..ctx }) == Some(ArenaErr::AlreadyClaimed),
{
}

// ------------------------------ Battles -------------------------------------

/// A battle opened by `init_battle` is well formed, with empty pots and
/// scores, and lasts at least the arena's minimum duration.
pub proof fn law_new_battle_wf(ctx: InitBattle, nonce: u64, start_ts: i64, end_ts: i64)
    requires
        init_battle_error(ctx, start_ts, end_ts) is None,
    ensures
        new_battle(ctx, nonce, start_ts, end_ts).wf(),
        end_ts - start_ts >= ctx.arena.min_duration_secs,
        total_pool(new_battle(ctx, nonce, start_ts, end_ts)) == 0,
{
}

/// Score updates keep a battle well formed and never lower a score.
pub proof fn law_metrics_only_grow(ctx: UpdateMetrics, add_a: u128, add_b: u128)
    requires
        ctx.battle.wf(),
        update_metrics_error(ctx, add_a, add_b) is None,
    ensures
        ctx.battle.metrics_a <= ctx.battle.metrics_a + add_a,
        ctx.battle.metrics_b <= ctx.battle.metrics_b + add_b,
        battle_with_metrics(ctx.battle, add_a, add_b).wf(),
{
}

/// Escrow: an accepted bet raises the pool by exactly the lamports moved
/// into the battle, on the chosen side only; the battle stays well formed
/// and the bet records a valid side.
pub proof fn law_stake_is_escrowed(ctx: PlaceBet, side: u8, amount: u64)
    requires
        ctx.battle.wf(),
        ctx.bet.wf() || ctx.bet.amount == 0,
        place_bet_error(ctx, side, amount) is None,
    ensures
        total_pool(battle_with_stake(ctx.battle, side, amount)) == total_pool(ctx.battle) + amount,
        side == 0 ==> battle_with_stake(ctx.battle, side, amount).pot_a == ctx.battle.pot_a + amount
            && battle_with_stake(ctx.battle, side, amount).pot_b == ctx.battle.pot_b,
        side == 1 ==> battle_with_stake(ctx.battle, side, amount).pot_b == ctx.battle.pot_b + amount
            && battle_with_stake(ctx.battle, side, amount).pot_a == ctx.battle.pot_a,
        battle_with_stake(ctx.battle, side, amount).wf(),
        bet_with_stake(ctx.bet, ctx.battle_key, ctx.bettor, side, amount, ctx.bet_bump).wf(),
        bet_with_stake(ctx.bet, ctx.battle_key, ctx.bettor, side, amount, ctx.bet_bump).amount == ctx.bet.amount + amount,
{
}

/// A stake added to an empty bet, or to a bet on the same side, is
/// recorded on that side: the bet and that side's pot rise together.
pub proof fn law_stake_tracks_pot(ctx: PlaceBet, side: u8, amount: u64)
    requires
        place_bet_error(ctx, side, amount) is None,
        ctx.bet.amount == 0 || ctx.bet.side == side,
    ensures
        bet_with_stake(ctx.bet, ctx.battle_key, ctx.bettor, side, amount, ctx.bet_bump).side == side,
        side == 0 ==> battle_with_stake(ctx.battle, side, amount).pot_a - ctx.battle.pot_a
            == bet_with_stake(ctx.bet, ctx.battle_key, ctx.bettor, side, amount, ctx.bet_bump).amount - ctx.bet.amount,
        side == 1 ==> battle_with_stake(ctx.battle, side, amount).pot_b - ctx.battle.pot_b
            == bet_with_stake(ctx.bet, ctx.battle_key, ctx.bettor, side, amount, ctx.bet_bump).amount - ctx.bet.amount,
{
}

/// Resolution keeps a battle well formed, leaves the pots and scores as they
/// were, and names a winner whose score is at least the loser's.
pub proof fn law_resolution_keeps_pots(ctx: ResolveBattle)
    requires
        ctx.battle.wf(),
        resolve_battle_error(ctx) is None,
    ensures
        resolved_battle(ctx.battle).wf(),
        resolved_battle(ctx.battle).pot_a == ctx.battle.pot_a,
        resolved_battle(ctx.battle).pot_b == ctx.battle.pot_b,
        resolved_battle(ctx.battle).winner == 0 ==> ctx.battle.metrics_a >= ctx.battle.metrics_b,
        resolved_battle(ctx.battle).winner == 1 ==> ctx.battle.metrics_b >= ctx.battle.metrics_a,
{
}

/// A battle resolves once: resolving it again at the same or a later time
/// is refused with `AlreadyResolved`.
pub proof fn law_resolve_once(ctx: ResolveBattle, later: ResolveBattle)
    requires
        resolve_battle_error(ctx) is None,
        later.battle == resolved_battle(ctx.battle),
        later.now >= ctx.now,
    ensures
        resolve_battle_error(later) == Some(ArenaErr::AlreadyResolved),
{
}

/// Resolution locks the pots and scores: at the same or a later time no bet
/// on the resolved battle is accepted and no score update is accepted.
pub proof fn law_resolved_battle_is_final(
    ctx: ResolveBattle,
    bet: PlaceBet,
    side: u8,
    amount: u64,
    update: UpdateMetrics,
    add_a: u128,
    add_b: u128,
)
    requires
        resolve_battle_error(ctx) is None,
        bet.battle == resolved_battle(ctx.battle),
        bet.now >= ctx.now,
        update.battle == resolved_battle(ctx.battle),
    ensures
        place_bet_error(bet, side, amount) is Some,
        update_metrics_error(update, add_a, add_b) is Some,
{
}


// ------------------------------ A battle's life -----------------------------

/// A call that may touch a battle once it is open, with everything the
/// handler reads besides the battle itself (whose `battle` field is ignored:
/// the call sees the battle as it stands).
pub enum BattleCall {
    UpdateMetrics(UpdateMetrics, u128, u128),
    PlaceBet(PlaceBet, u8, u64),
    ResolveBattle(ResolveBattle),
    ClaimBet(ClaimBet),
    SweepRake(SweepRake),
}

/// The battle after one call: what the handler's contract leaves in the
/// battle account when the call succeeds, and the battle unchanged when it
/// is refused. Claims and sweeps never change the battle's data.
pub open spec fn after_call(b: Battle, call: BattleCall) -> Battle {
    match call {
        BattleCall::UpdateMetrics(ctx, add_a, add_b) => {
            if update_metrics_error(UpdateMetrics { battle: b, ..ctx }, add_a, add_b) is None {
                battle_with_metrics(b, add_a, add_b)
            } else {
                b
            }
        },
        BattleCall::PlaceBet(ctx, side, amount) => {
            if place_bet_error(PlaceBet { battle: b, ..ctx }, side, amount) is None {
                battle_with_stake(b, side, amount)
            } else {
                b
            }
        },
        BattleCall::ResolveBattle(ctx) => {
            if resolve_battle_error(ResolveBattle { battle: b, ..ctx }) is None {
                resolved_battle(b)
            } else {
                b
            }
        },
        BattleCall::ClaimBet(_) => b,
        BattleCall::SweepRake(_) => b,
    }
}

/// The battle after a sequence of calls, in order.
pub open spec fn after_calls(b: Battle, calls: Seq<BattleCall>) -> Battle
    decreases calls.len(),
{
    if calls.len() == 0 {
        b
    } else {
        after_call(after_calls(b, calls.drop_last()), calls.last())
    }
}

/// What holds of a battle throughout its life, with `first` the battle as
/// opened and `min_duration` the arena's minimum round length.
pub open spec fn battle_invariant(b: Battle, first: Battle, min_duration: i64) -> bool {
    &&& b.wf()
    &&& b.end_ts - b.start_ts >= min_duration >= 60
    &&& (b.resolved <==> b.winner != WINNER_UNKNOWN)
    &&& b.arena == first.arena
    &&& b.forge_a == first.forge_a
    &&& b.forge_b == first.forge_b
    &&& b.start_ts == first.start_ts
    &&& b.end_ts == first.end_ts
    &&& b.nonce == first.nonce
    &&& b.bump == first.bump
}

proof fn lemma_after_call_keeps_invariant(b: Battle, first: Battle, min_duration: i64, call: BattleCall)
    requires
        battle_invariant(b, first, min_duration),
    ensures
        battle_invariant(after_call(b, call), first, min_duration),
{
}

proof fn lemma_after_calls_keeps_invariant(b: Battle, min_duration: i64, calls: Seq<BattleCall>)
    requires
        battle_invariant(b, b, min_duration),
    ensures
        battle_invariant(after_calls(b, calls), b, min_duration),
    decreases calls.len(),
{
    if calls.len() > 0 {
        lemma_after_calls_keeps_invariant(b, min_duration, calls.drop_last());
        lemma_after_call_keeps_invariant(after_calls(b, calls.drop_last()), b, min_duration, calls.last());
    }
}

/// A battle opened by `init_battle` in a well-formed arena, followed by any
/// sequence of score updates, bets, resolutions, claims and sweeps (each
/// accepted or refused), stays well formed; its round lasts at least the
/// arena's minimum, itself at least a minute; it is resolved exactly when
/// its winner is known, and then the winner is side A or B; and its arena,
/// forges, round, nonce and bump never change.
pub proof fn law_battle_invariant(ctx: InitBattle, nonce: u64, start_ts: i64, end_ts: i64, calls: Seq<BattleCall>)
    requires
        ctx.arena.wf(),
        init_battle_error(ctx, start_ts, end_ts) is None,
    ensures
        battle_invariant(
            after_calls(new_battle(ctx, nonce, start_ts, end_ts), calls),
            new_battle(ctx, nonce, start_ts, end_ts),
            ctx.arena.min_duration_secs,
        ),
{
    lemma_after_calls_keeps_invariant(new_battle(ctx, nonce, start_ts, end_ts), ctx.arena.min_duration_secs, calls);
}


proof fn lemma_resolution_survives_calls(b: Battle, calls: Seq<BattleCall>)
    requires
        b.resolved,
    ensures
        after_calls(b, calls).resolved,
        after_calls(b, calls).winner == b.winner,
        after_calls(b, calls).end_ts == b.end_ts,
    decreases calls.len(),
{
    if calls.len() > 0 {
        lemma_resolution_survives_calls(b, calls.drop_last());
    }
}

/// Once a battle is resolved it stays resolved with the same winner, through
/// any later score updates, bets, resolutions, claims and sweeps: no later
/// resolution is ever accepted, so the reserve reward is paid at most once,
/// and one made at or after the round's end is refused with `AlreadyResolved`.
pub proof fn law_resolution_is_final(ctx: ResolveBattle, calls: Seq<BattleCall>, later: ResolveBattle)
    requires
        resolve_battle_error(ctx) is None,
        later.battle == after_calls(resolved_battle(ctx.battle), calls),
    ensures
        later.battle.resolved,
        later.battle.winner == decided_winner(ctx.battle),
        resolve_battle_error(later) is Some,
        later.now >= ctx.battle.end_ts ==> resolve_battle_error(later) == Some(ArenaErr::AlreadyResolved),
{
    lemma_resolution_survives_calls(resolved_battle(ctx.battle), calls);
}


// ------------------------------ Outcomes, in terms of the inputs ------------

/// What a winning claim pays: the bet's stake times the whole pool less the
/// rake, divided by the pot of the side that won (side A when the winner is
/// 0, side B otherwise), cut to 64 bits.
pub proof fn law_claim_pays_from_the_winning_pot(ctx: ClaimBet)
    ensures
        ctx.battle.winner == 0 ==> claim_payout(ctx) as int == (ctx.bet.amount * (
            (ctx.battle.pot_a + ctx.battle.pot_b)
                - (ctx.battle.pot_a + ctx.battle.pot_b) * ctx.global.bet_rake_bps / 10000
        ) / (ctx.battle.pot_a as int)) % 0x1_0000_0000_0000_0000,
        ctx.battle.winner != 0 ==> claim_payout(ctx) as int == (ctx.bet.amount * (
            (ctx.battle.pot_a + ctx.battle.pot_b)
                - (ctx.battle.pot_a + ctx.battle.pot_b) * ctx.global.bet_rake_bps / 10000
        ) / (ctx.battle.pot_b as int)) % 0x1_0000_0000_0000_0000,
        ctx.battle.winner == 0 ==> (claim_bet_error(ctx) == Some(ArenaErr::EmptyWinnerPot)
            ==> ctx.battle.pot_a == 0),
        ctx.battle.winner != 0 ==> (claim_bet_error(ctx) == Some(ArenaErr::EmptyWinnerPot)
            ==> ctx.battle.pot_b == 0),
{
}

/// The winner of a resolution: the side with the higher score; on a score
/// tie side A exactly when its pot is at least side B's.
pub proof fn law_winner_by_score_then_pot(b: Battle)
    ensures
        resolved_battle(b).resolved,
        b.metrics_a > b.metrics_b ==> resolved_battle(b).winner == 0,
        b.metrics_b > b.metrics_a ==> resolved_battle(b).winner == 1,
        b.metrics_a == b.metrics_b ==> (resolved_battle(b).winner == 0 <==> b.pot_a >= b.pot_b),
        b.metrics_a == b.metrics_b ==> (resolved_battle(b).winner == 1 <==> b.pot_a < b.pot_b),
        resolved_battle(b).pot_a == b.pot_a && resolved_battle(b).pot_b == b.pot_b,
        resolved_battle(b).metrics_a == b.metrics_a && resolved_battle(b).metrics_b == b.metrics_b,
{
}

/// The reserve reward: the arena's basis points of what the reserve holds.
pub proof fn law_reward_is_arena_share_of_reserve(ctx: ResolveBattle)
    ensures
        resolve_reward(ctx) == ctx.reserve_lamports * ctx.arena.reward_bps_from_reserve / 10000,
        resolve_battle_error(ctx) is None <==> (ctx.now >= ctx.battle.end_ts && !ctx.battle.resolved
            && ctx.reserve_lamports * ctx.arena.reward_bps_from_reserve <= u64::MAX),
{
}

/// A sweep of a resolved battle moves the rake of the whole pool, whichever
/// side won, or all the battle holds if that is less; and it is refused
/// only when the battle is unresolved or the rake cannot be computed.
pub proof fn law_sweep_takes_rake_of_whole_pool(ctx: SweepRake)
    ensures
        sweep_amount(ctx) == (if ctx.battle_lamports < (ctx.battle.pot_a + ctx.battle.pot_b) * ctx.global.bet_rake_bps / 10000 {
            ctx.battle_lamports as int
        } else {
            (ctx.battle.pot_a + ctx.battle.pot_b) * ctx.global.bet_rake_bps / 10000
        }),
        sweep_rake_error(ctx) is None <==> (ctx.battle.resolved
            && ctx.battle.pot_a + ctx.battle.pot_b <= u64::MAX
            && (ctx.battle.pot_a + ctx.battle.pot_b) * ctx.global.bet_rake_bps <= u64::MAX),
{
}

/// The two sweeps of battles that differ only in their winner move the same amount.
pub proof fn law_sweep_ignores_the_winner(ctx: SweepRake, winner: u8)
    ensures
        sweep_amount(ctx) == sweep_amount(SweepRake { battle: Battle { winner, ..ctx.battle }, ..ctx }),
        sweep_rake_error(ctx) == sweep_rake_error(SweepRake { battle: Battle { winner, ..ctx.battle }, ..ctx }),
{
}

/// A bet is accepted exactly when the side is A or B, the stake is positive,
/// the round has not ended, the bettor holds the stake, and neither the
/// side's pot nor the bet overflows. An accepted stake is added to the pot of
/// its side only, and to the bet: a bet that already holds a stake changes
/// only in its amount (it keeps its battle, bettor, side, claim flag and
/// bump), and an empty bet becomes an unclaimed bet of this stake by this
/// bettor on this side of this battle.
pub proof fn law_stake_goes_to_its_side_and_bet(ctx: PlaceBet, side: u8, amount: u64)
    ensures
        place_bet_error(ctx, side, amount) is None <==> (side <= 1 && amount > 0 && ctx.now < ctx.battle.end_ts
            && ctx.bettor_lamports >= amount
            && (side == 0 ==> ctx.battle.pot_a + amount <= u64::MAX)
            && (side == 1 ==> ctx.battle.pot_b + amount <= u64::MAX)
            && ctx.bet.amount + amount <= u64::MAX),
        place_bet_error(ctx, side, amount) is None ==> {
            let b = battle_with_stake(ctx.battle, side, amount);
            let bet = bet_with_stake(ctx.bet, ctx.battle_key, ctx.bettor, side, amount, ctx.bet_bump);
            &&& side == 0 ==> b == (Battle { pot_a: (ctx.battle.pot_a + amount) as u64, ..ctx.battle })
            &&& side == 1 ==> b == (Battle { pot_b: (ctx.battle.pot_b + amount) as u64, ..ctx.battle })
            &&& bet.amount == ctx.bet.amount + amount
            &&& ctx.bet.amount != 0 ==> {
                &&& bet.battle == ctx.bet.battle
                &&& bet.bettor == ctx.bet.bettor
                &&& bet.side == ctx.bet.side
                &&& bet.claimed == ctx.bet.claimed
                &&& bet.bump == ctx.bet.bump
            }
            &&& ctx.bet.amount == 0 ==> bet == (Bet {
                battle: ctx.battle_key,
                bettor: ctx.bettor,
                side,
                amount,
                claimed: false,
                bump: ctx.bet_bump,
            })
        },
{
}

/// Entry fees: once the round is a proper interval of at least the arena's
/// minimum, opening a battle is refused (with `Insufficient`) exactly when a
/// creator cannot pay the fee; two different creators each need just the
/// fee, and one creator of both forges needs twice the fee.
pub proof fn law_each_creator_pays_one_fee(ctx: InitBattle, start_ts: i64, end_ts: i64)
    requires
        start_ts < end_ts,
        end_ts - start_ts >= ctx.arena.min_duration_secs,
    ensures
        init_battle_error(ctx, start_ts, end_ts) is Some ==> init_battle_error(ctx, start_ts, end_ts) == Some(ArenaErr::Insufficient),
        ctx.forge_a_creator != ctx.forge_b_creator ==> (init_battle_error(ctx, start_ts, end_ts) is None <==> (
            ctx.forge_a_creator_lamports >= ctx.global.entry_fee_lamports
                && ctx.forge_b_creator_lamports >= ctx.global.entry_fee_lamports)),
        ctx.forge_a_creator == ctx.forge_b_creator ==> (init_battle_error(ctx, start_ts, end_ts) is None <==> (
            ctx.forge_a_creator_lamports >= 2 * ctx.global.entry_fee_lamports)),
{
}

/// The battle `init_battle` opens records the arena, both forges, the round,
/// the nonce and the bump it was given, with no scores, empty pots, and no
/// winner yet.
pub proof fn law_new_battle_records_its_inputs(ctx: InitBattle, nonce: u64, start_ts: i64, end_ts: i64)
    ensures
        ({
            let b = new_battle(ctx, nonce, start_ts, end_ts);
            &&& b.arena == ctx.arena_key && b.forge_a == ctx.forge_a_key && b.forge_b == ctx.forge_b_key
            &&& b.start_ts == start_ts && b.end_ts == end_ts && b.nonce == nonce && b.bump == ctx.battle_bump
            &&& b.metrics_a == 0 && b.metrics_b == 0 && b.pot_a == 0 && b.pot_b == 0
            &&& !b.resolved && b.winner == 255
        }),
{
}

/// A score update adds exactly the given amounts to the two scores and
/// changes nothing else; it is accepted exactly when the signer is the
/// arena's oracle, the battle is unresolved, the round is running and
/// neither score overflows.
pub proof fn law_scores_add_up(ctx: UpdateMetrics, add_a: u128, add_b: u128)
    ensures
        battle_with_metrics(ctx.battle, add_a, add_b) == (Battle {
            metrics_a: (ctx.battle.metrics_a + add_a) as u128,
            metrics_b: (ctx.battle.metrics_b + add_b) as u128,
            ..ctx.battle
        }),
        update_metrics_error(ctx, add_a, add_b) is None <==> (ctx.arena.oracle == ctx.oracle && !ctx.battle.resolved
            && ctx.battle.start_ts <= ctx.now <= ctx.battle.end_ts
            && ctx.battle.metrics_a + add_a <= u128::MAX
            && ctx.battle.metrics_b + add_b <= u128::MAX),
{
}


// ------------------------------ Refusals, in terms of the inputs ------------

/// Which bets lose: a bet on side B when A won, or on side A when B won.
pub proof fn law_losing_bets(battle: Battle, bet: Bet)
    ensures
        bet_lost(battle, bet) <==> ((battle.winner == 0 && bet.side == 1) || (battle.winner == 1 && bet.side == 0)),
        battle.winner <= 1 && bet.side == battle.winner ==> !bet_lost(battle, bet),
{
}

/// The refusals of a claim, in the order they are checked: unresolved,
/// already claimed, a bet of another battle, a bet of another bettor; a
/// losing bet is then accepted; a winning one is refused on an overflowing
/// pool or rake, a rake above the pool, an empty winning pot, or a battle
/// holding less than the payout.
pub proof fn law_claim_refusals(ctx: ClaimBet)
    ensures
        !ctx.battle.resolved ==> claim_bet_error(ctx) == Some(ArenaErr::NotResolved),
        ctx.battle.resolved && ctx.bet.claimed ==> claim_bet_error(ctx) == Some(ArenaErr::AlreadyClaimed),
        ctx.battle.resolved && !ctx.bet.claimed && ctx.bet.battle != ctx.battle_key
            ==> claim_bet_error(ctx) == Some(ArenaErr::BadBet),
        ctx.battle.resolved && !ctx.bet.claimed && ctx.bet.battle == ctx.battle_key && ctx.bet.bettor != ctx.bettor
            ==> claim_bet_error(ctx) == Some(ArenaErr::Unauthorized),
        ({
            let linked = ctx.battle.resolved && !ctx.bet.claimed && ctx.bet.battle == ctx.battle_key
                && ctx.bet.bettor == ctx.bettor;
            let lost = (ctx.battle.winner == 0 && ctx.bet.side == 1) || (ctx.battle.winner == 1 && ctx.bet.side == 0);
            let total = ctx.battle.pot_a + ctx.battle.pot_b;
            let rake = total * ctx.global.bet_rake_bps / 10000;
            let wpot = if ctx.battle.winner == 0 { ctx.battle.pot_a } else { ctx.battle.pot_b };
            &&& linked && lost ==> claim_bet_error(ctx) is None
            &&& linked && !lost && total > u64::MAX ==> claim_bet_error(ctx) == Some(ArenaErr::Overflow)
            &&& linked && !lost && total <= u64::MAX && total * ctx.global.bet_rake_bps > u64::MAX
                ==> claim_bet_error(ctx) == Some(ArenaErr::Overflow)
            &&& linked && !lost && total * ctx.global.bet_rake_bps <= u64::MAX && total <= u64::MAX && rake > total
                ==> claim_bet_error(ctx) == Some(ArenaErr::Overflow)
            &&& linked && !lost && total * ctx.global.bet_rake_bps <= u64::MAX && total <= u64::MAX && rake <= total
                && wpot == 0 ==> claim_bet_error(ctx) == Some(ArenaErr::EmptyWinnerPot)
            &&& linked && !lost && total * ctx.global.bet_rake_bps <= u64::MAX && total <= u64::MAX && rake <= total
                && wpot > 0 ==> (claim_bet_error(ctx) is None <==> ctx.battle_lamports >= claim_payout(ctx))
            &&& claim_bet_error(ctx) == Some(ArenaErr::Insufficient) ==> ctx.battle_lamports < claim_payout(ctx)
        }),
{
}

/// The refusals of a resolution, in order: before the round's end, already
/// resolved, a reward that cannot be computed.
pub proof fn law_resolve_refusals(ctx: ResolveBattle)
    ensures
        ctx.now < ctx.battle.end_ts ==> resolve_battle_error(ctx) == Some(ArenaErr::NotEnded),
        ctx.now >= ctx.battle.end_ts && ctx.battle.resolved ==> resolve_battle_error(ctx) == Some(ArenaErr::AlreadyResolved),
        ctx.now >= ctx.battle.end_ts && !ctx.battle.resolved
            && ctx.reserve_lamports * ctx.arena.reward_bps_from_reserve > u64::MAX
            ==> resolve_battle_error(ctx) == Some(ArenaErr::Overflow),
{
}

/// The refusals of a sweep, in order: unresolved, an overflowing pool, an
/// overflowing rake.
pub proof fn law_sweep_refusals(ctx: SweepRake)
    ensures
        !ctx.battle.resolved ==> sweep_rake_error(ctx) == Some(ArenaErr::NotResolved),
        sweep_rake_error(ctx) is Some && ctx.battle.resolved ==> sweep_rake_error(ctx) == Some(ArenaErr::Overflow),
{
}

/// The refusals of a bet, in order: a side other than A or B, a zero stake,
/// a round that has ended, a bettor holding less than the stake, then an
/// overflowing pot or bet.
pub proof fn law_bet_refusals(ctx: PlaceBet, side: u8, amount: u64)
    ensures
        side > 1 ==> place_bet_error(ctx, side, amount) == Some(ArenaErr::BadSide),
        side <= 1 && amount == 0 ==> place_bet_error(ctx, side, amount) == Some(ArenaErr::ZeroAmount),
        side <= 1 && amount > 0 && ctx.now >= ctx.battle.end_ts
            ==> place_bet_error(ctx, side, amount) == Some(ArenaErr::RoundEnded),
        side <= 1 && amount > 0 && ctx.now < ctx.battle.end_ts && ctx.bettor_lamports < amount
            ==> place_bet_error(ctx, side, amount) == Some(ArenaErr::Insufficient),
        side <= 1 && amount > 0 && ctx.now < ctx.battle.end_ts && ctx.bettor_lamports >= amount
            && place_bet_error(ctx, side, amount) is Some ==> place_bet_error(ctx, side, amount) == Some(ArenaErr::Overflow),
{
}

/// The refusals of a score update, in order: a signer other than the
/// arena's oracle, a resolved battle, a time outside the round, an
/// overflowing score.
pub proof fn law_score_refusals(ctx: UpdateMetrics, add_a: u128, add_b: u128)
    ensures
        ctx.arena.oracle != ctx.oracle ==> update_metrics_error(ctx, add_a, add_b) == Some(ArenaErr::Unauthorized),
        ctx.arena.oracle == ctx.oracle && ctx.battle.resolved
            ==> update_metrics_error(ctx, add_a, add_b) == Some(ArenaErr::AlreadyResolved),
        ctx.arena.oracle == ctx.oracle && !ctx.battle.resolved && !(ctx.battle.start_ts <= ctx.now <= ctx.battle.end_ts)
            ==> update_metrics_error(ctx, add_a, add_b) == Some(ArenaErr::NotInRound),
        ctx.arena.oracle == ctx.oracle && !ctx.battle.resolved && ctx.battle.start_ts <= ctx.now <= ctx.battle.end_ts
            && update_metrics_error(ctx, add_a, add_b) is Some
            ==> update_metrics_error(ctx, add_a, add_b) == Some(ArenaErr::Overflow),
{
}

/// The refusals of opening a battle that concern the round: an empty or
/// reversed round, then one shorter than the arena's minimum.
pub proof fn law_round_refusals(ctx: InitBattle, start_ts: i64, end_ts: i64)
    ensures
        end_ts <= start_ts ==> init_battle_error(ctx, start_ts, end_ts) == Some(ArenaErr::BadTimes),
        start_ts < end_ts && end_ts - start_ts < ctx.arena.min_duration_secs
            ==> init_battle_error(ctx, start_ts, end_ts) == Some(ArenaErr::DurationTooShort),
{
}

/// A withdrawal is refused to anyone but the admin, then when the reserve
/// holds less than asked; otherwise it is accepted.
pub proof fn law_withdraw_refusals(ctx: WithdrawFromReserve, amount: u64)
    ensures
        ctx.global.admin != ctx.admin ==> withdraw_error(ctx, amount) == Some(ArenaErr::Unauthorized),
        ctx.global.admin == ctx.admin && ctx.reserve_lamports < amount ==> withdraw_error(ctx, amount) == Some(ArenaErr::Insufficient),
        ctx.global.admin == ctx.admin && ctx.reserve_lamports >= amount ==> withdraw_error(ctx, amount) is None,
{
}

/// An arena is refused a reward rate above 100%, then a round shorter than a
/// minute; otherwise it is accepted.
pub proof fn law_arena_refusals(reward_bps: u16, min_duration_secs: i64)
    ensures
        reward_bps > 10000 ==> create_arena_error(reward_bps, min_duration_secs) == Some(ArenaErr::InvalidBps),
        reward_bps <= 10000 && min_duration_secs < 60 ==> create_arena_error(reward_bps, min_duration_secs) == Some(ArenaErr::DurationTooShort),
        reward_bps <= 10000 && min_duration_secs >= 60 ==> create_arena_error(reward_bps, min_duration_secs) is None,
{
}

/// The steps of creating a forge's token: the first creates the 82-byte mint
/// account owned by the token program, funded by the creator, signed with
/// the seeds `[b"mint", forge, [mint bump]]`; the second initializes it with
/// the given decimals and authorities; with an initial supply the third
/// mints exactly that supply to the creator's token account, signed by the
/// mint authority; when locking, the step before last revokes the mint
/// authority; and the last emits the creation event.
pub proof fn law_token_steps(steps: Seq<TokenStep>, c: ForgeNewToken, decimals: u8, initial_supply: u64, lock_mint: bool)
    requires
        forge_token_steps(steps, c, decimals, initial_supply, lock_mint),
    ensures
        steps.len() == 3 + (if initial_supply > 0 { 1int } else { 0int }) + (if lock_mint { 1int } else { 0int }),
        steps[0] matches TokenStep::CreateMint { instruction, signer_seeds }
            && is_system_create_account(instruction, c.creator, c.mint, c.mint_rent_lamports, 82, c.token_program)
            && seeds_view(signer_seeds) == mint_signer_seeds_spec(c.forge_key, c.mint_bump),
        steps[1] == (TokenStep::InitializeMint {
            mint: c.mint,
            decimals,
            mint_authority: c.mint_authority,
            freeze_authority: c.freeze_authority,
        }),
        initial_supply > 0 ==> (steps[2] matches TokenStep::MintTo { mint, to, authority, amount, signer_seeds }
            && mint == c.mint && to == c.creator_ata && authority == c.mint_authority && amount == initial_supply
            && seeds_view(signer_seeds) == mint_authority_signer_seeds_spec(c.mint, c.mint_authority_bump)),
        lock_mint ==> (steps[steps.len() - 2] matches TokenStep::RevokeMintAuthority { mint, authority, signer_seeds }
            && mint == c.mint && authority == c.mint_authority
            && seeds_view(signer_seeds) == mint_authority_signer_seeds_spec(c.mint, c.mint_authority_bump)),
        steps[steps.len() - 1] == TokenStep::Emit(crate::state::ForgeCreated { mint: c.mint, creator: c.creator, ts: c.now }),
{
}

} // verus!
