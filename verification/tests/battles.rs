use forge_solana::address::Address;
use forge_solana::battle::{
    claim_bet, init_battle, place_bet, resolve_battle, sweep_rake, update_metrics, ClaimBet, InitBattle, PlaceBet,
    ResolveBattle, SweepRake, UpdateMetrics,
};
use forge_solana::state::{Arena, ArenaErr, ArenaKind, Battle, Bet, Global};

fn addr(b: u8) -> Address {
    Address::new([b; 32])
}

fn config(fee: u64, rake_bps: u16) -> Global {
    Global { admin: addr(9), fee_bps: 100, bet_rake_bps: rake_bps, entry_fee_lamports: fee, bump: 250, reserve_bump: 251 }
}

fn arena(reward_bps: u16) -> Arena {
    Arena { authority: addr(5), kind: ArenaKind::VolumeWar, reward_bps_from_reserve: reward_bps, min_duration_secs: 60, oracle: addr(6), bump: 1 }
}

fn battle() -> Battle {
    Battle {
        arena: addr(20),
        forge_a: addr(21),
        forge_b: addr(22),
        start_ts: 1_000,
        end_ts: 2_000,
        nonce: 3,
        metrics_a: 0,
        metrics_b: 0,
        pot_a: 0,
        pot_b: 0,
        resolved: false,
        winner: 255,
        bump: 254,
    }
}

fn empty_bet() -> Bet {
    Bet { battle: addr(0), bettor: addr(0), side: 0, amount: 0, claimed: false, bump: 0 }
}

// ------------------------------ init_battle ---------------------------------

fn init_ctx(a_lamports: u64, b_creator: Address, b_lamports: u64) -> InitBattle {
    InitBattle {
        global: config(100, 500),
        reserve_vault: addr(4),
        arena_key: addr(20),
        arena: arena(500),
        forge_a_key: addr(21),
        forge_b_key: addr(22),
        forge_a_creator: addr(31),
        forge_a_creator_lamports: a_lamports,
        forge_b_creator: b_creator,
        forge_b_creator_lamports: b_lamports,
        battle: Battle { start_ts: 0, end_ts: 0, nonce: 0, bump: 0, winner: 0, ..battle() },
        battle_bump: 99,
    }
}

#[test]
fn init_battle_checks_times_then_fees() {
    let mut ctx = init_ctx(1_000, addr(32), 1_000);
    assert_eq!(init_battle(&mut ctx, 1, 100, 100).unwrap_err(), ArenaErr::BadTimes);
    assert_eq!(init_battle(&mut ctx, 1, 100, 159).unwrap_err(), ArenaErr::DurationTooShort);
    let mut poor_a = init_ctx(99, addr(32), 1_000);
    assert_eq!(init_battle(&mut poor_a, 1, 100, 160).unwrap_err(), ArenaErr::Insufficient);
    let mut poor_b = init_ctx(1_000, addr(32), 99);
    assert_eq!(init_battle(&mut poor_b, 1, 100, 160).unwrap_err(), ArenaErr::Insufficient);
    assert_eq!(poor_b.battle.end_ts, 0);
}

#[test]
fn init_battle_charges_a_shared_creator_twice() {
    let mut short = init_ctx(150, addr(31), 150);
    assert_eq!(init_battle(&mut short, 1, 100, 160).unwrap_err(), ArenaErr::Insufficient);
    let mut enough = init_ctx(200, addr(31), 200);
    let ts = init_battle(&mut enough, 1, 100, 160).unwrap();
    assert_eq!(ts.len(), 2);
    assert_eq!((ts[1].from, ts[1].lamports), (addr(31), 100));
}

#[test]
fn init_battle_opens_a_fresh_battle() {
    let mut ctx = init_ctx(1_000, addr(32), 1_000);
    let ts = init_battle(&mut ctx, 77, 100, 160).unwrap();
    assert_eq!((ts[0].from, ts[0].to, ts[0].lamports), (addr(31), addr(4), 100));
    assert_eq!((ts[1].from, ts[1].to, ts[1].lamports), (addr(32), addr(4), 100));
    let b = ctx.battle;
    assert_eq!((b.arena, b.forge_a, b.forge_b), (addr(20), addr(21), addr(22)));
    assert_eq!((b.start_ts, b.end_ts, b.nonce), (100, 160, 77));
    assert_eq!((b.metrics_a, b.metrics_b, b.pot_a, b.pot_b), (0, 0, 0, 0));
    assert!(!b.resolved);
    assert_eq!(b.winner, 255);
    assert_eq!(b.bump, 99);
}

// ------------------------------ update_metrics ------------------------------

fn metrics_ctx(oracle: Address, now: i64) -> UpdateMetrics {
    UpdateMetrics { oracle, arena: arena(500), battle: battle(), now }
}

#[test]
fn update_metrics_is_for_the_oracle_during_the_round() {
    assert_eq!(update_metrics(&mut metrics_ctx(addr(7), 1_500), 1, 1), Err(ArenaErr::Unauthorized));
    let mut resolved = metrics_ctx(addr(6), 1_500);
    resolved.battle.resolved = true;
    assert_eq!(update_metrics(&mut resolved, 1, 1), Err(ArenaErr::AlreadyResolved));
    assert_eq!(update_metrics(&mut metrics_ctx(addr(6), 999), 1, 1), Err(ArenaErr::NotInRound));
    assert_eq!(update_metrics(&mut metrics_ctx(addr(6), 2_001), 1, 1), Err(ArenaErr::NotInRound));
}

#[test]
fn update_metrics_adds_at_both_round_edges() {
    let mut ctx = metrics_ctx(addr(6), 1_000);
    assert_eq!(update_metrics(&mut ctx, 5, 7), Ok(()));
    ctx.now = 2_000;
    assert_eq!(update_metrics(&mut ctx, 1, 2), Ok(()));
    assert_eq!((ctx.battle.metrics_a, ctx.battle.metrics_b), (6, 9));
}

#[test]
fn update_metrics_refuses_overflow_and_changes_nothing() {
    let mut ctx = metrics_ctx(addr(6), 1_500);
    ctx.battle.metrics_a = u128::MAX;
    assert_eq!(update_metrics(&mut ctx, 1, 0), Err(ArenaErr::Overflow));
    let mut ctx = metrics_ctx(addr(6), 1_500);
    ctx.battle.metrics_b = u128::MAX;
    assert_eq!(update_metrics(&mut ctx, 3, 1), Err(ArenaErr::Overflow));
    assert_eq!(ctx.battle.metrics_a, 0);
}

// ------------------------------ place_bet -----------------------------------

fn bet_ctx(lamports: u64, now: i64) -> PlaceBet {
    PlaceBet { bettor: addr(40), bettor_lamports: lamports, battle_key: addr(30), battle: battle(), bet: empty_bet(), bet_bump: 88, now }
}

#[test]
fn place_bet_checks_in_order() {
    assert_eq!(place_bet(&mut bet_ctx(1_000, 1_500), 2, 10).unwrap_err(), ArenaErr::BadSide);
    assert_eq!(place_bet(&mut bet_ctx(1_000, 1_500), 0, 0).unwrap_err(), ArenaErr::ZeroAmount);
    assert_eq!(place_bet(&mut bet_ctx(1_000, 2_000), 0, 10).unwrap_err(), ArenaErr::RoundEnded);
    assert_eq!(place_bet(&mut bet_ctx(9, 1_500), 0, 10).unwrap_err(), ArenaErr::Insufficient);
    let mut full_pot = bet_ctx(1_000, 1_500);
    full_pot.battle.pot_b = u64::MAX;
    assert_eq!(place_bet(&mut full_pot, 1, 10).unwrap_err(), ArenaErr::Overflow);
    let mut full_bet = bet_ctx(1_000, 1_500);
    full_bet.bet = Bet { amount: u64::MAX, side: 0, ..empty_bet() };
    assert_eq!(place_bet(&mut full_bet, 0, 10).unwrap_err(), ArenaErr::Overflow);
    assert_eq!(full_bet.battle.pot_a, 0);
}

#[test]
fn place_bet_escrows_the_stake() {
    let mut ctx = bet_ctx(1_000, 999);
    let ts = place_bet(&mut ctx, 1, 250).unwrap();
    assert_eq!(ts.len(), 1);
    assert_eq!((ts[0].from, ts[0].to, ts[0].lamports), (addr(40), addr(30), 250));
    assert!(ts[0].signer_seeds.is_empty());
    assert_eq!((ctx.battle.pot_a, ctx.battle.pot_b), (0, 250));
    let b = ctx.bet;
    assert_eq!((b.battle, b.bettor, b.side, b.amount, b.claimed, b.bump), (addr(30), addr(40), 1, 250, false, 88));
}

#[test]
fn place_bet_again_keeps_the_first_side() {
    let mut ctx = bet_ctx(1_000, 1_500);
    place_bet(&mut ctx, 0, 10).unwrap();
    place_bet(&mut ctx, 1, 100).unwrap();
    assert_eq!((ctx.battle.pot_a, ctx.battle.pot_b), (10, 100));
    assert_eq!((ctx.bet.side, ctx.bet.amount), (0, 110));
}

// ------------------------------ resolve_battle ------------------------------

fn resolve_ctx(now: i64, reserve: u64) -> ResolveBattle {
    ResolveBattle {
        global: config(0, 500),
        reserve_vault: addr(4),
        reserve_lamports: reserve,
        arena: arena(500),
        battle: battle(),
        winner_recipient: addr(50),
        now,
    }
}

#[test]
fn resolve_battle_waits_for_the_end_and_resolves_once() {
    assert_eq!(resolve_battle(&mut resolve_ctx(1_999, 0)).unwrap_err(), ArenaErr::NotEnded);
    let mut ctx = resolve_ctx(2_000, 0);
    assert!(resolve_battle(&mut ctx).unwrap().is_empty());
    assert!(ctx.battle.resolved);
    assert_eq!(resolve_battle(&mut ctx).unwrap_err(), ArenaErr::AlreadyResolved);
    let mut huge = resolve_ctx(2_000, u64::MAX);
    assert_eq!(resolve_battle(&mut huge).unwrap_err(), ArenaErr::Overflow);
    assert!(!huge.battle.resolved);
}

#[test]
fn resolve_battle_picks_the_winner() {
    let mut a = resolve_ctx(3_000, 0);
    a.battle.metrics_a = 10;
    a.battle.metrics_b = 9;
    a.battle.pot_b = 1_000;
    resolve_battle(&mut a).unwrap();
    assert_eq!(a.battle.winner, 0);
    let mut b = resolve_ctx(3_000, 0);
    b.battle.metrics_b = 1;
    b.battle.pot_a = 1_000;
    resolve_battle(&mut b).unwrap();
    assert_eq!(b.battle.winner, 1);
    let mut tie_pot = resolve_ctx(3_000, 0);
    tie_pot.battle.pot_a = 4;
    tie_pot.battle.pot_b = 5;
    resolve_battle(&mut tie_pot).unwrap();
    assert_eq!(tie_pot.battle.winner, 1);
    let mut tie_all = resolve_ctx(3_000, 0);
    tie_all.battle.pot_a = 5;
    tie_all.battle.pot_b = 5;
    resolve_battle(&mut tie_all).unwrap();
    assert_eq!(tie_all.battle.winner, 0);
}

#[test]
fn resolve_battle_pays_the_arena_share_of_the_reserve() {
    let mut ctx = resolve_ctx(2_000, 1_000_000);
    let ts = resolve_battle(&mut ctx).unwrap();
    assert_eq!(ts.len(), 1);
    assert_eq!((ts[0].from, ts[0].to, ts[0].lamports), (addr(4), addr(50), 50_000));
    assert_eq!(ts[0].signer_seeds, vec![b"reserve".to_vec(), vec![251]]);
    let mut small = resolve_ctx(2_000, 19);
    assert!(resolve_battle(&mut small).unwrap().is_empty());
}

// ------------------------------ claim_bet -----------------------------------

fn resolved_battle(pot_a: u64, pot_b: u64, winner: u8) -> Battle {
    Battle { pot_a, pot_b, resolved: true, winner, ..battle() }
}

fn claim_ctx(b: Battle, side: u8, amount: u64, rake_bps: u16, lamports: u64) -> ClaimBet {
    ClaimBet {
        bettor: addr(40),
        battle_key: addr(30),
        battle: b,
        battle_lamports: lamports,
        bet: Bet { battle: addr(30), bettor: addr(40), side, amount, claimed: false, bump: 1 },
        global: config(0, rake_bps),
    }
}

#[test]
fn claim_bet_refusals() {
    let mut open = claim_ctx(battle(), 0, 10, 0, 100);
    assert_eq!(claim_bet(&mut open).unwrap_err(), ArenaErr::NotResolved);
    let mut claimed = claim_ctx(resolved_battle(10, 10, 0), 0, 10, 0, 100);
    claimed.bet.claimed = true;
    assert_eq!(claim_bet(&mut claimed).unwrap_err(), ArenaErr::AlreadyClaimed);
    let mut other = claim_ctx(resolved_battle(10, 10, 0), 0, 10, 0, 100);
    other.battle_key = addr(31);
    assert_eq!(claim_bet(&mut other).unwrap_err(), ArenaErr::BadBet);
    let mut thief = claim_ctx(resolved_battle(10, 10, 0), 0, 10, 0, 100);
    thief.bettor = addr(41);
    assert_eq!(claim_bet(&mut thief).unwrap_err(), ArenaErr::Unauthorized);
    let mut big = claim_ctx(resolved_battle(u64::MAX, 1, 0), 0, 10, 0, 100);
    assert_eq!(claim_bet(&mut big).unwrap_err(), ArenaErr::Overflow);
    let mut rake_overflow = claim_ctx(resolved_battle(u64::MAX / 2, 1, 0), 0, 10, 3, 100);
    assert_eq!(claim_bet(&mut rake_overflow).unwrap_err(), ArenaErr::Overflow);
    let mut over_rake = claim_ctx(resolved_battle(10, 10, 0), 0, 10, 20_000, 100);
    assert_eq!(claim_bet(&mut over_rake).unwrap_err(), ArenaErr::Overflow);
    let mut empty = claim_ctx(resolved_battle(0, 10, 0), 0, 10, 0, 100);
    assert_eq!(claim_bet(&mut empty).unwrap_err(), ArenaErr::EmptyWinnerPot);
    let mut dry = claim_ctx(resolved_battle(300, 100, 0), 0, 100, 1_000, 119);
    assert_eq!(claim_bet(&mut dry).unwrap_err(), ArenaErr::Insufficient);
    assert!(!dry.bet.claimed);
}

#[test]
fn claim_bet_pays_the_pro_rata_share_once() {
    let mut ctx = claim_ctx(resolved_battle(300, 100, 0), 0, 100, 1_000, 400);
    let ts = claim_bet(&mut ctx).unwrap();
    assert_eq!(ts.len(), 1);
    // pool 400, rake 40, 360 to share: 100 of 300 gets 120
    assert_eq!((ts[0].from, ts[0].to, ts[0].lamports), (addr(30), addr(40), 120));
    assert!(ctx.bet.claimed);
    assert_eq!(claim_bet(&mut ctx).unwrap_err(), ArenaErr::AlreadyClaimed);
}

#[test]
fn claim_bet_on_the_losing_side_pays_nothing() {
    let mut ctx = claim_ctx(resolved_battle(300, 100, 0), 1, 100, 1_000, 400);
    assert!(claim_bet(&mut ctx).unwrap().is_empty());
    assert!(!ctx.bet.claimed);
    let mut b_lost = claim_ctx(resolved_battle(300, 100, 1), 0, 100, 1_000, 400);
    assert!(claim_bet(&mut b_lost).unwrap().is_empty());
}

#[test]
fn claim_bet_cuts_an_oversized_payout_to_64_bits() {
    // a stake far above its side's pot: (2^64 - 1)^2 / 1 keeps its low 64 bits, 1
    let mut ctx = claim_ctx(resolved_battle(1, u64::MAX - 1, 0), 0, u64::MAX, 0, 5);
    let ts = claim_bet(&mut ctx).unwrap();
    assert_eq!(ts[0].lamports, 1);
}

#[test]
fn winner_claims_stay_within_the_pool() {
    // stakes 1, 2, 4 on side A (pot 7), side B 13, rake 10%: 18 to share
    let stakes = [1u64, 2, 4];
    let mut paid = 0u64;
    for s in stakes {
        let mut ctx = claim_ctx(resolved_battle(7, 13, 0), 0, s, 1_000, 1_000);
        paid += claim_bet(&mut ctx).unwrap()[0].lamports;
    }
    assert_eq!(paid, 2 + 5 + 10);
    assert!(paid <= 18);
}

// ------------------------------ sweep_rake ----------------------------------

fn sweep_ctx(b: Battle, rake_bps: u16, lamports: u64) -> SweepRake {
    SweepRake {
        global: config(0, rake_bps),
        reserve_vault: addr(4),
        battle_key: addr(30),
        battle: b,
        battle_lamports: lamports,
    }
}

#[test]
fn sweep_rake_refusals() {
    assert_eq!(sweep_rake(&sweep_ctx(battle(), 500, 100)).unwrap_err(), ArenaErr::NotResolved);
    assert_eq!(sweep_rake(&sweep_ctx(resolved_battle(u64::MAX, 1, 1), 500, 100)).unwrap_err(), ArenaErr::Overflow);
    assert_eq!(sweep_rake(&sweep_ctx(resolved_battle(u64::MAX / 2, 0, 1), 500, 100)).unwrap_err(), ArenaErr::Overflow);
}

#[test]
fn sweep_rake_moves_the_rake_or_what_is_left() {
    let ts = sweep_rake(&sweep_ctx(resolved_battle(600, 400, 0), 500, 10_000)).unwrap();
    assert_eq!((ts[0].from, ts[0].to, ts[0].lamports), (addr(30), addr(4), 50));
    let ts = sweep_rake(&sweep_ctx(resolved_battle(600, 400, 0), 500, 20)).unwrap();
    assert_eq!(ts[0].lamports, 20);
    assert!(sweep_rake(&sweep_ctx(resolved_battle(600, 400, 0), 500, 0)).unwrap().is_empty());
    assert!(sweep_rake(&sweep_ctx(resolved_battle(600, 400, 0), 0, 100)).unwrap().is_empty());
}

// ------------------------------ Laws on concrete values ---------------------

#[test]
fn a_resolved_battle_takes_no_more_bets_or_scores() {
    let mut r = resolve_ctx(2_000, 0);
    resolve_battle(&mut r).unwrap();
    let mut bet = bet_ctx(1_000, 2_000);
    bet.battle = r.battle;
    assert_eq!(place_bet(&mut bet, 0, 10).unwrap_err(), ArenaErr::RoundEnded);
    let mut update = metrics_ctx(addr(6), 2_000);
    update.battle = r.battle;
    assert_eq!(update_metrics(&mut update, 1, 1), Err(ArenaErr::AlreadyResolved));
}

#[test]
fn the_full_reward_rate_pays_the_whole_reserve_and_no_more() {
    let mut ctx = resolve_ctx(2_000, 123_456);
    ctx.arena.reward_bps_from_reserve = 10_000;
    let ts = resolve_battle(&mut ctx).unwrap();
    assert_eq!(ts[0].lamports, 123_456);
}

#[test]
fn stakes_on_the_same_side_track_the_pot() {
    let mut ctx = bet_ctx(1_000, 1_500);
    place_bet(&mut ctx, 0, 10).unwrap();
    place_bet(&mut ctx, 0, 15).unwrap();
    assert_eq!((ctx.battle.pot_a, ctx.battle.pot_b), (25, 0));
    assert_eq!((ctx.bet.side, ctx.bet.amount), (0, 25));
}

#[test]
fn rake_and_shares_split_the_pool() {
    // pool 1000 at 5%: 50 swept, 950 shared; a single winner holding the
    // whole winning pot gets all 950
    let rake = sweep_rake(&sweep_ctx(resolved_battle(600, 400, 0), 500, 10_000)).unwrap()[0].lamports;
    let mut ctx = claim_ctx(resolved_battle(600, 400, 0), 0, 600, 500, 10_000);
    let share = claim_bet(&mut ctx).unwrap()[0].lamports;
    assert_eq!(rake + share, 1_000);
}

#[test]
fn a_battle_keeps_its_round_and_identity_through_its_life() {
    let mut init = init_ctx(1_000, addr(32), 1_000);
    init_battle(&mut init, 5, 1_000, 2_000).unwrap();
    let opened = init.battle;

    let mut m = metrics_ctx(addr(6), 1_500);
    m.battle = opened;
    update_metrics(&mut m, 3, 4).unwrap();
    let mut p = bet_ctx(1_000, 1_600);
    p.battle = m.battle;
    place_bet(&mut p, 1, 30).unwrap();
    let mut r = resolve_ctx(2_100, 1_000);
    r.battle = p.battle;
    resolve_battle(&mut r).unwrap();
    let mut again = bet_ctx(1_000, 2_200);
    again.battle = r.battle;
    assert!(place_bet(&mut again, 0, 1).is_err());

    let b = again.battle;
    assert!(b.resolved && b.winner == 1);
    assert_eq!((b.start_ts, b.end_ts, b.nonce, b.bump), (opened.start_ts, opened.end_ts, opened.nonce, opened.bump));
    assert_eq!((b.arena, b.forge_a, b.forge_b), (opened.arena, opened.forge_a, opened.forge_b));
    assert!(b.end_ts - b.start_ts >= 60);
}

#[test]
fn a_resolution_survives_later_calls() {
    let mut r = resolve_ctx(2_000, 1_000_000);
    r.battle.metrics_b = 2;
    assert_eq!(resolve_battle(&mut r).unwrap().len(), 1);
    let mut m = metrics_ctx(addr(6), 2_000);
    m.battle = r.battle;
    assert!(update_metrics(&mut m, 10, 0).is_err());
    let mut c = claim_ctx(m.battle, 1, 0, 500, 0);
    let _ = claim_bet(&mut c);
    let _ = sweep_rake(&sweep_ctx(c.battle, 500, 100));
    let mut again = resolve_ctx(5_000, 1_000_000);
    again.battle = c.battle;
    assert_eq!(resolve_battle(&mut again).unwrap_err(), ArenaErr::AlreadyResolved);
    assert!(again.battle.resolved && again.battle.winner == 1);
}
