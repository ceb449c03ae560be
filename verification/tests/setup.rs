use anchor_lang::solana_program::pubkey::Pubkey;
use anchor_lang::solana_program::system_instruction;
use forge_solana::address::Address;
use forge_solana::admin::{
    deposit_to_reserve, initialize_global, withdraw_from_reserve, DepositToReserve, InitializeGlobal,
    WithdrawFromReserve,
};
use forge_solana::registry::{
    create_arena, forge_new_token, register_forge, CreateArenaCtx, ForgeNewToken, RegisterForge, TokenStep,
};
use forge_solana::state::{Arena, ArenaErr, ArenaKind, Forge, Global};

fn addr(b: u8) -> Address {
    Address::new([b; 32])
}

fn zero_global() -> Global {
    Global { admin: addr(0), fee_bps: 0, bet_rake_bps: 0, entry_fee_lamports: 0, bump: 0, reserve_bump: 0 }
}

fn config(fee: u64) -> Global {
    Global { admin: addr(9), fee_bps: 100, bet_rake_bps: 500, entry_fee_lamports: fee, bump: 250, reserve_bump: 251 }
}

fn zero_forge() -> Forge {
    Forge { mint: addr(0), creator: addr(0), bump: 0, created_at: 0 }
}

fn zero_arena() -> Arena {
    Arena { authority: addr(0), kind: ArenaKind::VolumeWar, reward_bps_from_reserve: 0, min_duration_secs: 0, oracle: addr(0), bump: 0 }
}

fn init_ctx() -> InitializeGlobal {
    InitializeGlobal { admin: addr(9), global: zero_global(), global_bump: 250, reserve_vault_bump: 251 }
}

#[test]
fn initialize_global_refuses_rates_above_one_hundred_percent() {
    let mut ctx = init_ctx();
    assert_eq!(initialize_global(&mut ctx, 10_001, 0, 5), Err(ArenaErr::InvalidBps));
    assert_eq!(initialize_global(&mut ctx, 0, 10_001, 5), Err(ArenaErr::InvalidBps));
    assert_eq!(ctx.global.admin, addr(0));
}

#[test]
fn initialize_global_records_the_config() {
    let mut ctx = init_ctx();
    assert_eq!(initialize_global(&mut ctx, 10_000, 250, 1_000_000), Ok(()));
    let g = ctx.global;
    assert_eq!(g.admin, addr(9));
    assert_eq!(g.fee_bps, 10_000);
    assert_eq!(g.bet_rake_bps, 250);
    assert_eq!(g.entry_fee_lamports, 1_000_000);
    assert_eq!(g.bump, 250);
    assert_eq!(g.reserve_bump, 251);
}

#[test]
fn sizes_match_the_account_layouts() {
    assert_eq!(Global::SIZE, 46);
    assert_eq!(Arena::SIZE, 76);
    assert_eq!(forge_solana::state::Battle::SIZE, 171);
    assert_eq!(forge_solana::state::Bet::SIZE, 75);
    assert_eq!(Forge::SIZE, 73);
}

fn register_ctx(lamports: u64) -> RegisterForge {
    RegisterForge {
        payer: addr(1),
        payer_lamports: lamports,
        creator: addr(2),
        mint: addr(3),
        global: config(700),
        reserve_vault: addr(4),
        forge: zero_forge(),
        forge_bump: 200,
        now: 1_700_000_000,
    }
}

#[test]
fn register_forge_charges_the_entry_fee() {
    let mut ctx = register_ctx(700);
    let ts = register_forge(&mut ctx).unwrap();
    assert_eq!(ts.len(), 1);
    assert_eq!((ts[0].from, ts[0].to, ts[0].lamports), (addr(1), addr(4), 700));
    assert_eq!(ctx.forge.creator, addr(2));
    assert_eq!(ctx.forge.mint, addr(3));
    assert_eq!(ctx.forge.bump, 200);
    assert_eq!(ctx.forge.created_at, 1_700_000_000);
}

#[test]
fn register_forge_refuses_a_poor_payer() {
    let mut ctx = register_ctx(699);
    assert_eq!(register_forge(&mut ctx).unwrap_err(), ArenaErr::Insufficient);
    assert_eq!(ctx.forge.creator, addr(0));
}

fn arena_ctx() -> CreateArenaCtx {
    CreateArenaCtx { authority: addr(5), oracle: addr(6), arena: zero_arena(), arena_bump: 33 }
}

#[test]
fn create_arena_checks_rate_then_duration() {
    let mut ctx = arena_ctx();
    assert_eq!(create_arena(&mut ctx, ArenaKind::Challenge, 10_001, 10), Err(ArenaErr::InvalidBps));
    assert_eq!(create_arena(&mut ctx, ArenaKind::Challenge, 500, 59), Err(ArenaErr::DurationTooShort));
    assert_eq!(ctx.arena.authority, addr(0));
}

#[test]
fn create_arena_records_authority_and_oracle() {
    let mut ctx = arena_ctx();
    assert_eq!(create_arena(&mut ctx, ArenaKind::SentimentDuel, 500, 60), Ok(()));
    let a = ctx.arena;
    assert_eq!(a.authority, addr(5));
    assert_eq!(a.oracle, addr(6));
    assert_eq!(a.kind, ArenaKind::SentimentDuel);
    assert_eq!(a.reward_bps_from_reserve, 500);
    assert_eq!(a.min_duration_secs, 60);
    assert_eq!(a.bump, 33);
}

#[test]
fn deposit_to_reserve_is_accepted_as_is() {
    let ctx = DepositToReserve { payer: addr(1), reserve_vault: addr(4) };
    assert_eq!(deposit_to_reserve(&ctx, 12345), Ok(()));
}

fn withdraw_ctx(admin: Address, lamports: u64) -> WithdrawFromReserve {
    WithdrawFromReserve { admin, global: config(0), reserve_vault: addr(4), reserve_lamports: lamports }
}

#[test]
fn withdraw_is_for_the_admin_only() {
    assert_eq!(withdraw_from_reserve(&withdraw_ctx(addr(8), 1_000), 10).unwrap_err(), ArenaErr::Unauthorized);
    assert_eq!(withdraw_from_reserve(&withdraw_ctx(addr(9), 1_000), 1_001).unwrap_err(), ArenaErr::Insufficient);
}

#[test]
fn withdraw_moves_reserve_lamports_to_the_admin() {
    let ts = withdraw_from_reserve(&withdraw_ctx(addr(9), 1_000), 1_000).unwrap();
    assert_eq!(ts.len(), 1);
    assert_eq!((ts[0].from, ts[0].to, ts[0].lamports), (addr(4), addr(9), 1_000));
    assert_eq!(ts[0].signer_seeds, vec![b"reserve".to_vec(), vec![251]]);
}

fn token_ctx() -> ForgeNewToken {
    ForgeNewToken {
        forge_key: addr(10),
        forge: zero_forge(),
        forge_bump: 11,
        mint: addr(12),
        mint_bump: 13,
        mint_authority: addr(14),
        mint_authority_bump: 15,
        freeze_authority: addr(16),
        creator: addr(17),
        creator_ata: addr(18),
        token_program: addr(19),
        mint_rent_lamports: 1_461_600,
        now: 42,
    }
}

#[test]
fn forge_new_token_records_the_forge_and_orders_the_token_steps() {
    let mut ctx = token_ctx();
    let steps = forge_new_token(&mut ctx, 7, 9, 1_000_000, true);
    assert_eq!(ctx.forge.mint, addr(12));
    assert_eq!(ctx.forge.creator, addr(17));
    assert_eq!(ctx.forge.bump, 11);
    assert_eq!(ctx.forge.created_at, 42);
    assert_eq!(steps.len(), 5);
    let reference = system_instruction::create_account(
        &Pubkey::new_from_array([17; 32]),
        &Pubkey::new_from_array([12; 32]),
        1_461_600,
        82,
        &Pubkey::new_from_array([19; 32]),
    );
    match &steps[0] {
        TokenStep::CreateMint { instruction, signer_seeds } => {
            assert_eq!(instruction.data, reference.data);
            assert_eq!(instruction.data.len(), 52);
            assert_eq!(&instruction.data[..4], &[0, 0, 0, 0]);
            assert_eq!(&instruction.data[12..20], &82u64.to_le_bytes());
            assert_eq!(instruction.accounts.len(), 2);
            assert!(instruction.accounts[1].is_signer);
            assert_eq!(signer_seeds, &vec![b"mint".to_vec(), vec![10; 32], vec![13]]);
        }
        other => panic!("first step {:?}", other),
    }
    match &steps[1] {
        TokenStep::InitializeMint { mint, decimals, mint_authority, freeze_authority } => {
            assert_eq!((*mint, *decimals, *mint_authority, *freeze_authority), (addr(12), 9, addr(14), addr(16)));
        }
        other => panic!("second step {:?}", other),
    }
    match &steps[2] {
        TokenStep::MintTo { mint, to, authority, amount, signer_seeds } => {
            assert_eq!((*mint, *to, *authority, *amount), (addr(12), addr(18), addr(14), 1_000_000));
            assert_eq!(signer_seeds, &vec![b"mint_auth".to_vec(), vec![12; 32], vec![15]]);
        }
        other => panic!("third step {:?}", other),
    }
    match &steps[3] {
        TokenStep::RevokeMintAuthority { mint, authority, signer_seeds } => {
            assert_eq!((*mint, *authority), (addr(12), addr(14)));
            assert_eq!(signer_seeds, &vec![b"mint_auth".to_vec(), vec![12; 32], vec![15]]);
        }
        other => panic!("fourth step {:?}", other),
    }
    match &steps[4] {
        TokenStep::Emit(e) => assert_eq!((e.mint, e.creator, e.ts), (addr(12), addr(17), 42)),
        other => panic!("last step {:?}", other),
    }
}

#[test]
fn forge_new_token_skips_an_empty_supply() {
    let mut ctx = token_ctx();
    let steps = forge_new_token(&mut ctx, 0, 6, 0, false);
    assert_eq!(steps.len(), 3);
    assert!(matches!(steps[1], TokenStep::InitializeMint { decimals: 6, .. }));
    assert!(matches!(steps[2], TokenStep::Emit(_)));
}
