use vstd::prelude::*;
use crate::address::Address;
use crate::state::{Arena, ArenaErr, ArenaKind, Forge, ForgeCreated, Global, MAX_BPS, MIN_ARENA_DURATION_SECS};
use crate::system::{is_system_create_account, mint_account_len, system_create_account, InstructionData};
use crate::transfer::{
    mint_authority_signer_seeds, mint_authority_signer_seeds_spec, mint_signer_seeds, mint_signer_seeds_spec,
    seeds_view, transfer_lamports, LamportTransfer,
};

verus! {

// ------------------------------ Forges --------------------------------------

/// What `register_forge` reads: the paying signer and its lamports, the
/// creator, the (pre-created) mint, the config, the reserve vault, the new
/// forge account and the clock.
#[derive(Clone, Copy, Debug)]
pub struct RegisterForge {
    pub payer: Address,
    pub payer_lamports: u64,
    pub creator: Address,
    pub mint: Address,
    pub global: Global,
    pub reserve_vault: Address,
    pub forge: Forge,
    pub forge_bump: u8,
    pub now: i64,
}

/// Registers a forge for an existing mint; the payer pays the flat entry
/// fee into the reserve vault.
pub fn register_forge(ctx: &mut RegisterForge) -> (r: Result<Vec<LamportTransfer>, ArenaErr>)
    ensures
        r is Err <==> old(ctx).payer_lamports < old(ctx).global.entry_fee_lamports,
        r matches Err(e) ==> e == ArenaErr::Insufficient && *final(ctx) == *old(ctx),
        r matches Ok(ts) ==> {
            &&& ts@.len() == 1
            &&& ts@[0].moves(old(ctx).payer, old(ctx).reserve_vault, old(ctx).global.entry_fee_lamports, seq![])
            &&& *final(ctx) == (RegisterForge {
                forge: Forge {
                    mint: old(ctx).mint,
                    creator: old(ctx).creator,
                    bump: old(ctx).forge_bump,
                    created_at: old(ctx).now,
                },
                ..*old(ctx)
            })
        },
{
    let t = match transfer_lamports(&ctx.payer, ctx.payer_lamports, &ctx.reserve_vault, ctx.global.entry_fee_lamports) {
        Ok(t) => t,
        Err(e) => return Err(e),
    };
    ctx.forge = Forge { mint: ctx.mint, creator: ctx.creator, bump: ctx.forge_bump, created_at: ctx.now };
    let mut ts: Vec<LamportTransfer> = Vec::new();
    ts.push(t);
    Ok(ts)
}

/// What `forge_new_token` reads: the new forge account (address and data),
/// the mint to create and its authorities (with their bumps), the creator
/// and its token account, the token program, the rent-exempt balance for a
/// mint account, and the clock.
#[derive(Clone, Copy, Debug)]
pub struct ForgeNewToken {
    pub forge_key: Address,
    pub forge: Forge,
    pub forge_bump: u8,
    pub mint: Address,
    pub mint_bump: u8,
    pub mint_authority: Address,
    pub mint_authority_bump: u8,
    pub freeze_authority: Address,
    pub creator: Address,
    pub creator_ata: Address,
    pub token_program: Address,
    pub mint_rent_lamports: u64,
    pub now: i64,
}

/// One step of creating a forge's token, carried out in the order given.
#[derive(Debug)]
pub enum TokenStep {
    /// Create the mint account through the system program, signing for the
    /// mint's address with `signer_seeds`.
    CreateMint { instruction: InstructionData, signer_seeds: Vec<Vec<u8>> },
    /// Initialize the mint with its decimals, mint authority and freeze authority.
    InitializeMint { mint: Address, decimals: u8, mint_authority: Address, freeze_authority: Address },
    /// Mint `amount` tokens to `to`, the mint authority signing with `signer_seeds`.
    MintTo { mint: Address, to: Address, authority: Address, amount: u64, signer_seeds: Vec<Vec<u8>> },
    /// Remove the mint authority for good, the authority signing with `signer_seeds`.
    RevokeMintAuthority { mint: Address, authority: Address, signer_seeds: Vec<Vec<u8>> },
    /// Emit the creation event.
    Emit(ForgeCreated),
}

/// How many steps creating a forge's token takes: create, initialize and
/// emit, plus a mint when there is an initial supply and a revocation when
/// the mint is locked.
pub open spec fn forge_token_step_count(initial_supply: u64, lock_mint: bool) -> int {
    3 + (if initial_supply > 0 { 1int } else { 0int }) + (if lock_mint { 1int } else { 0int })
}

/// `s` creates the mint account: `82` bytes funded with the rent-exempt
/// balance by the creator, owned by the token program, signed by the mint's seeds.
pub open spec fn is_create_mint_step(s: TokenStep, c: ForgeNewToken) -> bool {
    match s {
        TokenStep::CreateMint { instruction, signer_seeds } => {
            &&& is_system_create_account(instruction, c.creator, c.mint, c.mint_rent_lamports, 82, c.token_program)
            &&& seeds_view(signer_seeds) == mint_signer_seeds_spec(c.forge_key, c.mint_bump)
        },
        _ => false,
    }
}

/// `s` mints `amount` to the creator's token account, signed by the mint authority.
pub open spec fn is_mint_to_step(s: TokenStep, c: ForgeNewToken, amount: u64) -> bool {
    match s {
        TokenStep::MintTo { mint, to, authority, amount: n, signer_seeds } => {
            &&& mint == c.mint
            &&& to == c.creator_ata
            &&& authority == c.mint_authority
            &&& n == amount
            &&& seeds_view(signer_seeds) == mint_authority_signer_seeds_spec(c.mint, c.mint_authority_bump)
        },
        _ => false,
    }
}

/// `s` revokes the mint authority, signed by that authority.
pub open spec fn is_revoke_step(s: TokenStep, c: ForgeNewToken) -> bool {
    match s {
        TokenStep::RevokeMintAuthority { mint, authority, signer_seeds } => {
            &&& mint == c.mint
            &&& authority == c.mint_authority
            &&& seeds_view(signer_seeds) == mint_authority_signer_seeds_spec(c.mint, c.mint_authority_bump)
        },
        _ => false,
    }
}

/// The steps of creating a forge's token, in order: create the mint,
/// initialize it, mint the initial supply (when there is one), revoke the
/// mint authority (when locking), and emit the event last.
pub open spec fn forge_token_steps(steps: Seq<TokenStep>, c: ForgeNewToken, decimals: u8, initial_supply: u64, lock_mint: bool) -> bool {
    let n = forge_token_step_count(initial_supply, lock_mint);
    &&& steps.len() == n
    &&& is_create_mint_step(steps[0], c)
    &&& steps[1] == (TokenStep::InitializeMint {
        mint: c.mint,
        decimals,
        mint_authority: c.mint_authority,
        freeze_authority: c.freeze_authority,
    })
    &&& initial_supply > 0 ==> is_mint_to_step(steps[2], c, initial_supply)
    &&& lock_mint ==> is_revoke_step(steps[n - 2], c)
    &&& steps[n - 1] == TokenStep::Emit(ForgeCreated { mint: c.mint, creator: c.creator, ts: c.now })
}

/// Creates a forge together with its own token mint: records the forge and
/// returns the steps that create the mint (82 bytes, owned by the token
/// program), initialize it, mint the initial supply, lock it when asked, and
/// announce it, in that order. The `seed` only derives the forge's address.
pub fn forge_new_token(ctx: &mut ForgeNewToken, seed: u64, decimals: u8, initial_supply: u64, lock_mint: bool) -> (steps: Vec<TokenStep>)
    ensures
        *final(ctx) == (ForgeNewToken {
            forge: Forge {
                mint: old(ctx).mint,
                creator: old(ctx).creator,
                bump: old(ctx).forge_bump,
                created_at: old(ctx).now,
            },
            ..*old(ctx)
        }),
        forge_token_steps(steps@, *old(ctx), decimals, initial_supply, lock_mint),
{
    ctx.forge = Forge { mint: ctx.mint, creator: ctx.creator, bump: ctx.forge_bump, created_at: ctx.now };
    let mut steps: Vec<TokenStep> = Vec::new();
    let mint_len = mint_account_len();
    let instruction = system_create_account(&ctx.creator, &ctx.mint, ctx.mint_rent_lamports, mint_len as u64, &ctx.token_program);
    steps.push(TokenStep::CreateMint { instruction, signer_seeds: mint_signer_seeds(&ctx.forge_key, ctx.mint_bump) });
    steps.push(TokenStep::InitializeMint {
        mint: ctx.mint,
        decimals,
        mint_authority: ctx.mint_authority,
        freeze_authority: ctx.freeze_authority,
    });
    if initial_supply > 0 {
        steps.push(TokenStep::MintTo {
            mint: ctx.mint,
            to: ctx.creator_ata,
            authority: ctx.mint_authority,
            amount: initial_supply,
            signer_seeds: mint_authority_signer_seeds(&ctx.mint, ctx.mint_authority_bump),
        });
    }
    if lock_mint {
        steps.push(TokenStep::RevokeMintAuthority {
            mint: ctx.mint,
            authority: ctx.mint_authority,
            signer_seeds: mint_authority_signer_seeds(&ctx.mint, ctx.mint_authority_bump),
        });
    }
    steps.push(TokenStep::Emit(ForgeCreated { mint: ctx.forge.mint, creator: ctx.forge.creator, ts: ctx.forge.created_at }));
    steps
}

// ------------------------------ Arenas --------------------------------------

/// What `create_arena` reads: the signing authority, the oracle to record
/// and the new arena account.
#[derive(Clone, Copy, Debug)]
pub struct CreateArenaCtx {
    pub authority: Address,
    pub oracle: Address,
    pub arena: Arena,
    pub arena_bump: u8,
}

/// The error `create_arena` answers, if any, checked in the program's order.
pub open spec fn create_arena_error(reward_bps_from_reserve: u16, min_duration_secs: i64) -> Option<ArenaErr> {
    if reward_bps_from_reserve > MAX_BPS {
        Some(ArenaErr::InvalidBps)
    } else if min_duration_secs < MIN_ARENA_DURATION_SECS {
        Some(ArenaErr::DurationTooShort)
    } else {
        None
    }
}

/// Opens an arena run by the signing authority and scored by `oracle`.
pub fn create_arena(ctx: &mut CreateArenaCtx, kind: ArenaKind, reward_bps_from_reserve: u16, min_duration_secs: i64) -> (r: Result<(), ArenaErr>)
    ensures
        r is Err <==> create_arena_error(reward_bps_from_reserve, min_duration_secs) is Some,
        r matches Err(e) ==> create_arena_error(reward_bps_from_reserve, min_duration_secs) == Some(e) && *final(ctx) == *old(ctx),
        r is Ok ==> *final(ctx) == (CreateArenaCtx {
            arena: Arena {
                authority: old(ctx).authority,
                kind,
                reward_bps_from_reserve,
                min_duration_secs,
                oracle: old(ctx).oracle,
                bump: old(ctx).arena_bump,
            },
            ..*old(ctx)
        }),
        r is Ok ==> final(ctx).arena.wf(),
{
    if !(reward_bps_from_reserve <= MAX_BPS) {
        return Err(ArenaErr::InvalidBps);
    }
    if !(min_duration_secs >= MIN_ARENA_DURATION_SECS) {
        return Err(ArenaErr::DurationTooShort);
    }
    ctx.arena = Arena {
        authority: ctx.authority,
        kind,
        reward_bps_from_reserve,
        min_duration_secs,
        oracle: ctx.oracle,
        bump: ctx.arena_bump,
    };
    Ok(())
}

} // verus!
