use vstd::prelude::*;
use crate::address::Address;
use crate::state::{ArenaErr, Global, MAX_BPS};
use crate::transfer::{reserve_signer_seeds, reserve_signer_seeds_spec, transfer_lamports_signed, LamportTransfer};

verus! {

/// What `initialize_global` reads: the signing admin, the new config
/// account and the bumps of the config and reserve vault addresses.
#[derive(Clone, Copy, Debug)]
pub struct InitializeGlobal {
    pub admin: Address,
    pub global: Global,
    pub global_bump: u8,
    pub reserve_vault_bump: u8,
}

/// Records the program configuration; both rates must be at most 100%.
pub fn initialize_global(ctx: &mut InitializeGlobal, fee_bps: u16, bet_rake_bps: u16, entry_fee_lamports: u64) -> (r: Result<(), ArenaErr>)
    ensures
        r is Err <==> fee_bps > MAX_BPS || bet_rake_bps > MAX_BPS,
        r matches Err(e) ==> e == ArenaErr::InvalidBps && *final(ctx) == *old(ctx),
        r is Ok ==> *final(ctx) == (InitializeGlobal {
            global: Global {
                admin: old(ctx).admin,
                fee_bps,
                bet_rake_bps,
                entry_fee_lamports,
                bump: old(ctx).global_bump,
                reserve_bump: old(ctx).reserve_vault_bump,
            },
            ..*old(ctx)
        }),
        r is Ok ==> final(ctx).global.wf(),
{
    if !(fee_bps <= MAX_BPS) {
        return Err(ArenaErr::InvalidBps);
    }
    if !(bet_rake_bps <= MAX_BPS) {
        return Err(ArenaErr::InvalidBps);
    }
    ctx.global = Global {
        admin: ctx.admin,
        fee_bps,
        bet_rake_bps,
        entry_fee_lamports,
        bump: ctx.global_bump,
        reserve_bump: ctx.reserve_vault_bump,
    };
    Ok(())
}

/// What `deposit_to_reserve` names: the payer and the reserve vault.
#[derive(Clone, Copy, Debug)]
pub struct DepositToReserve {
    pub payer: Address,
    pub reserve_vault: Address,
}

/// Accepted as is: funding the reserve is a plain system transfer that the
/// payer makes in the same transaction; the program moves nothing itself.
pub fn deposit_to_reserve(ctx: &DepositToReserve, amount: u64) -> (r: Result<(), ArenaErr>)
    ensures
        r is Ok,
{
    Ok(())
}

/// What `withdraw_from_reserve` reads: the signer, the config, and the
/// reserve vault and its lamports.
#[derive(Clone, Copy, Debug)]
pub struct WithdrawFromReserve {
    pub admin: Address,
    pub global: Global,
    pub reserve_vault: Address,
    pub reserve_lamports: u64,
}

/// The error `withdraw_from_reserve` answers, if any, checked in the program's order.
pub open spec fn withdraw_error(ctx: WithdrawFromReserve, amount: u64) -> Option<ArenaErr> {
    if ctx.global.admin != ctx.admin {
        Some(ArenaErr::Unauthorized)
    } else if ctx.reserve_lamports < amount {
        Some(ArenaErr::Insufficient)
    } else {
        None
    }
}

/// The admin takes `amount` lamports out of the reserve vault.
pub fn withdraw_from_reserve(ctx: &WithdrawFromReserve, amount: u64) -> (r: Result<Vec<LamportTransfer>, ArenaErr>)
    ensures
        r is Err <==> withdraw_error(*ctx, amount) is Some,
        r matches Err(e) ==> withdraw_error(*ctx, amount) == Some(e),
        r matches Ok(ts) ==> ts@.len() == 1 && ts@[0].moves(
            ctx.reserve_vault,
            ctx.admin,
            amount,
            reserve_signer_seeds_spec(ctx.global.reserve_bump),
        ),
{
    if ctx.global.admin != ctx.admin {
        return Err(ArenaErr::Unauthorized);
    }
    let seeds = reserve_signer_seeds(ctx.global.reserve_bump);
    let t = match transfer_lamports_signed(&ctx.reserve_vault, ctx.reserve_lamports, &ctx.admin, amount, seeds) {
        Ok(t) => t,
        Err(e) => return Err(e),
    };
    let mut ts: Vec<LamportTransfer> = Vec::new();
    ts.push(t);
    Ok(ts)
}

} // verus!
