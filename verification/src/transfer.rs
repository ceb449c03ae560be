use vstd::prelude::*;
use crate::address::Address;
use crate::state::ArenaErr;
use crate::system::{InstructionData, is_system_transfer, system_transfer};

verus! {

/// A lamport transfer the program asks the runtime to perform, through the
/// system program, signing for `from` with `signer_seeds` when `from` is a
/// program-derived account (and with no seeds when `from` signed the
/// transaction itself).
#[derive(Debug)]
pub struct LamportTransfer {
    pub from: Address,
    pub to: Address,
    pub lamports: u64,
    pub signer_seeds: Vec<Vec<u8>>,
    pub instruction: InstructionData,
}

/// The byte strings of a list of signer seeds.
pub open spec fn seeds_view(seeds: Vec<Vec<u8>>) -> Seq<Seq<u8>> {
    seeds@.map_values(|x: Vec<u8>| x@)
}

impl LamportTransfer {
    /// This transfer moves `lamports` from `from` to `to`, signed with `seeds`,
    /// and its instruction is the system program's transfer of exactly that.
    pub open spec fn moves(self, from: Address, to: Address, lamports: u64, seeds: Seq<Seq<u8>>) -> bool {
        &&& self.from == from
        &&& self.to == to
        &&& self.lamports == lamports
        &&& seeds_view(self.signer_seeds) == seeds
        &&& is_system_transfer(self.instruction, from, to, lamports)
    }
}

/// Moves `amount` lamports from a transaction signer holding `from_lamports`
/// to `to`; refused with `Insufficient` when the signer holds less.
pub fn transfer_lamports(from: &Address, from_lamports: u64, to: &Address, amount: u64) -> (r: Result<LamportTransfer, ArenaErr>)
    ensures
        r is Err <==> from_lamports < amount,
        r matches Err(e) ==> e == ArenaErr::Insufficient,
        r matches Ok(t) ==> t.moves(*from, *to, amount, seq![]),
{
    if from_lamports < amount {
        return Err(ArenaErr::Insufficient);
    }
    let seeds: Vec<Vec<u8>> = Vec::new();
    proof {
        assert(seeds_view(seeds) =~= seq![]);
    }
    Ok(LamportTransfer { from: *from, to: *to, lamports: amount, signer_seeds: seeds, instruction: system_transfer(from, to, amount) })
}

/// Moves `amount` lamports from a program-derived account holding
/// `from_lamports` to `to`, signing with `signer_seeds`; refused with
/// `Insufficient` when the account holds less.
pub fn transfer_lamports_signed(
    from: &Address,
    from_lamports: u64,
    to: &Address,
    amount: u64,
    signer_seeds: Vec<Vec<u8>>,
) -> (r: Result<LamportTransfer, ArenaErr>)
    ensures
        r is Err <==> from_lamports < amount,
        r matches Err(e) ==> e == ArenaErr::Insufficient,
        r matches Ok(t) ==> t.moves(*from, *to, amount, seeds_view(signer_seeds)),
{
    if from_lamports < amount {
        return Err(ArenaErr::Insufficient);
    }
    Ok(LamportTransfer { from: *from, to: *to, lamports: amount, signer_seeds, instruction: system_transfer(from, to, amount) })
}

/// A lamport move out of an account this program owns (a battle account):
/// the program debits `from` and credits `to` directly, with no system
/// instruction, since the system program only moves lamports out of
/// accounts it owns itself.
#[derive(Clone, Copy, Debug)]
pub struct LamportDebit {
    pub from: Address,
    pub to: Address,
    pub lamports: u64,
}

/// Moves `amount` lamports out of a program-owned account holding
/// `from_lamports` into `to`; refused with `Insufficient` when the account
/// holds less.
pub fn debit_lamports(from: &Address, from_lamports: u64, to: &Address, amount: u64) -> (r: Result<LamportDebit, ArenaErr>)
    ensures
        r is Err <==> from_lamports < amount,
        r matches Err(e) ==> e == ArenaErr::Insufficient,
        r matches Ok(d) ==> d == (LamportDebit { from: *from, to: *to, lamports: amount }),
{
    if from_lamports < amount {
        return Err(ArenaErr::Insufficient);
    }
    Ok(LamportDebit { from: *from, to: *to, lamports: amount })
}

// ------------------------------ Seeds ---------------------------------------

/// `b"global"`
pub open spec fn global_seed_bytes() -> Seq<u8> {
    seq![103u8, 108u8, 111u8, 98u8, 97u8, 108u8]
}

/// `b"reserve"`
pub open spec fn reserve_seed_bytes() -> Seq<u8> {
    seq![114u8, 101u8, 115u8, 101u8, 114u8, 118u8, 101u8]
}

/// `b"forge"`
pub open spec fn forge_seed_bytes() -> Seq<u8> {
    seq![102u8, 111u8, 114u8, 103u8, 101u8]
}

/// `b"arena"`
pub open spec fn arena_seed_bytes() -> Seq<u8> {
    seq![97u8, 114u8, 101u8, 110u8, 97u8]
}

/// `b"battle"`
pub open spec fn battle_seed_bytes() -> Seq<u8> {
    seq![98u8, 97u8, 116u8, 116u8, 108u8, 101u8]
}

/// `b"bet"`
pub open spec fn bet_seed_bytes() -> Seq<u8> {
    seq![98u8, 101u8, 116u8]
}

/// `b"mint"`
pub open spec fn mint_seed_bytes() -> Seq<u8> {
    seq![109u8, 105u8, 110u8, 116u8]
}

/// `b"mint_auth"`
pub open spec fn mint_auth_seed_bytes() -> Seq<u8> {
    seq![109u8, 105u8, 110u8, 116u8, 95u8, 97u8, 117u8, 116u8, 104u8]
}

/// `b"freeze_auth"`
pub open spec fn freeze_auth_seed_bytes() -> Seq<u8> {
    seq![102u8, 114u8, 101u8, 101u8, 122u8, 101u8, 95u8, 97u8, 117u8, 116u8, 104u8]
}

pub fn global_seed() -> (s: Vec<u8>)
    ensures
        s@ == global_seed_bytes(),
{
    let s = vec![103u8, 108u8, 111u8, 98u8, 97u8, 108u8];
    assert(s@ =~= global_seed_bytes());
    s
}

pub fn reserve_seed() -> (s: Vec<u8>)
    ensures
        s@ == reserve_seed_bytes(),
{
    let s = vec![114u8, 101u8, 115u8, 101u8, 114u8, 118u8, 101u8];
    assert(s@ =~= reserve_seed_bytes());
    s
}

pub fn forge_seed() -> (s: Vec<u8>)
    ensures
        s@ == forge_seed_bytes(),
{
    let s = vec![102u8, 111u8, 114u8, 103u8, 101u8];
    assert(s@ =~= forge_seed_bytes());
    s
}

pub fn arena_seed() -> (s: Vec<u8>)
    ensures
        s@ == arena_seed_bytes(),
{
    let s = vec![97u8, 114u8, 101u8, 110u8, 97u8];
    assert(s@ =~= arena_seed_bytes());
    s
}

pub fn battle_seed() -> (s: Vec<u8>)
    ensures
        s@ == battle_seed_bytes(),
{
    let s = vec![98u8, 97u8, 116u8, 116u8, 108u8, 101u8];
    assert(s@ =~= battle_seed_bytes());
    s
}

pub fn bet_seed() -> (s: Vec<u8>)
    ensures
        s@ == bet_seed_bytes(),
{
    let s = vec![98u8, 101u8, 116u8];
    assert(s@ =~= bet_seed_bytes());
    s
}

pub fn mint_seed() -> (s: Vec<u8>)
    ensures
        s@ == mint_seed_bytes(),
{
    let s = vec![109u8, 105u8, 110u8, 116u8];
    assert(s@ =~= mint_seed_bytes());
    s
}

pub fn mint_auth_seed() -> (s: Vec<u8>)
    ensures
        s@ == mint_auth_seed_bytes(),
{
    let s = vec![109u8, 105u8, 110u8, 116u8, 95u8, 97u8, 117u8, 116u8, 104u8];
    assert(s@ =~= mint_auth_seed_bytes());
    s
}

pub fn freeze_auth_seed() -> (s: Vec<u8>)
    ensures
        s@ == freeze_auth_seed_bytes(),
{
    let s = vec![102u8, 114u8, 101u8, 101u8, 122u8, 101u8, 95u8, 97u8, 117u8, 116u8, 104u8];
    assert(s@ =~= freeze_auth_seed_bytes());
    s
}

/// The one-byte seed holding a bump.
fn single_byte(b: u8) -> (s: Vec<u8>)
    ensures
        s@ == seq![b],
{
    let mut s: Vec<u8> = Vec::new();
    s.push(b);
    assert(s@ =~= seq![b]);
    s
}

/// The seeds the reserve vault signs with: `[b"reserve", [bump]]`.
pub open spec fn reserve_signer_seeds_spec(reserve_bump: u8) -> Seq<Seq<u8>> {
    seq![reserve_seed_bytes(), seq![reserve_bump]]
}

pub fn reserve_signer_seeds(reserve_bump: u8) -> (s: Vec<Vec<u8>>)
    ensures
        seeds_view(s) == reserve_signer_seeds_spec(reserve_bump),
{
    let mut s: Vec<Vec<u8>> = Vec::new();
    s.push(reserve_seed());
    s.push(single_byte(reserve_bump));
    assert(seeds_view(s) =~= reserve_signer_seeds_spec(reserve_bump));
    s
}

/// The seeds a forge's mint account signs with: `[b"mint", forge, [bump]]`.
pub open spec fn mint_signer_seeds_spec(forge: Address, bump: u8) -> Seq<Seq<u8>> {
    seq![mint_seed_bytes(), forge@, seq![bump]]
}

pub fn mint_signer_seeds(forge: &Address, bump: u8) -> (s: Vec<Vec<u8>>)
    ensures
        seeds_view(s) == mint_signer_seeds_spec(*forge, bump),
{
    let mut s: Vec<Vec<u8>> = Vec::new();
    s.push(mint_seed());
    s.push(forge.to_vec());
    s.push(single_byte(bump));
    assert(seeds_view(s) =~= mint_signer_seeds_spec(*forge, bump));
    s
}

/// The seeds a mint's authority signs with: `[b"mint_auth", mint, [bump]]`.
pub open spec fn mint_authority_signer_seeds_spec(mint: Address, bump: u8) -> Seq<Seq<u8>> {
    seq![mint_auth_seed_bytes(), mint@, seq![bump]]
}

pub fn mint_authority_signer_seeds(mint: &Address, bump: u8) -> (s: Vec<Vec<u8>>)
    ensures
        seeds_view(s) == mint_authority_signer_seeds_spec(*mint, bump),
{
    let mut s: Vec<Vec<u8>> = Vec::new();
    s.push(mint_auth_seed());
    s.push(mint.to_vec());
    s.push(single_byte(bump));
    assert(seeds_view(s) =~= mint_authority_signer_seeds_spec(*mint, bump));
    s
}

} // verus!
