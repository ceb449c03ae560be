use vstd::prelude::*;
use vstd::bytes::spec_u64_to_le_bytes;
use anchor_lang::solana_program::pubkey::Pubkey;
use anchor_lang::solana_program::system_instruction;
use anchor_lang::solana_program::program_pack::Pack;
use crate::address::Address;

verus! {

/// One account reference of an instruction.
#[derive(Clone, Copy, Debug)]
pub struct AccountMetaData {
    pub pubkey: Address,
    pub is_signer: bool,
    pub is_writable: bool,
}

/// An instruction for another program, held as plain values.
#[derive(Debug)]
pub struct InstructionData {
    pub program_id: Address,
    pub accounts: Vec<AccountMetaData>,
    pub data: Vec<u8>,
}

/// The system program's address: 32 zero bytes.
pub open spec fn system_program_id() -> Seq<u8> {
    Seq::new(32, |i: int| 0u8)
}

/// `ix` asks the system program to move `lamports` from `from` (a writable
/// signer) to `to` (writable): variant 2 of the system instruction enum,
/// bincode-encoded as a little-endian `u32` tag and a little-endian `u64`.
pub open spec fn is_system_transfer(ix: InstructionData, from: Address, to: Address, lamports: u64) -> bool {
    &&& ix.program_id@ == system_program_id()
    &&& ix.accounts@ == seq![
        AccountMetaData { pubkey: from, is_signer: true, is_writable: true },
        AccountMetaData { pubkey: to, is_signer: false, is_writable: true },
    ]
    &&& ix.data@ == seq![2u8, 0u8, 0u8, 0u8] + spec_u64_to_le_bytes(lamports)
}

/// `ix` asks the system program to create account `to`, funded by `from`
/// with `lamports`, with `space` bytes of data owned by `owner`: variant 0
/// of the system instruction enum, bincode-encoded.
pub open spec fn is_system_create_account(
    ix: InstructionData,
    from: Address,
    to: Address,
    lamports: u64,
    space: u64,
    owner: Address,
) -> bool {
    &&& ix.program_id@ == system_program_id()
    &&& ix.accounts@ == seq![
        AccountMetaData { pubkey: from, is_signer: true, is_writable: true },
        AccountMetaData { pubkey: to, is_signer: true, is_writable: true },
    ]
    &&& ix.data@ == seq![0u8, 0u8, 0u8, 0u8] + spec_u64_to_le_bytes(lamports) + spec_u64_to_le_bytes(space) + owner@
}

/// Calls `solana_program::system_instruction::transfer`, which builds the
/// system program's `Transfer { lamports }` instruction with `from` as
/// writable signer and `to` as writable account; the contract restates
/// that instruction field by field.
#[verifier::external_body]
pub(crate) fn system_transfer(from: &Address, to: &Address, lamports: u64) -> (ix: InstructionData)
    ensures
        is_system_transfer(ix, *from, *to, lamports),
{
    let ix = system_instruction::transfer(&Pubkey::new_from_array(from.bytes), &Pubkey::new_from_array(to.bytes), lamports);
    let mut accounts = Vec::new();
    for m in ix.accounts.iter() {
        accounts.push(AccountMetaData { pubkey: Address { bytes: m.pubkey.to_bytes() }, is_signer: m.is_signer, is_writable: m.is_writable });
    }
    InstructionData { program_id: Address { bytes: ix.program_id.to_bytes() }, accounts, data: ix.data }
}

/// Calls `solana_program::system_instruction::create_account`, which builds
/// the system program's `CreateAccount { lamports, space, owner }`
/// instruction with `from` and `to` both writable signers; the contract
/// restates that instruction field by field.
#[verifier::external_body]
pub(crate) fn system_create_account(from: &Address, to: &Address, lamports: u64, space: u64, owner: &Address) -> (ix: InstructionData)
    ensures
        is_system_create_account(ix, *from, *to, lamports, space, *owner),
{
    let owner = Pubkey::new_from_array(owner.bytes);
    let ix = system_instruction::create_account(&Pubkey::new_from_array(from.bytes), &Pubkey::new_from_array(to.bytes), lamports, space, &owner);
    let mut accounts = Vec::new();
    for m in ix.accounts.iter() {
        accounts.push(AccountMetaData { pubkey: Address { bytes: m.pubkey.to_bytes() }, is_signer: m.is_signer, is_writable: m.is_writable });
    }
    InstructionData { program_id: Address { bytes: ix.program_id.to_bytes() }, accounts, data: ix.data }
}

/// Reads `spl_token::state::Mint::LEN`, the packed size of a token mint
/// account, which the token program's `Pack` impl for `Mint` sets to 82.
#[verifier::external_body]
pub(crate) fn mint_account_len() -> (n: usize)
    ensures
        n == 82,
{
    anchor_spl::token::spl_token::state::Mint::LEN
}

} // verus!
