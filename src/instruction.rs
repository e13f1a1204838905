//! Token-service instructions, built by the token service's own
//! instruction builders and carried as plain values.
use vstd::prelude::*;

use anchor_lang::solana_program::program_error::ProgramError;
use anchor_lang::prelude::Pubkey;

use crate::address::Address;
use crate::error::WrapperError;

verus! {

/// The runtime's `ProgramError`, which the token service's builders return
/// when named a program other than the token service; carried opaquely.
#[verifier::external_type_specification]
#[verifier::external_body]
pub struct ExProgramError(ProgramError);

/// An account an instruction names, and how it uses it.
#[derive(Clone, Copy, Debug)]
pub struct AccountRef {
    pub address: Address,
    pub is_signer: bool,
    pub is_writable: bool,
}

/// An instruction for another program: the token service or the metadata
/// service.
#[derive(Clone, Debug)]
pub struct Instruction {
    pub program_id: Address,
    pub accounts: Vec<AccountRef>,
    pub data: Vec<u8>,
}

/// The identity of the token service.
pub open spec fn token_program_id() -> Seq<u8> {
    seq![
        6u8, 221, 246, 225, 215, 101, 161, 147, 217, 203, 225, 70, 206, 235, 121, 172,
        28, 180, 133, 237, 95, 91, 55, 145, 58, 140, 245, 133, 126, 255, 0, 169,
    ]
}

/// The eight little-endian bytes of `n`.
pub open spec fn le_bytes(n: u64) -> Seq<u8> {
    Seq::new(8, |i: int| ((n as int / pow256(i)) % 256) as u8)
}

pub open spec fn pow256(i: int) -> int
    decreases i,
{
    if i <= 0 {
        1
    } else {
        256 * pow256(i - 1)
    }
}

/// Whether `a` names `address` with the given uses.
pub open spec fn names(a: AccountRef, address: Address, is_signer: bool, is_writable: bool) -> bool {
    a.address@ == address@ && a.is_signer == is_signer && a.is_writable == is_writable
}

/// Whether `ix` is the token service's instruction with code `code` and
/// `amount` over the writable accounts `first` and `second`, authorized by
/// the signature of `authority`.
pub open spec fn is_token_instruction(
    ix: Instruction,
    code: u8,
    first: Address,
    second: Address,
    authority: Address,
    amount: u64,
) -> bool {
    &&& ix.program_id@ == token_program_id()
    &&& ix.data@ == seq![code] + le_bytes(amount)
    &&& ix.accounts@.len() == 3
    &&& names(ix.accounts@[0], first, false, true)
    &&& names(ix.accounts@[1], second, false, true)
    &&& names(ix.accounts@[2], authority, true, false)
}

/// Code of the token service's transfer.
pub const TRANSFER: u8 = 3;
/// Code of the token service's mint.
pub const MINT_TO: u8 = 7;
/// Code of the token service's burn.
pub const BURN: u8 = 8;

/// What a built instruction becomes as a plain value.
pub open spec fn built(r: Result<Instruction, ProgramError>, program: Address, code: u8, first: Address, second: Address, authority: Address, amount: u64) -> bool {
    &&& (r is Ok) == (program@ == token_program_id())
    &&& r matches Ok(ix) ==> is_token_instruction(ix, code, first, second, authority, amount)
}

/// Relies on `spl_token::instruction::transfer`: with no multisignature
/// signers it fails exactly when `program` is not the token service, and
/// otherwise names the source, the destination and the signing authority,
/// with data 3 followed by the amount in little-endian bytes.
#[verifier::external_body]
fn transfer_instruction(program: &Address, source: &Address, destination: &Address, authority: &Address, amount: u64) -> (r: Result<Instruction, ProgramError>)
    ensures
        built(r, *program, TRANSFER, *source, *destination, *authority, amount),
{
    let ix = spl_token::instruction::transfer(&Pubkey::from(program.bytes), &Pubkey::from(source.bytes), &Pubkey::from(destination.bytes), &Pubkey::from(authority.bytes), &[], amount)?;
    let accounts = ix.accounts.iter().map(|m| AccountRef { address: Address { bytes: m.pubkey.to_bytes() }, is_signer: m.is_signer, is_writable: m.is_writable });
    Ok(Instruction { program_id: Address { bytes: ix.program_id.to_bytes() }, accounts: accounts.collect(), data: ix.data })
}

/// Relies on `spl_token::instruction::mint_to`: with no multisignature
/// signers it fails exactly when `program` is not the token service, and
/// otherwise names the mint, the receiving account and the signing mint
/// authority, with data 7 followed by the amount in little-endian bytes.
#[verifier::external_body]
fn mint_to_instruction(program: &Address, mint: &Address, account: &Address, authority: &Address, amount: u64) -> (r: Result<Instruction, ProgramError>)
    ensures
        built(r, *program, MINT_TO, *mint, *account, *authority, amount),
{
    let ix = spl_token::instruction::mint_to(&Pubkey::from(program.bytes), &Pubkey::from(mint.bytes), &Pubkey::from(account.bytes), &Pubkey::from(authority.bytes), &[], amount)?;
    let accounts = ix.accounts.iter().map(|m| AccountRef { address: Address { bytes: m.pubkey.to_bytes() }, is_signer: m.is_signer, is_writable: m.is_writable });
    Ok(Instruction { program_id: Address { bytes: ix.program_id.to_bytes() }, accounts: accounts.collect(), data: ix.data })
}

/// Relies on `spl_token::instruction::burn`: with no multisignature signers
/// it fails exactly when `program` is not the token service, and otherwise
/// names the burning account, the mint and the signing owner, with data 8
/// followed by the amount in little-endian bytes.
#[verifier::external_body]
fn burn_instruction(program: &Address, account: &Address, mint: &Address, authority: &Address, amount: u64) -> (r: Result<Instruction, ProgramError>)
    ensures
        built(r, *program, BURN, *account, *mint, *authority, amount),
{
    let ix = spl_token::instruction::burn(&Pubkey::from(program.bytes), &Pubkey::from(account.bytes), &Pubkey::from(mint.bytes), &Pubkey::from(authority.bytes), &[], amount)?;
    let accounts = ix.accounts.iter().map(|m| AccountRef { address: Address { bytes: m.pubkey.to_bytes() }, is_signer: m.is_signer, is_writable: m.is_writable });
    Ok(Instruction { program_id: Address { bytes: ix.program_id.to_bytes() }, accounts: accounts.collect(), data: ix.data })
}

/// Builds the token service's transfer of `amount` from `source` to
/// `destination` under `authority`'s signature.
pub fn transfer(program: &Address, source: &Address, destination: &Address, authority: &Address, amount: u64) -> (r: Result<Instruction, WrapperError>)
    ensures
        (r is Ok) == (program@ == token_program_id()),
        r is Err ==> r == Err::<Instruction, WrapperError>(WrapperError::IncorrectProgramId),
        r matches Ok(ix) ==> is_token_instruction(ix, TRANSFER, *source, *destination, *authority, amount),
{
    match transfer_instruction(program, source, destination, authority, amount) {
        Ok(ix) => Ok(ix),
        Err(_) => Err(WrapperError::IncorrectProgramId),
    }
}

/// Builds the token service's mint of `amount` units of `mint` into
/// `account` under `authority`'s signature.
pub fn mint_to(program: &Address, mint: &Address, account: &Address, authority: &Address, amount: u64) -> (r: Result<Instruction, WrapperError>)
    ensures
        (r is Ok) == (program@ == token_program_id()),
        r is Err ==> r == Err::<Instruction, WrapperError>(WrapperError::IncorrectProgramId),
        r matches Ok(ix) ==> is_token_instruction(ix, MINT_TO, *mint, *account, *authority, amount),
{
    match mint_to_instruction(program, mint, account, authority, amount) {
        Ok(ix) => Ok(ix),
        Err(_) => Err(WrapperError::IncorrectProgramId),
    }
}

/// Builds the token service's burn of `amount` units of `mint` from
/// `account` under `authority`'s signature.
pub fn burn(program: &Address, account: &Address, mint: &Address, authority: &Address, amount: u64) -> (r: Result<Instruction, WrapperError>)
    ensures
        (r is Ok) == (program@ == token_program_id()),
        r is Err ==> r == Err::<Instruction, WrapperError>(WrapperError::IncorrectProgramId),
        r matches Ok(ix) ==> is_token_instruction(ix, BURN, *account, *mint, *authority, amount),
{
    match burn_instruction(program, account, mint, authority, amount) {
        Ok(ix) => Ok(ix),
        Err(_) => Err(WrapperError::IncorrectProgramId),
    }
}

} // verus!
