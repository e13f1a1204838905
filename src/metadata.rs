//! The instruction that registers the wrapper asset's descriptive record
//! with the external metadata service.
use vstd::prelude::*;

use anchor_lang::prelude::Pubkey;
use mpl_token_metadata::instructions::CreateV1Builder;
use mpl_token_metadata::types::TokenStandard;

use crate::address::Address;
use crate::instruction::{AccountRef, Instruction};

verus! {

/// The identity of the metadata service.
pub open spec fn metadata_program_id() -> Seq<u8> {
    seq![
        11u8, 112, 101, 177, 227, 209, 124, 69, 56, 157, 82, 127, 107, 4, 195, 205,
        88, 184, 108, 115, 26, 160, 253, 181, 73, 182, 209, 188, 3, 248, 41, 70,
    ]
}

/// The identity of the system program.
pub open spec fn system_program_id() -> Seq<u8> {
    Seq::new(32, |i: int| 0u8)
}

/// The identity of the instructions sysvar.
pub open spec fn instructions_sysvar_id() -> Seq<u8> {
    seq![
        6u8, 167, 213, 23, 24, 123, 209, 102, 53, 218, 212, 4, 85, 253, 194, 192,
        193, 36, 198, 143, 33, 86, 117, 165, 219, 186, 203, 95, 8, 0, 0, 0,
    ]
}

/// The serialized arguments of the metadata service's create, version one,
/// for a record with this name, symbol and URI, no seller fee, no creators
/// and the non-fungible token standard.
pub uninterp spec fn create_args_of(name: Seq<char>, symbol: Seq<char>, uri: Seq<char>) -> Seq<u8>;

/// Whether `a` names the identity `id` with the given uses.
pub open spec fn names_id(a: AccountRef, id: Seq<u8>, is_signer: bool, is_writable: bool) -> bool {
    a.address@ == id && a.is_signer == is_signer && a.is_writable == is_writable
}

/// Whether `ix` is the metadata service's create of the record `metadata`
/// for `mint`, minted under `authority`, paid by `payer`, updatable by the
/// signing `update_authority`, with this name, symbol and URI.
pub open spec fn is_create_metadata(
    ix: Instruction,
    metadata: Address,
    mint: Address,
    authority: Address,
    payer: Address,
    update_authority: Address,
    name: Seq<char>,
    symbol: Seq<char>,
    uri: Seq<char>,
) -> bool {
    &&& ix.program_id@ == metadata_program_id()
    &&& ix.data@ == seq![42u8, 0u8] + create_args_of(name, symbol, uri)
    &&& ix.accounts@.len() == 9
    &&& names_id(ix.accounts@[0], metadata@, false, true)
    &&& names_id(ix.accounts@[1], metadata_program_id(), false, false)
    &&& names_id(ix.accounts@[2], mint@, false, true)
    &&& names_id(ix.accounts@[3], authority@, true, false)
    &&& names_id(ix.accounts@[4], payer@, true, true)
    &&& names_id(ix.accounts@[5], update_authority@, true, false)
    &&& names_id(ix.accounts@[6], system_program_id(), false, false)
    &&& names_id(ix.accounts@[7], instructions_sysvar_id(), false, false)
    &&& names_id(ix.accounts@[8], metadata_program_id(), false, false)
}

/// Relies on `CreateV1Builder::instruction` of the metadata service: with
/// no master edition and no token program given, the accounts are those
/// below, the data is the create discriminators 42 and 0 followed by the
/// serialized arguments.
#[verifier::external_body]
pub(crate) fn create_metadata_instruction(
    metadata: &Address,
    mint: &Address,
    authority: &Address,
    payer: &Address,
    update_authority: &Address,
    name: &String,
    symbol: &String,
    uri: &String,
) -> (r: Instruction)
    ensures
        is_create_metadata(r, *metadata, *mint, *authority, *payer, *update_authority, name@, symbol@, uri@),
        r.data@ == seq![42u8, 0u8] + create_args_of(name@, symbol@, uri@),
{
    let ix = CreateV1Builder::new().metadata(Pubkey::from(metadata.bytes)).mint(Pubkey::from(mint.bytes), false)
        .authority(Pubkey::from(authority.bytes)).payer(Pubkey::from(payer.bytes))
        .update_authority(Pubkey::from(update_authority.bytes), true).name(name.clone()).symbol(symbol.clone())
        .uri(uri.clone()).seller_fee_basis_points(0).token_standard(TokenStandard::NonFungible).instruction();
    let accounts = ix.accounts.iter().map(|m| AccountRef { address: Address { bytes: m.pubkey.to_bytes() }, is_signer: m.is_signer, is_writable: m.is_writable });
    Instruction { program_id: Address { bytes: ix.program_id.to_bytes() }, accounts: accounts.collect(), data: ix.data }
}

} // verus!
