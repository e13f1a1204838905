//! The accounts each instruction reads and writes, as plain values.
use vstd::prelude::*;

use crate::address::Address;
use crate::state::WrapperData;

verus! {

/// A token mint: its precision, its outstanding supply and who may mint.
#[derive(Clone, Copy, Debug)]
pub struct MintAccount {
    pub address: Address,
    pub decimals: u8,
    pub supply: u64,
    pub mint_authority: Option<Address>,
}

/// A token-holding account: which mint it holds, who owns it, how much.
#[derive(Clone, Copy, Debug)]
pub struct TokenAccount {
    pub address: Address,
    pub mint: Address,
    pub owner: Address,
    pub amount: u64,
}

/// The accounts of `initialize`. `wrapper_data` and `wrapper_mint` hold the
/// current contents of the two accounts to be created: `None` while they
/// do not exist yet.
#[derive(Debug)]
pub struct Initialize {
    pub wrapper_data_address: Address,
    pub wrapper_data: Option<WrapperData>,
    pub wrapper_mint_address: Address,
    pub wrapper_mint: Option<MintAccount>,
    pub original_mint: MintAccount,
    pub metadata_account: Address,
    pub token_metadata_program: Address,
    pub mint_authority: Address,
    pub payer: Address,
    pub authority: Address,
    pub program_id: Address,
}

/// The accounts of `wrap`.
#[derive(Debug)]
pub struct Wrap {
    pub wrapper_data_address: Address,
    pub wrapper_data: WrapperData,
    pub original_mint: MintAccount,
    pub wrapper_mint: MintAccount,
    pub user_original_token_account: TokenAccount,
    pub user_wrapper_token_account: TokenAccount,
    pub vault_token_account: TokenAccount,
    pub user_authority: Address,
    pub token_program: Address,
    pub program_id: Address,
}

/// The accounts of `unwrap`: the same set as `wrap`.
#[derive(Debug)]
pub struct Unwrap {
    pub wrapper_data_address: Address,
    pub wrapper_data: WrapperData,
    pub original_mint: MintAccount,
    pub wrapper_mint: MintAccount,
    pub user_original_token_account: TokenAccount,
    pub user_wrapper_token_account: TokenAccount,
    pub vault_token_account: TokenAccount,
    pub user_authority: Address,
    pub token_program: Address,
    pub program_id: Address,
}

} // verus!
