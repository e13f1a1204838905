use std::str::FromStr;

use anchor_lang::prelude::Pubkey;
use mpl_token_metadata::instructions::CreateV1Builder;
use mpl_token_metadata::types::TokenStandard;
use oldfart::{
    derive_address, derive_metadata_address, initialize, unwrap, wrap, Address, Initialize,
    MintAccount, SeedTag, TokenAccount, Instruction, Unwrap, Wrap, WrapperData, WrapperError,
    CONFIGURED_ASSET, DEFAULT_URI,
};

const PROGRAM: &str = "AYJhUBEebntBVPvnKmNNymQHLTnQKkdKRyx8aspb3qe5";

fn pubkey(a: &Address) -> Pubkey {
    Pubkey::new_from_array(a.bytes)
}

fn key(text: &str) -> Address {
    Address::new(Pubkey::from_str(text).unwrap().to_bytes())
}

fn program() -> Address {
    key(PROGRAM)
}

fn asset() -> Address {
    key(CONFIGURED_ASSET)
}

fn metadata_program() -> Address {
    Address::new(mpl_token_metadata::ID.to_bytes())
}

fn found(tag: SeedTag, original: &Address) -> (Address, u8) {
    derive_address(tag, original, &program()).unwrap()
}

fn init_accounts(original: Address) -> Initialize {
    let data = derive_address(SeedTag::Data, &original, &program()).map(|d| d.0);
    let mint = derive_address(SeedTag::Wrapper, &original, &program()).map(|d| d.0);
    let mint_address = mint.unwrap_or(Address::new([0; 32]));
    let metadata = derive_metadata_address(&metadata_program(), &mint_address).unwrap().0;
    Initialize {
        wrapper_data_address: data.unwrap_or(Address::new([0; 32])),
        wrapper_data: None,
        wrapper_mint_address: mint_address,
        wrapper_mint: None,
        original_mint: MintAccount {
            address: original,
            decimals: 6,
            supply: 1_000_000_000,
            mint_authority: None,
        },
        metadata_account: metadata,
        token_metadata_program: metadata_program(),
        mint_authority: Address::new([3; 32]),
        payer: Address::new([4; 32]),
        authority: Address::new([5; 32]),
        program_id: program(),
    }
}

fn initialized() -> WrapperData {
    let mut ctx = init_accounts(asset());
    initialize(&mut ctx, None).unwrap();
    ctx.wrapper_data.unwrap()
}

fn holder() -> Address {
    Address::new([9; 32])
}

fn associated(mint: &Address) -> Address {
    let a = anchor_spl::associated_token::get_associated_token_address(&pubkey(&holder()), &pubkey(mint));
    Address::new(a.to_bytes())
}

fn holder_original_account() -> Address {
    associated(&asset())
}

fn holder_wrapper_account() -> Address {
    associated(&found(SeedTag::Wrapper, &asset()).0)
}

fn wrap_accounts(held: u64, wrapped: u64, custody: u64, supply: u64) -> Wrap {
    let data = initialized();
    let (vault, _) = found(SeedTag::Vault, &asset());
    Wrap {
        wrapper_data_address: found(SeedTag::Data, &asset()).0,
        original_mint: MintAccount { address: asset(), decimals: 6, supply: 1_000_000_000, mint_authority: None },
        wrapper_mint: MintAccount { address: data.wrapper_mint, decimals: 6, supply, mint_authority: Some(data.wrapper_mint) },
        user_original_token_account: TokenAccount { address: holder_original_account(), mint: asset(), owner: holder(), amount: held },
        user_wrapper_token_account: TokenAccount { address: holder_wrapper_account(), mint: data.wrapper_mint, owner: holder(), amount: wrapped },
        vault_token_account: TokenAccount { address: vault, mint: asset(), owner: vault, amount: custody },
        user_authority: holder(),
        token_program: Address::new(spl_token::id().to_bytes()),
        program_id: program(),
        wrapper_data: data,
    }
}

fn unwrap_accounts(w: Wrap) -> Unwrap {
    Unwrap {
        wrapper_data_address: w.wrapper_data_address,
        wrapper_data: w.wrapper_data,
        original_mint: w.original_mint,
        wrapper_mint: w.wrapper_mint,
        user_original_token_account: w.user_original_token_account,
        user_wrapper_token_account: w.user_wrapper_token_account,
        vault_token_account: w.vault_token_account,
        user_authority: w.user_authority,
        token_program: w.token_program,
        program_id: w.program_id,
    }
}

fn wrap_from(u: Unwrap) -> Wrap {
    Wrap {
        wrapper_data_address: u.wrapper_data_address,
        wrapper_data: u.wrapper_data,
        original_mint: u.original_mint,
        wrapper_mint: u.wrapper_mint,
        user_original_token_account: u.user_original_token_account,
        user_wrapper_token_account: u.user_wrapper_token_account,
        vault_token_account: u.vault_token_account,
        user_authority: u.user_authority,
        token_program: u.token_program,
        program_id: u.program_id,
    }
}

fn counters(w: &Wrap) -> (u64, u64, u64, u64) {
    (
        w.user_original_token_account.amount,
        w.user_wrapper_token_account.amount,
        w.vault_token_account.amount,
        w.wrapper_mint.supply,
    )
}

#[test]
fn initialize_wrap_unwrap_scenario() {
    let mut ctx = init_accounts(asset());
    let request = initialize(&mut ctx, None).unwrap();
    let data = ctx.wrapper_data.as_ref().unwrap();
    let (wrapper, bump) = found(SeedTag::Wrapper, &asset());
    assert_eq!(data.original_mint, asset());
    assert_eq!(data.wrapper_mint, wrapper);
    assert_eq!(data.wrapper_mint_bump, bump);
    assert_eq!(data.authority, Address::new([5; 32]));
    assert_eq!(data.name, "oldFART");
    assert_eq!(data.symbol, "oldFART");
    assert_eq!(data.uri, DEFAULT_URI);
    assert_eq!(data.uri, "https://arweave.net/oldfart-metadata-uri");
    let mint = ctx.wrapper_mint.unwrap();
    assert_eq!(mint.decimals, 6);
    assert_eq!(mint.supply, 0);
    assert_eq!(mint.mint_authority, Some(wrapper));
    let expected = CreateV1Builder::new()
        .metadata(pubkey(&ctx.metadata_account))
        .mint(pubkey(&wrapper), false)
        .authority(pubkey(&ctx.mint_authority))
        .payer(pubkey(&ctx.payer))
        .update_authority(pubkey(&ctx.mint_authority), true)
        .name("oldFART".to_string())
        .symbol("oldFART".to_string())
        .uri(DEFAULT_URI.to_string())
        .seller_fee_basis_points(0)
        .token_standard(TokenStandard::NonFungible)
        .instruction();
    assert_eq!(request.program_id, Address::new(mpl_token_metadata::ID.to_bytes()));
    assert_eq!(request.data, expected.data);
    assert_eq!(request.data[..2], [42, 0]);
    assert_eq!(request.accounts.len(), 9);
    assert_eq!(request.accounts[0].address, ctx.metadata_account);
    assert_eq!(request.accounts[2].address, wrapper);
    assert!(request.accounts[4].is_signer && request.accounts[4].is_writable);

    let mut w = wrap_accounts(5000, 0, 0, 0);
    wrap(&mut w, 1000).unwrap();
    assert_eq!(counters(&w), (4000, 1000, 1000, 1000));
    let mut u = unwrap_accounts(w);
    unwrap(&mut u, 400).unwrap();
    assert_eq!(u.vault_token_account.amount, 600);
    assert_eq!(u.user_wrapper_token_account.amount, 600);
    assert_eq!(u.user_original_token_account.amount, 4400);
    assert_eq!(u.wrapper_mint.supply, 600);
}

#[test]
fn initialize_with_given_uri() {
    let mut ctx = init_accounts(asset());
    let with_uri = initialize(&mut ctx, Some("https://example.org/m.json".to_string())).unwrap();
    assert_eq!(ctx.wrapper_data.unwrap().uri, "https://example.org/m.json");
    let mut plain = init_accounts(asset());
    let with_default = initialize(&mut plain, None).unwrap();
    assert_ne!(with_uri.data, with_default.data);
    assert_eq!(with_uri.accounts.len(), with_default.accounts.len());
}

#[test]
fn second_initialize_fails() {
    let mut ctx = init_accounts(asset());
    initialize(&mut ctx, Some("first".to_string())).unwrap();
    let r = initialize(&mut ctx, Some("second".to_string()));
    assert_eq!(r.unwrap_err(), WrapperError::AlreadyInitialized);
    let data = ctx.wrapper_data.unwrap();
    assert_eq!(data.uri, "first");
    assert_eq!(data.authority, Address::new([5; 32]));
}

#[test]
fn initialize_rejects_other_asset() {
    let other = key("So11111111111111111111111111111111111111112");
    let mut ctx = init_accounts(other);
    let r = initialize(&mut ctx, None);
    assert_eq!(r.unwrap_err(), WrapperError::AssetMismatch);
    assert!(ctx.wrapper_data.is_none());
    assert!(ctx.wrapper_mint.is_none());
}

#[test]
fn initialize_rejects_wrong_state_address() {
    let mut ctx = init_accounts(asset());
    ctx.wrapper_data_address = Address::new([1; 32]);
    assert_eq!(initialize(&mut ctx, None).unwrap_err(), WrapperError::ConstraintSeeds);
    assert!(ctx.wrapper_data.is_none());
}

#[test]
fn initialize_rejects_oversized_uri() {
    let mut ctx = init_accounts(asset());
    // 109 fixed bytes + 7 + 7 leave room for 228 bytes of URI
    let fits = "u".repeat(228);
    let too_long = "u".repeat(229);
    let r = initialize(&mut ctx, Some(too_long));
    assert_eq!(r.unwrap_err(), WrapperError::CapacityExceeded);
    assert!(ctx.wrapper_data.is_none());
    assert!(initialize(&mut ctx, Some(fits)).is_ok());
}

#[test]
fn derivation_is_deterministic() {
    let a = found(SeedTag::Vault, &asset());
    let b = found(SeedTag::Vault, &asset());
    assert_eq!(a, b);
    let c = found(SeedTag::Wrapper, &asset());
    assert_eq!(c, found(SeedTag::Wrapper, &asset()));
    assert_eq!(found(SeedTag::Data, &asset()), found(SeedTag::Data, &asset()));
    assert_ne!(a.0, c.0);
}

#[test]
fn derivation_matches_program_address_search() {
    let original = Pubkey::from_str(CONFIGURED_ASSET).unwrap();
    let program_key = Pubkey::from_str(PROGRAM).unwrap();
    let (expected, bump) = Pubkey::find_program_address(&[b"vault", original.as_ref()], &program_key);
    let (got, got_bump) = found(SeedTag::Vault, &asset());
    assert_eq!(got, Address::new(expected.to_bytes()));
    assert_eq!(got_bump, bump);
    let (expected, bump) = Pubkey::find_program_address(&[b"wrapper", original.as_ref()], &program_key);
    assert_eq!(found(SeedTag::Wrapper, &asset()), (Address::new(expected.to_bytes()), bump));
    let (expected, bump) = Pubkey::find_program_address(&[b"data", original.as_ref()], &program_key);
    assert_eq!(found(SeedTag::Data, &asset()), (Address::new(expected.to_bytes()), bump));
}

#[test]
fn wrap_then_unwrap_restores_balances() {
    let mut w = wrap_accounts(777, 23, 50, 50);
    let before = counters(&w);
    wrap(&mut w, 300).unwrap();
    let mut u = unwrap_accounts(w);
    unwrap(&mut u, 300).unwrap();
    assert_eq!(counters(&wrap_from(u)), before);
}

#[test]
fn failed_mint_leaves_holder_unchanged() {
    // the transfer would succeed, but minting would overflow the supply
    let mut w = wrap_accounts(1000, 0, 0, u64::MAX - 10);
    let r = wrap(&mut w, 100);
    assert_eq!(r.unwrap_err(), WrapperError::Overflow);
    assert_eq!(counters(&w), (1000, 0, 0, u64::MAX - 10));
}

#[test]
fn wrap_without_funds_fails() {
    let mut w = wrap_accounts(10, 0, 0, 0);
    assert_eq!(wrap(&mut w, 11).unwrap_err(), WrapperError::InsufficientFunds);
    assert_eq!(counters(&w), (10, 0, 0, 0));
}

#[test]
fn unwrap_without_wrapper_units_fails() {
    let mut u = unwrap_accounts(wrap_accounts(0, 5, 5, 5));
    assert_eq!(unwrap(&mut u, 6).unwrap_err(), WrapperError::InsufficientFunds);
    assert_eq!(counters(&wrap_from(u)), (0, 5, 5, 5));
}

#[test]
fn unwrap_with_short_custody_signals_defect() {
    let mut u = unwrap_accounts(wrap_accounts(0, 5, 2, 5));
    assert_eq!(unwrap(&mut u, 5).unwrap_err(), WrapperError::InvariantViolation);
    assert_eq!(counters(&wrap_from(u)), (0, 5, 2, 5));
}

#[test]
fn unwrap_overflowing_holder_fails() {
    let mut u = unwrap_accounts(wrap_accounts(u64::MAX, 5, 5, 5));
    assert_eq!(unwrap(&mut u, 1).unwrap_err(), WrapperError::Overflow);
}

#[test]
fn wrap_rejects_foreign_vault() {
    let mut w = wrap_accounts(100, 0, 0, 0);
    w.vault_token_account.address = Address::new([13; 32]);
    w.vault_token_account.owner = Address::new([13; 32]);
    assert_eq!(wrap(&mut w, 10).unwrap_err(), WrapperError::ConstraintSeeds);
    assert_eq!(counters(&w), (100, 0, 0, 0));
}

#[test]
fn wrap_rejects_account_of_another_owner() {
    let mut w = wrap_accounts(100, 0, 0, 0);
    w.user_original_token_account.owner = Address::new([14; 32]);
    assert_eq!(wrap(&mut w, 10).unwrap_err(), WrapperError::ConstraintTokenAccount);
}

#[test]
fn wrap_rejects_wrong_bump() {
    let mut w = wrap_accounts(100, 0, 0, 0);
    w.wrapper_data.wrapper_mint_bump = w.wrapper_data.wrapper_mint_bump.wrapping_add(1);
    assert_eq!(wrap(&mut w, 10).unwrap_err(), WrapperError::ConstraintSeeds);
}

fn accounts_of(ix: &Instruction) -> Vec<(Address, bool, bool)> {
    ix.accounts.iter().map(|a| (a.address, a.is_signer, a.is_writable)).collect()
}

fn data_of(code: u8, amount: u64) -> Vec<u8> {
    let mut data = vec![code];
    data.extend_from_slice(&amount.to_le_bytes());
    data
}

#[test]
fn wrap_instructions_are_transfer_then_signed_mint() {
    let mut w = wrap_accounts(100, 0, 0, 0);
    let vault = w.vault_token_account.address;
    let mint = w.wrapper_mint.address;
    let token = w.token_program;
    let (first, second) = wrap(&mut w, 10).unwrap();
    assert_eq!(first.instruction.program_id, token);
    assert_eq!(first.instruction.data, data_of(3, 10));
    assert_eq!(
        accounts_of(&first.instruction),
        vec![(holder_original_account(), false, true), (vault, false, true), (holder(), true, false)]
    );
    assert!(first.signer.is_none());
    assert_eq!(second.instruction.data, vec![7, 10, 0, 0, 0, 0, 0, 0, 0]);
    assert_eq!(
        accounts_of(&second.instruction),
        vec![(mint, false, true), (holder_wrapper_account(), false, true), (mint, true, false)]
    );
    let seeds = second.signer.unwrap();
    assert_eq!(seeds.tag, SeedTag::Wrapper);
    assert_eq!(seeds.original, asset());
    assert_eq!(seeds.bump, found(SeedTag::Wrapper, &asset()).1);
}

#[test]
fn unwrap_release_is_signed_by_custody() {
    let mut u = unwrap_accounts(wrap_accounts(0, 10, 10, 10));
    let mint = u.wrapper_mint.address;
    let (first, second) = unwrap(&mut u, 4).unwrap();
    assert_eq!(first.instruction.data, data_of(8, 4));
    assert_eq!(
        accounts_of(&first.instruction),
        vec![(holder_wrapper_account(), false, true), (mint, false, true), (holder(), true, false)]
    );
    assert!(first.signer.is_none());
    let (vault, vault_bump) = found(SeedTag::Vault, &asset());
    assert_eq!(second.instruction.data, data_of(3, 4));
    assert_eq!(
        accounts_of(&second.instruction),
        vec![(vault, false, true), (holder_original_account(), false, true), (vault, true, false)]
    );
    let seeds = second.signer.unwrap();
    assert_eq!(seeds.tag, SeedTag::Vault);
    assert_eq!(seeds.bump, vault_bump);
}

#[test]
fn wrap_rejects_foreign_token_service() {
    let mut w = wrap_accounts(100, 0, 0, 0);
    w.token_program = Address::new([15; 32]);
    assert_eq!(wrap(&mut w, 10).unwrap_err(), WrapperError::IncorrectProgramId);
    assert_eq!(counters(&w), (100, 0, 0, 0));
    let mut u = unwrap_accounts(wrap_accounts(0, 10, 10, 10));
    u.token_program = Address::new([15; 32]);
    assert_eq!(unwrap(&mut u, 1).unwrap_err(), WrapperError::IncorrectProgramId);
}

#[test]
fn solvency_holds_over_a_sequence() {
    let mut w = wrap_accounts(10_000, 0, 0, 0);
    for (i, amount) in [500u64, 20, 7000, 3, 9999, 1].iter().enumerate() {
        if i % 2 == 0 {
            let _ = wrap(&mut w, *amount);
        } else {
            let mut u = unwrap_accounts(w);
            let _ = unwrap(&mut u, *amount);
            w = wrap_from(u);
        }
        assert_eq!(w.wrapper_mint.supply, w.vault_token_account.amount);
    }
    assert_eq!(counters(&w), (2524, 7476, 7476, 7476));
}

#[test]
fn configured_asset_is_recognised_by_text() {
    let mut ctx = init_accounts(asset());
    assert!(initialize(&mut ctx, None).is_ok());
    let mut bytes = asset().bytes;
    bytes[0] ^= 1;
    let mut other = init_accounts(Address::new(bytes));
    assert_eq!(initialize(&mut other, None).unwrap_err(), WrapperError::AssetMismatch);
}

#[test]
fn metadata_address_matches_service_derivation() {
    let service = mpl_token_metadata::ID;
    let mint = Pubkey::new_from_array([21; 32]);
    let (expected, bump) =
        Pubkey::find_program_address(&[b"metadata", service.as_ref(), mint.as_ref()], &service);
    let (got, got_bump) = derive_metadata_address(&metadata_program(), &Address::new([21; 32])).unwrap();
    assert_eq!(got, Address::new(expected.to_bytes()));
    assert_eq!(got_bump, bump);
}

#[test]
fn wrap_rejects_account_not_associated() {
    let mut w = wrap_accounts(100, 0, 0, 0);
    w.user_original_token_account.address = Address::new([16; 32]);
    assert_eq!(wrap(&mut w, 10).unwrap_err(), WrapperError::ConstraintTokenAccount);
    assert_eq!(counters(&w), (100, 0, 0, 0));
}
