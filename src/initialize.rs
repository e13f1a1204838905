//! One-time creation of the wrapper asset and its state record.
use vstd::prelude::*;

use crate::accounts::{Initialize, MintAccount};
use crate::address::{
    check_configured_asset, derive_address, derive_metadata_address, derived, derived_metadata,
    is_configured_asset, SeedTag,
};
use crate::error::WrapperError;
use crate::instruction::Instruction;
use crate::metadata::{create_metadata_instruction, is_create_metadata};
use crate::state::{WrapperData, DEFAULT_URI, TOKEN_NAME, TOKEN_SYMBOL};

verus! {

/// The URI to record: the one given, or the default.
pub open spec fn chosen_uri(uri: Option<String>) -> Seq<char> {
    match uri {
        Some(s) => s@,
        None => DEFAULT_URI@,
    }
}

/// The record `initialize` writes for `ctx`, with the wrapper mint's bump.
pub open spec fn is_initial_record(d: WrapperData, ctx: Initialize, bump: u8, uri: Seq<char>) -> bool {
    &&& d.original_mint@ == ctx.original_mint.address@
    &&& d.wrapper_mint@ == ctx.wrapper_mint_address@
    &&& d.wrapper_mint_bump == bump
    &&& d.authority@ == ctx.authority@
    &&& d.name@ == TOKEN_NAME@
    &&& d.symbol@ == TOKEN_SYMBOL@
    &&& d.uri@ == uri
}

/// The wrapper mint `initialize` creates for `ctx`: the original's
/// precision, nothing minted, and itself as minting authority.
pub open spec fn is_initial_mint(m: MintAccount, ctx: Initialize) -> bool {
    &&& m.address@ == ctx.wrapper_mint_address@
    &&& m.decimals == ctx.original_mint.decimals
    &&& m.supply == 0
    &&& m.mint_authority matches Some(a) && a@ == ctx.wrapper_mint_address@
}

/// The metadata registration `initialize` hands to the host for `ctx`: the
/// wrapper mint's record, minted and updatable under the minting-authority
/// signer, paid by the payer, with the fixed name and symbol.
pub open spec fn is_initial_request(ix: Instruction, ctx: Initialize, uri: Seq<char>) -> bool {
    is_create_metadata(
        ix,
        ctx.metadata_account,
        ctx.wrapper_mint_address,
        ctx.mint_authority,
        ctx.payer,
        ctx.mint_authority,
        TOKEN_NAME@,
        TOKEN_SYMBOL@,
        uri,
    )
}

/// Whether the three derivations of `initialize` all succeed.
pub open spec fn init_derivable(ctx: Initialize) -> bool {
    &&& derived(SeedTag::Data, ctx.original_mint.address@, ctx.program_id@) is Some
    &&& derived(SeedTag::Wrapper, ctx.original_mint.address@, ctx.program_id@) is Some
    &&& derived_metadata(ctx.token_metadata_program@, ctx.wrapper_mint_address@) is Some
}

/// Whether each account of `ctx` stands at the address its seeds derive.
pub open spec fn init_seeds_match(ctx: Initialize) -> bool {
    &&& derived(SeedTag::Data, ctx.original_mint.address@, ctx.program_id@).unwrap().0
        == ctx.wrapper_data_address@
    &&& derived(SeedTag::Wrapper, ctx.original_mint.address@, ctx.program_id@).unwrap().0
        == ctx.wrapper_mint_address@
    &&& derived_metadata(ctx.token_metadata_program@, ctx.wrapper_mint_address@).unwrap().0
        == ctx.metadata_account@
}

/// Serialized size of the record for a URI: fixed fields, the name, the
/// symbol and the URI, each string with a 4-byte length prefix.
pub open spec fn init_record_len(uri: Seq<char>) -> int {
    109 + crate::state::utf8_len(TOKEN_NAME@) + crate::state::utf8_len(TOKEN_SYMBOL@)
        + crate::state::utf8_len(uri)
}

/// The error `initialize` returns for `ctx` and `uri`, checked in this
/// order, or `None` when it succeeds.
pub open spec fn init_error(ctx: Initialize, uri: Seq<char>) -> Option<WrapperError> {
    if !is_configured_asset(ctx.original_mint.address@) {
        Some(WrapperError::AssetMismatch)
    } else if !init_derivable(ctx) {
        Some(WrapperError::DerivationFailed)
    } else if !init_seeds_match(ctx) {
        Some(WrapperError::ConstraintSeeds)
    } else if ctx.wrapper_data is Some || ctx.wrapper_mint is Some {
        Some(WrapperError::AlreadyInitialized)
    } else if init_record_len(uri) > WrapperData::LEN {
        Some(WrapperError::CapacityExceeded)
    } else {
        None
    }
}

/// Creates the wrapper state record and the wrapper mint for the configured
/// original asset, and returns the instruction that registers its metadata record.
///
/// On failure no account changes. On success the state record holds the
/// original and wrapper identities, the wrapper mint's bump, the initializing
/// authority, the fixed name and symbol and the chosen URI; the wrapper mint
/// copies the original's precision and is its own minting authority.
pub fn initialize(ctx: &mut Initialize, uri: Option<String>) -> (r: Result<Instruction, WrapperError>)
    ensures
        init_error(*old(ctx), chosen_uri(uri)) matches Some(e) ==> r == Err::<Instruction, WrapperError>(e)
            && *final(ctx) == *old(ctx),
        init_error(*old(ctx), chosen_uri(uri)) is None ==> r is Ok,
        r matches Ok(q) ==> {
            &&& is_initial_request(q, *old(ctx), chosen_uri(uri))
            &&& final(ctx).wrapper_data matches Some(d) && is_initial_record(
                d,
                *old(ctx),
                derived(SeedTag::Wrapper, old(ctx).original_mint.address@, old(ctx).program_id@).unwrap().1,
                chosen_uri(uri),
            )
            &&& final(ctx).wrapper_mint matches Some(m) && is_initial_mint(m, *old(ctx))
            &&& final(ctx).wrapper_data_address == old(ctx).wrapper_data_address
            &&& final(ctx).wrapper_mint_address == old(ctx).wrapper_mint_address
            &&& final(ctx).original_mint == old(ctx).original_mint
            &&& final(ctx).metadata_account == old(ctx).metadata_account
            &&& final(ctx).token_metadata_program == old(ctx).token_metadata_program
            &&& final(ctx).mint_authority == old(ctx).mint_authority
            &&& final(ctx).payer == old(ctx).payer
            &&& final(ctx).authority == old(ctx).authority
            &&& final(ctx).program_id == old(ctx).program_id
        },
{
    if !check_configured_asset(&ctx.original_mint.address) {
        return Err(WrapperError::AssetMismatch);
    }
    let data = derive_address(SeedTag::Data, &ctx.original_mint.address, &ctx.program_id);
    let wrapper = derive_address(SeedTag::Wrapper, &ctx.original_mint.address, &ctx.program_id);
    let metadata = derive_metadata_address(&ctx.token_metadata_program, &ctx.wrapper_mint_address);
    let (data_address, wrapper_address, wrapper_bump, metadata_address) = match (data, wrapper, metadata) {
        (Some((d, _)), Some((w, bump)), Some((m, _))) => (d, w, bump, m),
        _ => {
            return Err(WrapperError::DerivationFailed);
        },
    };
    if !data_address.same(&ctx.wrapper_data_address) || !wrapper_address.same(&ctx.wrapper_mint_address)
        || !metadata_address.same(&ctx.metadata_account) {
        return Err(WrapperError::ConstraintSeeds);
    }
    if ctx.wrapper_data.is_some() || ctx.wrapper_mint.is_some() {
        return Err(WrapperError::AlreadyInitialized);
    }
    let uri_text: String = match uri {
        Some(s) => s,
        None => DEFAULT_URI.to_string(),
    };
    let record = WrapperData {
        original_mint: ctx.original_mint.address,
        wrapper_mint: ctx.wrapper_mint_address,
        wrapper_mint_bump: wrapper_bump,
        authority: ctx.authority,
        name: TOKEN_NAME.to_string(),
        symbol: TOKEN_SYMBOL.to_string(),
        uri: uri_text.clone(),
    };
    if !record.check_fits() {
        return Err(WrapperError::CapacityExceeded);
    }
    let request = create_metadata_instruction(
        &ctx.metadata_account,
        &ctx.wrapper_mint_address,
        &ctx.mint_authority,
        &ctx.payer,
        &ctx.mint_authority,
        &record.name,
        &record.symbol,
        &uri_text,
    );
    ctx.wrapper_mint = Some(
        MintAccount {
            address: ctx.wrapper_mint_address,
            decimals: ctx.original_mint.decimals,
            supply: 0,
            mint_authority: Some(ctx.wrapper_mint_address),
        },
    );
    ctx.wrapper_data = Some(record);
    Ok(request)
}

/// Whether two account sets name the same accounts, whatever they hold.
pub open spec fn same_addresses(a: Initialize, b: Initialize) -> bool {
    &&& a.wrapper_data_address@ == b.wrapper_data_address@
    &&& a.wrapper_mint_address@ == b.wrapper_mint_address@
    &&& a.original_mint.address@ == b.original_mint.address@
    &&& a.metadata_account@ == b.metadata_account@
    &&& a.token_metadata_program@ == b.token_metadata_program@
    &&& a.program_id@ == b.program_id@
}

/// Once an initialization of an original asset has succeeded, any further
/// initialization at the same accounts, with any URI, fails as already
/// initialized, and so changes no account.
pub proof fn lemma_exclusive(first: Initialize, uri: Seq<char>, next: Initialize, next_uri: Seq<char>)
    requires
        init_error(first, uri) is None,
        same_addresses(first, next),
        next.wrapper_data is Some,
    ensures
        init_error(next, next_uri) == Some(WrapperError::AlreadyInitialized),
{
}

} // verus!
