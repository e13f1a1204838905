//! Wrapping and unwrapping: custody of the original asset against the
//! wrapper asset's supply, one to one.
use vstd::prelude::*;

use crate::accounts::{MintAccount, TokenAccount, Unwrap, Wrap};
use crate::address::{
    derive_address, derive_associated_address, derived, is_associated, Address, SeedTag,
};
use crate::error::WrapperError;
use crate::instruction::{
    burn, is_token_instruction, mint_to, token_program_id, transfer, Instruction, BURN, MINT_TO,
    TRANSFER,
};
use crate::state::WrapperData;

verus! {

/// The four counters that wrapping and unwrapping move for one holder.
#[derive(Clone, Copy, Debug, PartialEq, Eq, Structural)]
pub struct Balances {
    /// Original-asset units in the holder's account.
    pub holder_original: u64,
    /// Wrapper-asset units in the holder's account.
    pub holder_wrapped: u64,
    /// Original-asset units held in custody.
    pub custody: u64,
    /// Outstanding wrapper-asset units.
    pub supply: u64,
}

/// Every outstanding wrapper unit is backed by one unit in custody.
pub open spec fn solvent(b: Balances) -> bool {
    b.supply == b.custody
}

/// Why wrapping `amount` fails on `b`, or `None`: first the transfer into
/// custody, then the mint.
pub open spec fn wrap_error(b: Balances, amount: u64) -> Option<WrapperError> {
    if b.holder_original < amount {
        Some(WrapperError::InsufficientFunds)
    } else if b.custody + amount > u64::MAX {
        Some(WrapperError::Overflow)
    } else if b.supply + amount > u64::MAX || b.holder_wrapped + amount > u64::MAX {
        Some(WrapperError::Overflow)
    } else {
        None
    }
}

/// The counters after wrapping `amount`.
pub open spec fn wrapped(b: Balances, amount: u64) -> Balances {
    Balances {
        holder_original: (b.holder_original - amount) as u64,
        holder_wrapped: (b.holder_wrapped + amount) as u64,
        custody: (b.custody + amount) as u64,
        supply: (b.supply + amount) as u64,
    }
}

/// Why unwrapping `amount` fails on `b`, or `None`: first the burn, then the
/// release from custody.
pub open spec fn unwrap_error(b: Balances, amount: u64) -> Option<WrapperError> {
    if b.holder_wrapped < amount {
        Some(WrapperError::InsufficientFunds)
    } else if b.supply < amount || b.custody < amount {
        Some(WrapperError::InvariantViolation)
    } else if b.holder_original + amount > u64::MAX {
        Some(WrapperError::Overflow)
    } else {
        None
    }
}

/// The counters after unwrapping `amount`.
pub open spec fn unwrapped(b: Balances, amount: u64) -> Balances {
    Balances {
        holder_original: (b.holder_original + amount) as u64,
        holder_wrapped: (b.holder_wrapped - amount) as u64,
        custody: (b.custody - amount) as u64,
        supply: (b.supply - amount) as u64,
    }
}

/// One wrap or unwrap of an amount by the holder.
#[derive(Clone, Copy, Debug, PartialEq, Eq, Structural)]
pub enum Step {
    Wrap(u64),
    Unwrap(u64),
}

/// The counters after one step; a failed step changes nothing.
pub open spec fn apply_step(b: Balances, s: Step) -> Balances {
    match s {
        Step::Wrap(a) => if wrap_error(b, a) is None {
            wrapped(b, a)
        } else {
            b
        },
        Step::Unwrap(a) => if unwrap_error(b, a) is None {
            unwrapped(b, a)
        } else {
            b
        },
    }
}

/// The counters after a sequence of steps.
pub open spec fn run(b: Balances, steps: Seq<Step>) -> Balances
    decreases steps.len(),
{
    if steps.len() == 0 {
        b
    } else {
        apply_step(run(b, steps.drop_last()), steps.last())
    }
}

/// Wrapper supply equals the custody balance after every step of any
/// sequence of wraps and unwraps that starts solvent.
pub proof fn lemma_solvency(b: Balances, steps: Seq<Step>)
    requires
        solvent(b),
    ensures
        solvent(run(b, steps)),
    decreases steps.len(),
{
    if steps.len() > 0 {
        lemma_solvency(b, steps.drop_last());
    }
}

/// Wrapping an amount and at once unwrapping it restores every counter.
pub proof fn lemma_round_trip(b: Balances, amount: u64)
    requires
        wrap_error(b, amount) is None,
    ensures
        unwrap_error(wrapped(b, amount), amount) is None,
        unwrapped(wrapped(b, amount), amount) == b,
{
}

/// A solvent custody whose supply covers the holder's wrapper units never
/// fails a release: unwrapping fails only for want of wrapper units or by
/// overflow of the holder's original balance.
pub proof fn lemma_release_covered(b: Balances, amount: u64)
    requires
        solvent(b),
        b.holder_wrapped <= b.supply,
    ensures
        unwrap_error(b, amount) != Some(WrapperError::InvariantViolation),
{
}

/// The seeds that rebuild a derived account's signature.
#[derive(Clone, Copy, Debug)]
pub struct SignerSeeds {
    pub tag: SeedTag,
    pub original: Address,
    pub bump: u8,
}

/// A token-service instruction and, when a derived account authorizes it,
/// that account's seeds.
#[derive(Clone, Debug)]
pub struct SignedInstruction {
    pub instruction: Instruction,
    pub signer: Option<SignerSeeds>,
}

/// Why the accounts of a wrap or unwrap are refused, or `None`: first the
/// derivations, then the seeds, then the token accounts.
pub open spec fn custody_error(
    data_address: Address,
    data: WrapperData,
    original_mint: MintAccount,
    wrapper_mint: MintAccount,
    user_original: TokenAccount,
    user_wrapper: TokenAccount,
    vault: TokenAccount,
    user_authority: Address,
    program_id: Address,
) -> Option<WrapperError> {
    let o = original_mint.address@;
    let p = program_id@;
    if derived(SeedTag::Data, o, p) is None || derived(SeedTag::Wrapper, o, p) is None || derived(
        SeedTag::Vault,
        o,
        p,
    ) is None {
        Some(WrapperError::DerivationFailed)
    } else if derived(SeedTag::Data, o, p).unwrap().0 != data_address@ || derived(
        SeedTag::Wrapper,
        o,
        p,
    ).unwrap() != (wrapper_mint.address@, data.wrapper_mint_bump) || derived(
        SeedTag::Vault,
        o,
        p,
    ).unwrap().0 != vault.address@ || data.original_mint@ != o || data.wrapper_mint@
        != wrapper_mint.address@ {
        Some(WrapperError::ConstraintSeeds)
    } else if user_original.mint@ != o || user_original.owner@ != user_authority@
        || user_wrapper.mint@ != wrapper_mint.address@ || user_wrapper.owner@ != user_authority@
        || vault.mint@ != o || vault.owner@ != vault.address@ || user_original.address@
        == vault.address@ || user_original.address@ == user_wrapper.address@ || !is_associated(
        user_original.address@,
        user_authority@,
        o,
    ) || !is_associated(user_wrapper.address@, user_authority@, wrapper_mint.address@) {
        Some(WrapperError::ConstraintTokenAccount)
    } else {
        None
    }
}

/// Checks the accounts of a wrap or unwrap and returns the custody
/// account's bump.
fn check_custody_accounts(
    data_address: &Address,
    data: &WrapperData,
    original_mint: &MintAccount,
    wrapper_mint: &MintAccount,
    user_original: &TokenAccount,
    user_wrapper: &TokenAccount,
    vault: &TokenAccount,
    user_authority: &Address,
    program_id: &Address,
) -> (r: Result<u8, WrapperError>)
    ensures
        custody_error(
            *data_address,
            *data,
            *original_mint,
            *wrapper_mint,
            *user_original,
            *user_wrapper,
            *vault,
            *user_authority,
            *program_id,
        ) matches Some(e) ==> r == Err::<u8, WrapperError>(e),
        custody_error(
            *data_address,
            *data,
            *original_mint,
            *wrapper_mint,
            *user_original,
            *user_wrapper,
            *vault,
            *user_authority,
            *program_id,
        ) is None ==> r == Ok::<u8, WrapperError>(
            derived(SeedTag::Vault, original_mint.address@, program_id@).unwrap().1,
        ),
{
    let o = &original_mint.address;
    let d = derive_address(SeedTag::Data, o, program_id);
    let w = derive_address(SeedTag::Wrapper, o, program_id);
    let v = derive_address(SeedTag::Vault, o, program_id);
    let (d_addr, w_addr, w_bump, v_addr, v_bump) = match (d, w, v) {
        (Some((da, _)), Some((wa, wb)), Some((va, vb))) => (da, wa, wb, va, vb),
        _ => {
            return Err(WrapperError::DerivationFailed);
        },
    };
    if !d_addr.same(data_address) || !w_addr.same(&wrapper_mint.address) || w_bump
        != data.wrapper_mint_bump || !v_addr.same(&vault.address) || !data.original_mint.same(o)
        || !data.wrapper_mint.same(&wrapper_mint.address) {
        return Err(WrapperError::ConstraintSeeds);
    }
    if !user_original.mint.same(o) || !user_original.owner.same(user_authority)
        || !user_wrapper.mint.same(&wrapper_mint.address) || !user_wrapper.owner.same(
        user_authority,
    ) || !vault.mint.same(o) || !vault.owner.same(&vault.address) || user_original.address.same(
        &vault.address,
    ) || user_original.address.same(&user_wrapper.address) {
        return Err(WrapperError::ConstraintTokenAccount);
    }
    let original_ata = derive_associated_address(user_authority, o);
    let wrapper_ata = derive_associated_address(user_authority, &wrapper_mint.address);
    match (original_ata, wrapper_ata) {
        (Some((a, _)), Some((b, _))) => {
            if !a.same(&user_original.address) || !b.same(&user_wrapper.address) {
                return Err(WrapperError::ConstraintTokenAccount);
            }
        },
        _ => {
            return Err(WrapperError::ConstraintTokenAccount);
        },
    }
    Ok(v_bump)
}

impl Wrap {
    /// The counters of this wrap's holder and custody.
    pub open spec fn balances(&self) -> Balances {
        Balances {
            holder_original: self.user_original_token_account.amount,
            holder_wrapped: self.user_wrapper_token_account.amount,
            custody: self.vault_token_account.amount,
            supply: self.wrapper_mint.supply,
        }
    }

    /// These accounts with the counters replaced by `b`.
    pub open spec fn with_balances(self, b: Balances) -> Wrap {
        Wrap {
            user_original_token_account: TokenAccount {
                amount: b.holder_original,
                ..self.user_original_token_account
            },
            user_wrapper_token_account: TokenAccount {
                amount: b.holder_wrapped,
                ..self.user_wrapper_token_account
            },
            vault_token_account: TokenAccount { amount: b.custody, ..self.vault_token_account },
            wrapper_mint: MintAccount { supply: b.supply, ..self.wrapper_mint },
            ..self
        }
    }

    /// Why these accounts are refused, or `None`.
    pub open spec fn accounts_error(&self) -> Option<WrapperError> {
        custody_error(
            self.wrapper_data_address,
            self.wrapper_data,
            self.original_mint,
            self.wrapper_mint,
            self.user_original_token_account,
            self.user_wrapper_token_account,
            self.vault_token_account,
            self.user_authority,
            self.program_id,
        )
    }

    /// Why wrapping `amount` fails, or `None`.
    pub open spec fn error(&self, amount: u64) -> Option<WrapperError> {
        if self.accounts_error() is Some {
            self.accounts_error()
        } else if self.token_program@ != token_program_id() {
            Some(WrapperError::IncorrectProgramId)
        } else {
            wrap_error(self.balances(), amount)
        }
    }

    /// Whether `ops` are the transfer into custody under the holder's
    /// signature, then the mint to the holder that the wrapper mint
    /// authorizes with its own seeds.
    pub open spec fn ops_match(&self, amount: u64, ops: (SignedInstruction, SignedInstruction)) -> bool {
        &&& is_token_instruction(
            ops.0.instruction,
            TRANSFER,
            self.user_original_token_account.address,
            self.vault_token_account.address,
            self.user_authority,
            amount,
        )
        &&& ops.0.signer is None
        &&& is_token_instruction(
            ops.1.instruction,
            MINT_TO,
            self.wrapper_mint.address,
            self.user_wrapper_token_account.address,
            self.wrapper_mint.address,
            amount,
        )
        &&& ops.1.signer == Some(
            SignerSeeds {
                tag: SeedTag::Wrapper,
                original: self.original_mint.address,
                bump: self.wrapper_data.wrapper_mint_bump,
            },
        )
    }
}

/// Moves `amount` original units from the holder into custody and mints as
/// many wrapper units to the holder, both or neither; returns the two
/// token operations for the host to perform, in order.
pub fn wrap(ctx: &mut Wrap, amount: u64) -> (r: Result<(SignedInstruction, SignedInstruction), WrapperError>)
    ensures
        old(ctx).error(amount) matches Some(e) ==> r == Err::<(SignedInstruction, SignedInstruction), WrapperError>(e),
        old(ctx).error(amount) is None ==> r is Ok,
        r matches Ok(ops) ==> old(ctx).ops_match(amount, ops),
        r is Err ==> *final(ctx) == *old(ctx),
        r is Ok ==> *final(ctx) == old(ctx).with_balances(wrapped(old(ctx).balances(), amount)),
        solvent(old(ctx).balances()) ==> solvent(final(ctx).balances()),
        old(ctx).accounts_error() is None && old(ctx).token_program@ == token_program_id()
            ==> final(ctx).balances() == apply_step(old(ctx).balances(), Step::Wrap(amount)),
{
    let checked = check_custody_accounts(
        &ctx.wrapper_data_address,
        &ctx.wrapper_data,
        &ctx.original_mint,
        &ctx.wrapper_mint,
        &ctx.user_original_token_account,
        &ctx.user_wrapper_token_account,
        &ctx.vault_token_account,
        &ctx.user_authority,
        &ctx.program_id,
    );
    if let Err(e) = checked {
        return Err(e);
    }
    let to_custody = transfer(
        &ctx.token_program,
        &ctx.user_original_token_account.address,
        &ctx.vault_token_account.address,
        &ctx.user_authority,
        amount,
    )?;
    let to_holder = mint_to(
        &ctx.token_program,
        &ctx.wrapper_mint.address,
        &ctx.user_wrapper_token_account.address,
        &ctx.wrapper_mint.address,
        amount,
    )?;
    // the transfer into custody
    if ctx.user_original_token_account.amount < amount {
        return Err(WrapperError::InsufficientFunds);
    }
    if ctx.vault_token_account.amount > u64::MAX - amount {
        return Err(WrapperError::Overflow);
    }
    // the mint to the holder
    if ctx.wrapper_mint.supply > u64::MAX - amount || ctx.user_wrapper_token_account.amount
        > u64::MAX - amount {
        return Err(WrapperError::Overflow);
    }
    ctx.user_original_token_account.amount = ctx.user_original_token_account.amount - amount;
    ctx.vault_token_account.amount = ctx.vault_token_account.amount + amount;
    ctx.wrapper_mint.supply = ctx.wrapper_mint.supply + amount;
    ctx.user_wrapper_token_account.amount = ctx.user_wrapper_token_account.amount + amount;
    let seeds = SignerSeeds {
        tag: SeedTag::Wrapper,
        original: ctx.original_mint.address,
        bump: ctx.wrapper_data.wrapper_mint_bump,
    };
    Ok(
        (
            SignedInstruction { instruction: to_custody, signer: None },
            SignedInstruction { instruction: to_holder, signer: Some(seeds) },
        ),
    )
}

impl Unwrap {
    /// The counters of this unwrap's holder and custody.
    pub open spec fn balances(&self) -> Balances {
        Balances {
            holder_original: self.user_original_token_account.amount,
            holder_wrapped: self.user_wrapper_token_account.amount,
            custody: self.vault_token_account.amount,
            supply: self.wrapper_mint.supply,
        }
    }

    /// These accounts with the counters replaced by `b`.
    pub open spec fn with_balances(self, b: Balances) -> Unwrap {
        Unwrap {
            user_original_token_account: TokenAccount {
                amount: b.holder_original,
                ..self.user_original_token_account
            },
            user_wrapper_token_account: TokenAccount {
                amount: b.holder_wrapped,
                ..self.user_wrapper_token_account
            },
            vault_token_account: TokenAccount { amount: b.custody, ..self.vault_token_account },
            wrapper_mint: MintAccount { supply: b.supply, ..self.wrapper_mint },
            ..self
        }
    }

    /// Why these accounts are refused, or `None`.
    pub open spec fn accounts_error(&self) -> Option<WrapperError> {
        custody_error(
            self.wrapper_data_address,
            self.wrapper_data,
            self.original_mint,
            self.wrapper_mint,
            self.user_original_token_account,
            self.user_wrapper_token_account,
            self.vault_token_account,
            self.user_authority,
            self.program_id,
        )
    }

    /// Why unwrapping `amount` fails, or `None`.
    pub open spec fn error(&self, amount: u64) -> Option<WrapperError> {
        if self.accounts_error() is Some {
            self.accounts_error()
        } else if self.token_program@ != token_program_id() {
            Some(WrapperError::IncorrectProgramId)
        } else {
            unwrap_error(self.balances(), amount)
        }
    }

    /// Whether `ops` are the burn under the holder's signature, then the
    /// release from custody that the custody account authorizes with its own
    /// seeds.
    pub open spec fn ops_match(&self, amount: u64, ops: (SignedInstruction, SignedInstruction)) -> bool {
        &&& is_token_instruction(
            ops.0.instruction,
            BURN,
            self.user_wrapper_token_account.address,
            self.wrapper_mint.address,
            self.user_authority,
            amount,
        )
        &&& ops.0.signer is None
        &&& is_token_instruction(
            ops.1.instruction,
            TRANSFER,
            self.vault_token_account.address,
            self.user_original_token_account.address,
            self.vault_token_account.address,
            amount,
        )
        &&& ops.1.signer == Some(
            SignerSeeds {
                tag: SeedTag::Vault,
                original: self.original_mint.address,
                bump: derived(SeedTag::Vault, self.original_mint.address@, self.program_id@).unwrap().1,
            },
        )
    }
}

/// Burns `amount` wrapper units from the holder and releases as many
/// original units from custody to the holder, both or neither; returns the
/// two token operations for the host to perform, in order.
pub fn unwrap(ctx: &mut Unwrap, amount: u64) -> (r: Result<(SignedInstruction, SignedInstruction), WrapperError>)
    ensures
        old(ctx).error(amount) matches Some(e) ==> r == Err::<(SignedInstruction, SignedInstruction), WrapperError>(e),
        old(ctx).error(amount) is None ==> r is Ok,
        r matches Ok(ops) ==> old(ctx).ops_match(amount, ops),
        r is Err ==> *final(ctx) == *old(ctx),
        r is Ok ==> *final(ctx) == old(ctx).with_balances(unwrapped(old(ctx).balances(), amount)),
        solvent(old(ctx).balances()) ==> solvent(final(ctx).balances()),
        old(ctx).accounts_error() is None && old(ctx).token_program@ == token_program_id()
            ==> final(ctx).balances() == apply_step(old(ctx).balances(), Step::Unwrap(amount)),
{
    let checked = check_custody_accounts(
        &ctx.wrapper_data_address,
        &ctx.wrapper_data,
        &ctx.original_mint,
        &ctx.wrapper_mint,
        &ctx.user_original_token_account,
        &ctx.user_wrapper_token_account,
        &ctx.vault_token_account,
        &ctx.user_authority,
        &ctx.program_id,
    );
    let vault_bump = match checked {
        Ok(b) => b,
        Err(e) => {
            return Err(e);
        },
    };
    let from_holder = burn(
        &ctx.token_program,
        &ctx.user_wrapper_token_account.address,
        &ctx.wrapper_mint.address,
        &ctx.user_authority,
        amount,
    )?;
    let release = transfer(
        &ctx.token_program,
        &ctx.vault_token_account.address,
        &ctx.user_original_token_account.address,
        &ctx.vault_token_account.address,
        amount,
    )?;
    // the burn from the holder
    if ctx.user_wrapper_token_account.amount < amount {
        return Err(WrapperError::InsufficientFunds);
    }
    // the release from custody
    if ctx.wrapper_mint.supply < amount || ctx.vault_token_account.amount < amount {
        return Err(WrapperError::InvariantViolation);
    }
    if ctx.user_original_token_account.amount > u64::MAX - amount {
        return Err(WrapperError::Overflow);
    }
    ctx.user_wrapper_token_account.amount = ctx.user_wrapper_token_account.amount - amount;
    ctx.wrapper_mint.supply = ctx.wrapper_mint.supply - amount;
    ctx.vault_token_account.amount = ctx.vault_token_account.amount - amount;
    ctx.user_original_token_account.amount = ctx.user_original_token_account.amount + amount;
    let seeds = SignerSeeds { tag: SeedTag::Vault, original: ctx.original_mint.address, bump: vault_bump };
    Ok(
        (
            SignedInstruction { instruction: from_holder, signer: None },
            SignedInstruction { instruction: release, signer: Some(seeds) },
        ),
    )
}

} // verus!
