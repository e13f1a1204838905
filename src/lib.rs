//! A one-to-one custodial wrapper for a single fixed token: deposits of the
//! original token are locked in a program-owned custody account and matched
//! by an equal amount of a derived wrapper token, redeemable by burning.
//!
//! Every program-owned address (state record, wrapper mint, custody account,
//! metadata record) is derived from a seed tag and the original token's
//! identity, so the library never holds a private key.
use vstd::prelude::*;

pub mod accounts;
pub mod address;
pub mod custody;
pub mod error;
pub mod initialize;
pub mod instruction;
pub mod metadata;
pub mod state;

pub use accounts::{Initialize, MintAccount, TokenAccount, Unwrap, Wrap};
pub use address::{derive_address, derive_metadata_address, tag_seed, Address, SeedTag, CONFIGURED_ASSET};
pub use custody::{unwrap, wrap, Balances, SignedInstruction, SignerSeeds, Step};
pub use error::WrapperError;
pub use initialize::initialize;
pub use instruction::{AccountRef, Instruction};
pub use state::{WrapperData, DEFAULT_URI, TOKEN_NAME, TOKEN_SYMBOL};
