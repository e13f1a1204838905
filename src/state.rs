//! The persistent record binding an original asset to its wrapper asset.
use vstd::prelude::*;

use crate::address::Address;

verus! {

/// Name and symbol of the wrapper asset.
pub const TOKEN_NAME: &'static str = "oldFART";
pub const TOKEN_SYMBOL: &'static str = "oldFART";
/// Descriptive URI used when `initialize` is given none.
pub const DEFAULT_URI: &'static str = "https://arweave.net/oldfart-metadata-uri";

/// The state record of one original asset. It is written once by
/// `initialize` and only read afterwards.
#[derive(Debug)]
pub struct WrapperData {
    pub original_mint: Address,
    pub wrapper_mint: Address,
    /// Bump of the wrapper mint's derivation, which rebuilds its signature.
    pub wrapper_mint_bump: u8,
    /// Who initialized the wrapper; it holds no power over custody.
    pub authority: Address,
    pub name: String,
    pub symbol: String,
    pub uri: String,
}

/// The number of UTF-8 bytes that encode `s`.
pub open spec fn utf8_len(s: Seq<char>) -> int {
    vstd::utf8::encode_utf8(s).len() as int
}

impl WrapperData {
    /// Capacity reserved for the record (after the 8-byte account tag):
    /// three identities, the bump, and length-prefixed strings with 32 bytes
    /// for the name, 10 for the symbol and 200 for the URI.
    pub const LEN: usize = 32 + 32 + 1 + 32 + 4 + 32 + 4 + 10 + 4 + 200;

    /// Bytes of the record once serialized: the fixed fields and three
    /// strings each with a 4-byte length prefix.
    pub open spec fn encoded_len(&self) -> int {
        32 + 32 + 1 + 32 + 4 + utf8_len(self.name@) + 4 + utf8_len(self.symbol@) + 4 + utf8_len(
            self.uri@,
        )
    }

    /// Whether the serialized record fits its reserved capacity.
    pub open spec fn fits(&self) -> bool {
        self.encoded_len() <= Self::LEN
    }

    /// Tests whether the serialized record fits its reserved capacity.
    pub fn check_fits(&self) -> (r: bool)
        ensures
            r == self.fits(),
    {
        let name_len: usize = self.name.as_str().as_bytes().len();
        let symbol_len: usize = self.symbol.as_str().as_bytes().len();
        let uri_len: usize = self.uri.as_str().as_bytes().len();
        if name_len > Self::LEN || symbol_len > Self::LEN || uri_len > Self::LEN {
            return false;
        }
        109 + name_len + symbol_len + uri_len <= Self::LEN
    }
}

} // verus!
