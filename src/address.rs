//! Addresses and their deterministic derivation from seeds.
use vstd::prelude::*;

use anchor_lang::prelude::Pubkey;

verus! {

/// A 32-byte ledger identity (an account, a mint or a program).
#[derive(Clone, Copy, Debug)]
pub struct Address {
    pub bytes: [u8; 32],
}

impl View for Address {
    type V = Seq<u8>;

    open spec fn view(&self) -> Seq<u8> {
        self.bytes@
    }
}

impl Address {
    pub fn new(bytes: [u8; 32]) -> (r: Address)
        ensures
            r@ == bytes@,
    {
        Address { bytes }
    }

    /// Byte-wise equality of two identities.
    pub fn same(&self, other: &Address) -> (r: bool)
        ensures
            r == (self@ == other@),
    {
        let mut i: usize = 0;
        while i < 32
            invariant
                0 <= i <= 32,
                self@.len() == 32,
                other@.len() == 32,
                forall|j: int| 0 <= j < i ==> self@[j] == other@[j],
            decreases 32 - i,
        {
            if self.bytes[i] != other.bytes[i] {
                return false;
            }
            i = i + 1;
        }
        assert(self@ =~= other@);
        true
    }

    pub fn to_vec(&self) -> (r: Vec<u8>)
        ensures
            r@ == self@,
    {
        let mut v: Vec<u8> = Vec::new();
        let mut i: usize = 0;
        while i < 32
            invariant
                0 <= i <= 32,
                self@.len() == 32,
                v@ == self@.subrange(0, i as int),
            decreases 32 - i,
        {
            v.push(self.bytes[i]);
            i = i + 1;
        }
        assert(v@ =~= self@);
        v
    }
}

impl PartialEq for Address {
    fn eq(&self, other: &Address) -> (r: bool) {
        self.same(other)
    }
}

impl vstd::std_specs::cmp::PartialEqSpecImpl for Address {
    open spec fn obeys_eq_spec() -> bool {
        true
    }

    open spec fn eq_spec(&self, other: &Address) -> bool {
        self@ == other@
    }
}

/// What a program-address search yields for a list of seeds under a program:
/// the first address off the ed25519 curve, trying bump seeds from 255
/// downward, and that bump; nothing when no bump works or the seeds are
/// out of bounds.
pub uninterp spec fn program_address_of(seeds: Seq<Seq<u8>>, program: Seq<u8>) -> Option<(Seq<u8>, u8)>;

/// The base58 text of an identity's bytes.
pub uninterp spec fn base58_of(bytes: Seq<u8>) -> Seq<char>;

pub open spec fn seeds_view(seeds: Seq<Vec<u8>>) -> Seq<Seq<u8>> {
    seeds.map_values(|s: Vec<u8>| s@)
}

pub open spec fn derivation_view(r: Option<(Address, u8)>) -> Option<(Seq<u8>, u8)> {
    match r {
        Some((a, bump)) => Some((a@, bump)),
        None => None,
    }
}

/// Relies on `Pubkey::try_find_program_address`: a deterministic search
/// (SHA-256 over the seeds, the bump and the program) whose outcome depends
/// on its arguments alone.
#[verifier::external_body]
fn try_find_program_address(seeds: &Vec<Vec<u8>>, program: &Address) -> (r: Option<(Address, u8)>)
    ensures
        derivation_view(r) == program_address_of(seeds_view(seeds@), program@),
{
    let slices: Vec<&[u8]> = seeds.iter().map(|s| s.as_slice()).collect();
    let found = Pubkey::try_find_program_address(&slices, &Pubkey::new_from_array(program.bytes));
    found.map(|(key, bump)| (Address { bytes: key.to_bytes() }, bump))
}

/// Relies on the `Display` of `Pubkey`: the base58 text of its bytes.
#[verifier::external_body]
fn pubkey_text(a: &Address) -> (r: String)
    ensures
        r@ == base58_of(a@),
{
    Pubkey::new_from_array(a.bytes).to_string()
}

/// The seed tags under which this program derives its own addresses.
#[derive(Clone, Copy, Debug, PartialEq, Eq, Structural)]
pub enum SeedTag {
    /// The wrapper state record.
    Data,
    /// The wrapper mint, which is also its own minting authority.
    Wrapper,
    /// The custody account, which is also its own disbursement authority.
    Vault,
}

/// The ASCII bytes of a seed tag.
pub open spec fn tag_bytes(tag: SeedTag) -> Seq<u8> {
    match tag {
        SeedTag::Data => seq![100u8, 97, 116, 97],
        SeedTag::Wrapper => seq![119u8, 114, 97, 112, 112, 101, 114],
        SeedTag::Vault => seq![118u8, 97, 117, 108, 116],
    }
}

/// The ASCII bytes of the metadata service's seed tag.
pub open spec fn metadata_tag() -> Seq<u8> {
    seq![109u8, 101, 116, 97, 100, 97, 116, 97]
}

/// The address and bump of the account that `program` owns under `tag` for
/// the original asset `original`.
pub open spec fn derived(tag: SeedTag, original: Seq<u8>, program: Seq<u8>) -> Option<(Seq<u8>, u8)> {
    program_address_of(seq![tag_bytes(tag), original], program)
}

/// The address and bump of the metadata record of `mint`, owned by the
/// metadata service `service`.
pub open spec fn derived_metadata(service: Seq<u8>, mint: Seq<u8>) -> Option<(Seq<u8>, u8)> {
    program_address_of(seq![metadata_tag(), service, mint], service)
}

/// The bytes of a seed tag, as the signing seeds of a derived account begin.
pub fn tag_seed(tag: SeedTag) -> (r: Vec<u8>)
    ensures
        r@ == tag_bytes(tag),
{
    let r = match tag {
        SeedTag::Data => vec![100u8, 97, 116, 97],
        SeedTag::Wrapper => vec![119u8, 114, 97, 112, 112, 101, 114],
        SeedTag::Vault => vec![118u8, 97, 117, 108, 116],
    };
    assert(r@ =~= tag_bytes(tag));
    r
}

/// Derives the address and bump of the account that `program` owns under
/// `tag` for the original asset `original`; `None` when no bump works.
pub fn derive_address(tag: SeedTag, original: &Address, program: &Address) -> (r: Option<(Address, u8)>)
    ensures
        derivation_view(r) == derived(tag, original@, program@),
{
    let seeds: Vec<Vec<u8>> = vec![tag_seed(tag), original.to_vec()];
    assert(seeds_view(seeds@) =~= seq![tag_bytes(tag), original@]);
    try_find_program_address(&seeds, program)
}

/// Derives the address and bump of the metadata record of `mint` under the
/// metadata service `service`; `None` when no bump works.
pub fn derive_metadata_address(service: &Address, mint: &Address) -> (r: Option<(Address, u8)>)
    ensures
        derivation_view(r) == derived_metadata(service@, mint@),
{
    let tag: Vec<u8> = vec![109u8, 101, 116, 97, 100, 97, 116, 97];
    assert(tag@ =~= metadata_tag());
    let seeds: Vec<Vec<u8>> = vec![tag, service.to_vec(), mint.to_vec()];
    assert(seeds_view(seeds@) =~= seq![metadata_tag(), service@, mint@]);
    try_find_program_address(&seeds, service)
}

/// The identity of the token service.
pub open spec fn token_service_id() -> Seq<u8> {
    seq![
        6u8, 221, 246, 225, 215, 101, 161, 147, 217, 203, 225, 70, 206, 235, 121, 172,
        28, 180, 133, 237, 95, 91, 55, 145, 58, 140, 245, 133, 126, 255, 0, 169,
    ]
}

/// The identity of the associated-token-account service.
pub open spec fn associated_service_id() -> Seq<u8> {
    seq![
        140u8, 151, 37, 143, 78, 36, 137, 241, 187, 61, 16, 41, 20, 142, 13, 131,
        11, 90, 19, 153, 218, 255, 16, 132, 4, 142, 123, 216, 219, 233, 248, 89,
    ]
}

/// The address and bump of `wallet`'s associated token account for `mint`:
/// derived by the associated-token-account service from the wallet, the
/// token service and the mint.
pub open spec fn derived_associated(wallet: Seq<u8>, mint: Seq<u8>) -> Option<(Seq<u8>, u8)> {
    program_address_of(seq![wallet, token_service_id(), mint], associated_service_id())
}

/// Whether `account` is `wallet`'s associated token account for `mint`.
pub open spec fn is_associated(account: Seq<u8>, wallet: Seq<u8>, mint: Seq<u8>) -> bool {
    derived_associated(wallet, mint) matches Some((a, _)) && a == account
}

/// Derives `wallet`'s associated token account for `mint`; `None` when no
/// bump works.
pub fn derive_associated_address(wallet: &Address, mint: &Address) -> (r: Option<(Address, u8)>)
    ensures
        derivation_view(r) == derived_associated(wallet@, mint@),
{
    let token: Vec<u8> = vec![
        6u8, 221, 246, 225, 215, 101, 161, 147, 217, 203, 225, 70, 206, 235, 121, 172,
        28, 180, 133, 237, 95, 91, 55, 145, 58, 140, 245, 133, 126, 255, 0, 169,
    ];
    let service: Vec<u8> = vec![
        140u8, 151, 37, 143, 78, 36, 137, 241, 187, 61, 16, 41, 20, 142, 13, 131,
        11, 90, 19, 153, 218, 255, 16, 132, 4, 142, 123, 216, 219, 233, 248, 89,
    ];
    assert(token@ =~= token_service_id());
    assert(service@ =~= associated_service_id());
    let mut bytes = [0u8; 32];
    let mut i: usize = 0;
    while i < 32
        invariant
            0 <= i <= 32,
            service@.len() == 32,
            bytes@.len() == 32,
            forall|j: int| 0 <= j < i ==> bytes@[j] == service@[j],
        decreases 32 - i,
    {
        bytes[i] = service[i];
        i = i + 1;
    }
    let program = Address::new(bytes);
    assert(program@ =~= associated_service_id());
    let seeds: Vec<Vec<u8>> = vec![wallet.to_vec(), token, mint.to_vec()];
    assert(seeds_view(seeds@) =~= seq![wallet@, token_service_id(), mint@]);
    try_find_program_address(&seeds, &program)
}

/// The base58 text of the single original asset this program wraps.
pub const CONFIGURED_ASSET: &'static str = "9BB6NFEcjBCtnNLFko2FqVQBq8HHM13kCyYcdQbgpump";

/// Whether `a` is the configured original asset, compared by base58 text.
pub open spec fn is_configured_asset(a: Seq<u8>) -> bool {
    base58_of(a) == CONFIGURED_ASSET@
}

/// Tests an identity against the configured original asset.
pub fn check_configured_asset(a: &Address) -> (r: bool)
    ensures
        r == is_configured_asset(a@),
{
    let text = pubkey_text(a);
    let expected = CONFIGURED_ASSET.to_string();
    text == expected
}

/// Re-deriving any of this program's addresses from equal inputs yields
/// identical addresses and bumps.
pub proof fn lemma_derivation_deterministic(tag: SeedTag, a: Address, b: Address, program: Address)
    requires
        a@ == b@,
    ensures
        derived(tag, a@, program@) == derived(tag, b@, program@),
        derived_metadata(program@, a@) == derived_metadata(program@, b@),
{
}

} // verus!
