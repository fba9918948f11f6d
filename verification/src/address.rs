//! Derived addresses: how the vault's two storage locations are computed from
//! the owner's identity, and how a claimed address is checked against them.

use vstd::prelude::*;
use crate::error::VaultError;

verus! {

/// A 32-byte identity on the ledger: an owner, a program or a derived location.
#[derive(Clone, Copy, Debug, PartialEq, Eq, Hash)]
pub struct Address {
    pub bytes: [u8; 32],
}

impl View for Address {
    type V = Seq<u8>;

    open spec fn view(&self) -> Seq<u8> {
        self.bytes@
    }
}

impl Address {
    /// Wraps 32 raw bytes.
    pub fn new(bytes: [u8; 32]) -> (address: Address)
        ensures
            address.bytes == bytes,
    {
        Address { bytes }
    }

    /// Whether two addresses hold the same bytes.
    pub fn same_as(&self, other: &Address) -> (same: bool)
        ensures
            same == (self@ == other@),
            same == (*self == *other),
    {
        let mut i: usize = 0;
        while i < 32
            invariant
                i <= 32,
                forall|j: int| 0 <= j < i ==> self.bytes[j] == other.bytes[j],
            decreases 32 - i,
        {
            if self.bytes[i] != other.bytes[i] {
                return false;
            }
            i += 1;
        }
        assert(self.bytes =~= other.bytes);
        true
    }
}

/// The fixed domain tags that keep the vault's two derivations apart.
#[derive(Clone, Copy, Debug, PartialEq, Eq, Structural)]
pub enum Tag {
    /// Tag of the vault state record, derived from the owner.
    State,
    /// Tag of the vault itself, derived from the record's address.
    Vault,
}

impl Tag {
    /// The bytes that enter the derivation: ASCII `state` or `vault`.
    pub open spec fn seed(self) -> Seq<u8> {
        match self {
            Tag::State => seq![0x73u8, 0x74u8, 0x61u8, 0x74u8, 0x65u8],
            Tag::Vault => seq![0x76u8, 0x61u8, 0x75u8, 0x6cu8, 0x74u8],
        }
    }

    /// The tag's seed bytes.
    pub fn to_bytes(self) -> (bytes: [u8; 5])
        ensures
            bytes@ == self.seed(),
    {
        let bytes: [u8; 5] = match self {
            Tag::State => [0x73, 0x74, 0x61, 0x74, 0x65],
            Tag::Vault => [0x76, 0x61, 0x75, 0x6c, 0x74],
        };
        assert(bytes@ =~= self.seed());
        bytes
    }
}

/// The address that the ledger derives under `program_id` from the seeds
/// `tag`, `component` and the one-byte seed `bump`, or `None` where these seeds
/// derive none.
pub uninterp spec fn program_address(
    tag: Seq<u8>,
    component: Seq<u8>,
    bump: u8,
    program_id: Seq<u8>,
) -> Option<Seq<u8>>;

/// The bytes of an address that may be absent.
pub open spec fn bytes_of(address: Option<Address>) -> Option<Seq<u8>> {
    match address {
        Some(a) => Some(a@),
        None => None,
    }
}

/// `Pubkey::create_program_address` on the three seeds `tag`, `component` and
/// `[bump]`. The address it returns is the one named by [`program_address`];
/// each of its errors is reported as `None`.
#[verifier::external_body]
fn create_program_address(tag: &[u8], component: &Address, bump: u8, program_id: &Address) -> (derived:
    Option<Address>)
    ensures
        bytes_of(derived) == program_address(tag@, component@, bump, program_id@),
{
    let program = anchor_lang::prelude::Pubkey::new_from_array(program_id.bytes);
    anchor_lang::prelude::Pubkey::create_program_address(
        &[tag, &component.bytes, &[bump]],
        &program,
    ).ok().map(|key| Address { bytes: key.to_bytes() })
}

/// `Pubkey::try_find_program_address` on the two seeds `tag` and `component`.
/// It tries the bumps 255 down to 1 in turn and returns the first address that
/// `create_program_address` yields together with its bump; it returns `None`
/// when none of these bumps yields one. Bump 0 is never tried.
#[verifier::external_body]
fn try_find_program_address(tag: &[u8], component: &Address, program_id: &Address) -> (found:
    Option<(Address, u8)>)
    ensures
        match found {
            Some((address, bump)) => {
                &&& bump >= 1
                &&& program_address(tag@, component@, bump, program_id@) == Some(address@)
                &&& forall|higher: u8|
                    bump < higher ==> program_address(tag@, component@, higher, program_id@)
                        is None
            },
            None => forall|bump: u8|
                bump >= 1 ==> program_address(tag@, component@, bump, program_id@) is None,
        },
{
    let program = anchor_lang::prelude::Pubkey::new_from_array(program_id.bytes);
    anchor_lang::prelude::Pubkey::try_find_program_address(&[tag, &component.bytes], &program)
        .map(|(key, bump)| (Address { bytes: key.to_bytes() }, bump))
}

/// `bump` is the canonical bump of the seeds: the highest one under which they
/// derive an address.
pub open spec fn is_canonical_bump(
    tag: Seq<u8>,
    component: Seq<u8>,
    program_id: Seq<u8>,
    bump: u8,
) -> bool {
    &&& program_address(tag, component, bump, program_id) is Some
    &&& forall|higher: u8|
        bump < higher ==> program_address(tag, component, higher, program_id) is None
}

/// What derivation produces for a tag and a component: the address under the
/// canonical bump and that bump, or `None` where no bump derives an address.
pub open spec fn derived(tag: Seq<u8>, component: Seq<u8>, program_id: Seq<u8>) -> Option<
    (Seq<u8>, u8),
> {
    if exists|bump: u8| is_canonical_bump(tag, component, program_id, bump) {
        let bump = choose|bump: u8| is_canonical_bump(tag, component, program_id, bump);
        Some((program_address(tag, component, bump, program_id)->0, bump))
    } else {
        None
    }
}

/// Whether `claimed` is the address that the seeds derive under `bump`.
pub open spec fn derives(
    tag: Seq<u8>,
    component: Seq<u8>,
    bump: u8,
    program_id: Seq<u8>,
    claimed: Seq<u8>,
) -> bool {
    program_address(tag, component, bump, program_id) == Some(claimed)
}

/// Two canonical bumps of the same seeds are the same bump.
pub proof fn lemma_canonical_bump_unique(
    tag: Seq<u8>,
    component: Seq<u8>,
    program_id: Seq<u8>,
    first: u8,
    second: u8,
)
    requires
        is_canonical_bump(tag, component, program_id, first),
        is_canonical_bump(tag, component, program_id, second),
    ensures
        first == second,
{
}

/// The canonical bump of the seeds and the address under it are what
/// `derived` names.
pub proof fn lemma_derived_canonical(
    tag: Seq<u8>,
    component: Seq<u8>,
    program_id: Seq<u8>,
    bump: u8,
)
    requires
        is_canonical_bump(tag, component, program_id, bump),
    ensures
        derived(tag, component, program_id) == Some(
            (program_address(tag, component, bump, program_id)->0, bump),
        ),
{
    let chosen = choose|b: u8| is_canonical_bump(tag, component, program_id, b);
    lemma_canonical_bump_unique(tag, component, program_id, bump, chosen);
}

/// Derives the address for `tag` and `component` under `program_id`, trying
/// the bumps from 255 downwards and keeping the first that yields an address.
/// Fails with `DerivationExhausted` where no bump from 255 to 0 yields one.
pub fn derive(tag: Tag, component: &Address, program_id: &Address) -> (outcome: Result<
    (Address, u8),
    VaultError,
>)
    ensures
        match outcome {
            Ok((address, bump)) => {
                &&& is_canonical_bump(tag.seed(), component@, program_id@, bump)
                &&& derives(tag.seed(), component@, bump, program_id@, address@)
                &&& derived(tag.seed(), component@, program_id@) == Some((address@, bump))
            },
            Err(e) => {
                &&& e == VaultError::DerivationExhausted
                &&& forall|bump: u8|
                    program_address(tag.seed(), component@, bump, program_id@) is None
                &&& derived(tag.seed(), component@, program_id@) is None
            },
        },
{
    let seed = tag.to_bytes();
    match try_find_program_address(seed.as_slice(), component, program_id) {
        Some((address, bump)) => {
            proof {
                lemma_derived_canonical(tag.seed(), component@, program_id@, bump);
            }
            Ok((address, bump))
        },
        None => match create_program_address(seed.as_slice(), component, 0, program_id) {
            Some(address) => {
                proof {
                    lemma_derived_canonical(tag.seed(), component@, program_id@, 0);
                }
                Ok((address, 0))
            },
            None => Err(VaultError::DerivationExhausted),
        },
    }
}

/// Recomputes the address for `tag` and `component` under the stored `bump`
/// and compares it with `claimed`.
pub fn verify(tag: Tag, component: &Address, bump: u8, program_id: &Address, claimed: &Address) -> (ok:
    bool)
    ensures
        ok == derives(tag.seed(), component@, bump, program_id@, claimed@),
{
    let seed = tag.to_bytes();
    match create_program_address(seed.as_slice(), component, bump, program_id) {
        Some(address) => address.same_as(claimed),
        None => false,
    }
}

} // verus!
