//! Addresses and deterministic address derivation.
//!
//! The host ledger derives an address from a fixed tag, a seed, and a one-byte
//! salt ("bump"); a derived address has no private key of its own. This
//! program only ever derives two shapes of address: the vault record's, tagged
//! `"state"` and seeded with the owner's wallet address, and the holding
//! account's, tagged `"vault"` and seeded with the record's address. The model
//! keeps an address symbolic — a derived address remembers exactly the tag,
//! seed, and bump it was derived from — so re-derivation and comparison is
//! structural equality, and derivation is injective by construction.

use vstd::prelude::*;

verus! {

/// An address on the ledger: either a wallet that can sign on its own, or an
/// address derived from a tag, a seed address, and a bump.
#[derive(Clone, Copy, Debug, PartialEq, Eq, Structural)]
pub enum Address {
    /// An externally owned account; the `u64` stands for its public key.
    Wallet(u64),
    /// `derive("state", [Wallet(owner)], bump)`: a vault record's address.
    StateAddress { owner: u64, bump: u8 },
    /// `derive("vault", [StateAddress { owner, bump: state_bump }], bump)`:
    /// a vault holding account's address.
    VaultAddress { owner: u64, state_bump: u8, bump: u8 },
}

/// The address that the `"state"` tag derives from an owner's wallet with the
/// given bump, or `None` when the seed is not a wallet address.
pub open spec fn state_address_for(owner: Address, bump: u8) -> Option<Address> {
    match owner {
        Address::Wallet(key) => Some(Address::StateAddress { owner: key, bump }),
        _ => None,
    }
}

/// The address that the `"vault"` tag derives from a vault record's address
/// with the given bump, or `None` when the seed is not a record's address.
pub open spec fn vault_address_for(record: Address, bump: u8) -> Option<Address> {
    match record {
        Address::StateAddress { owner, bump: state_bump } => Some(
            Address::VaultAddress { owner, state_bump, bump },
        ),
        _ => None,
    }
}

/// Re-derives a vault record's address: `derive("state", [owner], bump)`.
pub fn derive_state_address(owner: Address, bump: u8) -> (r: Option<Address>)
    ensures
        r == state_address_for(owner, bump),
{
    match owner {
        Address::Wallet(key) => Some(Address::StateAddress { owner: key, bump }),
        _ => None,
    }
}

/// Re-derives a vault holding account's address:
/// `derive("vault", [record], bump)`.
pub fn derive_vault_address(record: Address, bump: u8) -> (r: Option<Address>)
    ensures
        r == vault_address_for(record, bump),
{
    match record {
        Address::StateAddress { owner, bump: state_bump } => Some(
            Address::VaultAddress { owner, state_bump, bump },
        ),
        _ => None,
    }
}

/// Derivation with the `"state"` tag is injective: a record address pins down
/// both the owner it was derived for and the bump that was used.
pub proof fn lemma_state_address_injective(o1: Address, b1: u8, o2: Address, b2: u8)
    requires
        state_address_for(o1, b1) is Some,
        state_address_for(o1, b1) == state_address_for(o2, b2),
    ensures
        o1 == o2,
        b1 == b2,
{
}

/// Derivation with the `"vault"` tag is injective: a holding account address
/// pins down both the record address it was derived from and the bump used.
pub proof fn lemma_vault_address_injective(r1: Address, b1: u8, r2: Address, b2: u8)
    requires
        vault_address_for(r1, b1) is Some,
        vault_address_for(r1, b1) == vault_address_for(r2, b2),
    ensures
        r1 == r2,
        b1 == b2,
{
}

} // verus!
