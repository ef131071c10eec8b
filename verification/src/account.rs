//! Value-holding accounts, rent, and the native transfer primitive.

use vstd::prelude::*;

use crate::address::{vault_address_for, Address};

verus! {

/// Why a vault operation was rejected. Every error aborts the whole call
/// with no partial effects.
#[derive(Clone, Copy, Debug, PartialEq, Eq, Structural)]
pub enum VaultError {
    /// A supplied account's address does not match the address recomputed
    /// from the stored seeds and bump.
    DerivationMismatch,
    /// A transfer would take an account below its required dust floor.
    InsufficientBalance,
    /// A required signer did not co-sign the call.
    MissingSignature,
}

/// An account holding native currency units.
#[derive(Clone, Copy, Debug, PartialEq, Eq, Structural)]
pub struct Account {
    pub address: Address,
    /// Balance in native units.
    pub balance: u64,
    /// Whether this account co-signed the current call.
    pub is_signer: bool,
}

/// The host's rent parameters: what it costs to keep an allocated account
/// alive.
#[derive(Clone, Copy, Debug, PartialEq, Eq, Structural)]
pub struct Rent {
    /// Minimum balance of an account with no data: the dust floor of every
    /// wallet and of the vault holding account.
    pub base: u64,
    /// Additional minimum balance per byte of allocated storage.
    pub per_byte: u64,
}

impl Rent {
    /// The minimum balance an account with `space` bytes of data must keep
    /// to remain allocated.
    pub open spec fn spec_minimum_balance(self, space: u64) -> int {
        self.base + self.per_byte * space
    }

    /// Computes the rent-exempt threshold for an account of `space` bytes.
    pub fn minimum_balance(&self, space: u64) -> (r: u64)
        requires
            self.spec_minimum_balance(space) <= u64::MAX,
        ensures
            r == self.spec_minimum_balance(space),
    {
        self.base + self.per_byte * space
    }
}

/// Who vouches for the debited side of a transfer.
#[derive(Clone, Copy, Debug, PartialEq, Eq, Structural)]
pub enum TransferAuthority {
    /// The debited account itself co-signed the call.
    SignedByFrom,
    /// Derived-address authorization: the program re-derives the debited
    /// account's address from `derive("vault", [state_address], bump)` and
    /// presents that successful re-derivation as proof of authority, in
    /// place of a signature the key-less account cannot give.
    Derived { state_address: Address, bump: u8 },
}

/// The authorization error a transfer reports, or `None` when the authority
/// covers the debited account.
pub open spec fn authority_error(from: Account, authority: TransferAuthority) -> Option<
    VaultError,
> {
    match authority {
        TransferAuthority::SignedByFrom => if from.is_signer {
            None
        } else {
            Some(VaultError::MissingSignature)
        },
        TransferAuthority::Derived { state_address, bump } => if vault_address_for(
            state_address,
            bump,
        ) == Some(from.address) {
            None
        } else {
            Some(VaultError::DerivationMismatch)
        },
    }
}

/// What a transfer of `amount` out of `from` returns: the authorization
/// error if the authority does not cover `from`; insufficient-balance if the
/// debit would drop `from` below `floor`; success otherwise.
pub open spec fn transfer_result(
    from: Account,
    amount: u64,
    floor: u64,
    authority: TransferAuthority,
) -> Result<(), VaultError> {
    match authority_error(from, authority) {
        Some(e) => Err(e),
        None => if from.balance < floor + amount {
            Err(VaultError::InsufficientBalance)
        } else {
            Ok(())
        },
    }
}

/// The host ledger's native value-transfer primitive: moves `amount` units
/// from `from` to `to`, provided the authority covers `from` and the debit
/// leaves `from` at or above `floor`. On any error, neither account changes.
pub fn transfer(
    from: &mut Account,
    to: &mut Account,
    amount: u64,
    floor: u64,
    authority: &TransferAuthority,
) -> (r: Result<(), VaultError>)
    requires
        old(from).balance + old(to).balance <= u64::MAX,
    ensures
        r == transfer_result(*old(from), amount, floor, *authority),
        final(from).address == old(from).address,
        final(from).is_signer == old(from).is_signer,
        final(to).address == old(to).address,
        final(to).is_signer == old(to).is_signer,
        r is Ok ==> final(from).balance == old(from).balance - amount && final(to).balance
            == old(to).balance + amount,
        r is Err ==> *final(from) == *old(from) && *final(to) == *old(to),
{
    let authorized: bool = match authority {
        TransferAuthority::SignedByFrom => from.is_signer,
        TransferAuthority::Derived { state_address, bump } => {
            match crate::address::derive_vault_address(*state_address, *bump) {
                Some(derived) => derived == from.address,
                None => false,
            }
        },
    };
    if !authorized {
        match authority {
            TransferAuthority::SignedByFrom => Err(VaultError::MissingSignature),
            TransferAuthority::Derived { .. } => Err(VaultError::DerivationMismatch),
        }
    } else if from.balance < floor || from.balance - floor < amount {
        Err(VaultError::InsufficientBalance)
    } else {
        from.balance = from.balance - amount;
        to.balance = to.balance + amount;
        Ok(())
    }
}

} // verus!
