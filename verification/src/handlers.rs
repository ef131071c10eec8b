//! The four vault handlers and their account sets.
//!
//! Each handler first validates the supplied account set against the vault
//! record's stored bumps, then performs at most one value transfer. A pure
//! transition function (`spec_initialize`, `spec_deposit`, `spec_withdraw`,
//! `spec_close`) states exactly what each handler returns and how it moves
//! the balances; the executable handlers are verified to follow them, with
//! no partial effects on any error.

use vstd::prelude::*;

use crate::account::{
    transfer, transfer_result, Account, Rent, TransferAuthority, VaultError,
};
use crate::address::{
    derive_state_address, derive_vault_address, state_address_for, vault_address_for, Address,
};
use crate::state::{StateAccount, VaultState, RECORD_ACCOUNT_SPACE};

verus! {

/// The bumps the host found when it first derived the two addresses; handed
/// to `initialize`, which persists them in the new record.
#[derive(Clone, Copy, Debug, PartialEq, Eq, Structural)]
pub struct InitializeBumps {
    pub vault_state: u8,
    pub vault: u8,
}

/// The account set for creating a new vault.
#[derive(Clone, Copy, Debug, PartialEq, Eq)]
pub struct Initialize {
    /// The owner creating the vault; pays for the record and the floor
    /// funding.
    pub signer: Account,
    /// The not-yet-allocated record account.
    pub vault_state: StateAccount,
    /// The not-yet-funded holding account.
    pub vault: Account,
    /// The host's rent parameters at call time.
    pub rent: Rent,
}

/// The account set shared by `deposit` and `withdraw`.
#[derive(Clone, Copy, Debug, PartialEq, Eq)]
pub struct Payment {
    pub signer: Account,
    pub vault_state: StateAccount,
    pub vault: Account,
    pub rent: Rent,
}

/// The account set for closing a vault.
#[derive(Clone, Copy, Debug, PartialEq, Eq)]
pub struct Close {
    pub signer: Account,
    pub vault_state: StateAccount,
    pub vault: Account,
}

/// What validating an account set against the record's stored bumps returns:
/// missing-signature when the signer did not co-sign; derivation-mismatch
/// when no record exists, when the record's address is not what its stored
/// `state_bump` re-derives from the signer, or when the holding account's
/// address is not what the stored `vault_bump` re-derives from the record's
/// address. This address check is the sole access control: a record derived
/// for one owner never validates against another signer.
pub open spec fn spec_check_accounts(
    signer: Account,
    vault_state: StateAccount,
    vault: Account,
) -> Result<(), VaultError> {
    if !signer.is_signer {
        Err(VaultError::MissingSignature)
    } else {
        match vault_state.record {
            None => Err(VaultError::DerivationMismatch),
            Some(record) => {
                if state_address_for(signer.address, record.state_bump) != Some(
                    vault_state.address,
                ) {
                    Err(VaultError::DerivationMismatch)
                } else if vault_address_for(vault_state.address, record.vault_bump) != Some(
                    vault.address,
                ) {
                    Err(VaultError::DerivationMismatch)
                } else {
                    Ok(())
                }
            },
        }
    }
}

/// An account set is valid when its validation reports no error.
pub open spec fn vault_accounts_valid(
    signer: Account,
    vault_state: StateAccount,
    vault: Account,
) -> bool {
    spec_check_accounts(signer, vault_state, vault) is Ok
}

/// Validates an account set against the record's stored bumps: the caller
/// must have co-signed, and re-deriving both addresses from the stored bumps
/// must reproduce exactly the addresses supplied.
pub fn check_vault_accounts(
    signer: &Account,
    vault_state: &StateAccount,
    vault: &Account,
) -> (r: Result<(), VaultError>)
    ensures
        r == spec_check_accounts(*signer, *vault_state, *vault),
{
    if !signer.is_signer {
        return Err(VaultError::MissingSignature);
    }
    let record: VaultState = match vault_state.record {
        None => {
            return Err(VaultError::DerivationMismatch);
        },
        Some(record) => record,
    };
    let state_matches: bool = match derive_state_address(signer.address, record.state_bump) {
        Some(derived) => derived == vault_state.address,
        None => false,
    };
    if !state_matches {
        return Err(VaultError::DerivationMismatch);
    }
    let vault_matches: bool = match derive_vault_address(vault_state.address, record.vault_bump) {
        Some(derived) => derived == vault.address,
        None => false,
    };
    if !vault_matches {
        return Err(VaultError::DerivationMismatch);
    }
    Ok(())
}

/// The transition `initialize` makes: after checking the signature and that
/// both supplied addresses are exactly what the given bumps derive, the
/// signer funds the record's storage deposit and fills the holding account
/// up to its dust floor, keeping at least its own dust floor; the new record
/// stores the two bumps. On any error the account set is unchanged.
pub open spec fn spec_initialize(pre: Initialize, bumps: InitializeBumps) -> (
    Initialize,
    Result<(), VaultError>,
) {
    if !pre.signer.is_signer {
        (pre, Err(VaultError::MissingSignature))
    } else if state_address_for(pre.signer.address, bumps.vault_state) != Some(
        pre.vault_state.address,
    ) {
        (pre, Err(VaultError::DerivationMismatch))
    } else if vault_address_for(pre.vault_state.address, bumps.vault) != Some(
        pre.vault.address,
    ) {
        (pre, Err(VaultError::DerivationMismatch))
    } else {
        let record_rent = pre.rent.spec_minimum_balance(RECORD_ACCOUNT_SPACE);
        let dust_floor = pre.rent.spec_minimum_balance(0);
        if pre.signer.balance < record_rent + dust_floor + dust_floor {
            (pre, Err(VaultError::InsufficientBalance))
        } else {
            (
                Initialize {
                    signer: Account {
                        address: pre.signer.address,
                        balance: (pre.signer.balance - record_rent - dust_floor) as u64,
                        is_signer: pre.signer.is_signer,
                    },
                    vault_state: StateAccount {
                        address: pre.vault_state.address,
                        balance: record_rent as u64,
                        record: Some(
                            VaultState {
                                vault_bump: bumps.vault,
                                state_bump: bumps.vault_state,
                            },
                        ),
                    },
                    vault: Account {
                        address: pre.vault.address,
                        balance: (pre.vault.balance + dust_floor) as u64,
                        is_signer: pre.vault.is_signer,
                    },
                    rent: pre.rent,
                },
                Ok(()),
            )
        }
    }
}

/// The transition `deposit` makes: on a valid account set, moves `amount`
/// from the signer to the holding account, provided the signer keeps at
/// least its own dust floor. On any error the account set is unchanged.
pub open spec fn spec_deposit(pre: Payment, amount: u64) -> (Payment, Result<(), VaultError>) {
    match spec_check_accounts(pre.signer, pre.vault_state, pre.vault) {
        Err(e) => (pre, Err(e)),
        Ok(_) => {
            if pre.signer.balance < pre.rent.spec_minimum_balance(0) + amount {
                (pre, Err(VaultError::InsufficientBalance))
            } else {
                (
                    Payment {
                        signer: Account {
                            address: pre.signer.address,
                            balance: (pre.signer.balance - amount) as u64,
                            is_signer: pre.signer.is_signer,
                        },
                        vault_state: pre.vault_state,
                        vault: Account {
                            address: pre.vault.address,
                            balance: (pre.vault.balance + amount) as u64,
                            is_signer: pre.vault.is_signer,
                        },
                        rent: pre.rent,
                    },
                    Ok(()),
                )
            }
        },
    }
}

/// The transition `withdraw` makes: on a valid account set, moves `amount`
/// from the holding account back to the signer, provided the holding account
/// keeps at least its dust floor — it fails exactly when `amount` exceeds
/// the holding balance minus that floor. On any error the account set is
/// unchanged.
pub open spec fn spec_withdraw(pre: Payment, amount: u64) -> (Payment, Result<(), VaultError>) {
    match spec_check_accounts(pre.signer, pre.vault_state, pre.vault) {
        Err(e) => (pre, Err(e)),
        Ok(_) => {
            if pre.vault.balance < pre.rent.spec_minimum_balance(0) + amount {
                (pre, Err(VaultError::InsufficientBalance))
            } else {
                (
                    Payment {
                        signer: Account {
                            address: pre.signer.address,
                            balance: (pre.signer.balance + amount) as u64,
                            is_signer: pre.signer.is_signer,
                        },
                        vault_state: pre.vault_state,
                        vault: Account {
                            address: pre.vault.address,
                            balance: (pre.vault.balance - amount) as u64,
                            is_signer: pre.vault.is_signer,
                        },
                        rent: pre.rent,
                    },
                    Ok(()),
                )
            }
        },
    }
}

/// The transition `close` makes: on a valid account set, the signer receives
/// the holding account's entire current balance — never a caller-chosen
/// amount — plus the record's storage deposit, and the record ceases to
/// exist. On any error the account set is unchanged.
pub open spec fn spec_close(pre: Close) -> (Close, Result<(), VaultError>) {
    match spec_check_accounts(pre.signer, pre.vault_state, pre.vault) {
        Err(e) => (pre, Err(e)),
        Ok(_) => (
            Close {
                signer: Account {
                    address: pre.signer.address,
                    balance: (pre.signer.balance + pre.vault.balance
                        + pre.vault_state.balance) as u64,
                    is_signer: pre.signer.is_signer,
                },
                vault_state: StateAccount {
                    address: pre.vault_state.address,
                    balance: 0,
                    record: None,
                },
                vault: Account {
                    address: pre.vault.address,
                    balance: 0,
                    is_signer: pre.vault.is_signer,
                },
            },
            Ok(()),
        ),
    }
}

impl Initialize {
    /// Creates the vault: verifies that the supplied record and holding
    /// addresses are exactly what the given bumps derive from the signer,
    /// allocates the record funded by the signer, transfers the rent-exempt
    /// threshold into the holding account, and persists the two bumps.
    pub fn initialize(&mut self, bumps: &InitializeBumps) -> (r: Result<(), VaultError>)
        requires
            old(self).vault_state.record is None,
            old(self).vault_state.balance == 0,
            old(self).vault.balance == 0,
            old(self).rent.spec_minimum_balance(RECORD_ACCOUNT_SPACE) <= u64::MAX,
        ensures
            *final(self) == spec_initialize(*old(self), *bumps).0,
            r == spec_initialize(*old(self), *bumps).1,
    {
        if !self.signer.is_signer {
            return Err(VaultError::MissingSignature);
        }
        let state_matches: bool = match derive_state_address(
            self.signer.address,
            bumps.vault_state,
        ) {
            Some(derived) => derived == self.vault_state.address,
            None => false,
        };
        if !state_matches {
            return Err(VaultError::DerivationMismatch);
        }
        let vault_matches: bool = match derive_vault_address(
            self.vault_state.address,
            bumps.vault,
        ) {
            Some(derived) => derived == self.vault.address,
            None => false,
        };
        if !vault_matches {
            return Err(VaultError::DerivationMismatch);
        }
        // How much the record's storage costs, and how much keeps a
        // data-less account alive.
        let record_rent: u64 = self.rent.minimum_balance(RECORD_ACCOUNT_SPACE);
        let rent_exempt: u64 = self.rent.minimum_balance(0);
        // All or nothing: the full cost is checked before any balance moves.
        if self.signer.balance < record_rent || self.signer.balance - record_rent
            < rent_exempt || self.signer.balance - record_rent - rent_exempt < rent_exempt {
            return Err(VaultError::InsufficientBalance);
        }
        // The host allocates the record account, funded by the signer.
        self.signer.balance = self.signer.balance - record_rent;
        self.vault_state.balance = record_rent;
        // Fund the holding account up to its dust floor.
        let funded = transfer(
            &mut self.signer,
            &mut self.vault,
            rent_exempt,
            rent_exempt,
            &TransferAuthority::SignedByFrom,
        );
        match funded {
            Err(e) => Err(e),
            Ok(_) => {
                // Save the bump seeds for later use.
                self.vault_state.record = Some(
                    VaultState { vault_bump: bumps.vault, state_bump: bumps.vault_state },
                );
                Ok(())
            },
        }
    }
}

impl Payment {
    /// Moves `amount` from the signer into the holding account. Anyone may
    /// fund a vault; no authorization beyond the co-signature is needed.
    pub fn deposit(&mut self, amount: u64) -> (r: Result<(), VaultError>)
        requires
            old(self).signer.balance + old(self).vault.balance <= u64::MAX,
        ensures
            *final(self) == spec_deposit(*old(self), amount).0,
            r == spec_deposit(*old(self), amount).1,
    {
        match check_vault_accounts(&self.signer, &self.vault_state, &self.vault) {
            Err(e) => Err(e),
            Ok(_) => {
                let floor: u64 = self.rent.minimum_balance(0);
                transfer(
                    &mut self.signer,
                    &mut self.vault,
                    amount,
                    floor,
                    &TransferAuthority::SignedByFrom,
                )
            },
        }
    }

    /// Moves `amount` from the holding account back to the signer. The
    /// holding account has no private key, so the transfer is authorized by
    /// re-deriving its address from the record's address and stored bump.
    pub fn withdraw(&mut self, amount: u64) -> (r: Result<(), VaultError>)
        requires
            old(self).signer.balance + old(self).vault.balance <= u64::MAX,
        ensures
            *final(self) == spec_withdraw(*old(self), amount).0,
            r == spec_withdraw(*old(self), amount).1,
    {
        match check_vault_accounts(&self.signer, &self.vault_state, &self.vault) {
            Err(e) => Err(e),
            Ok(_) => {
                let record: VaultState = match self.vault_state.record {
                    Some(record) => record,
                    None => {
                        return Err(VaultError::DerivationMismatch);
                    },
                };
                let floor: u64 = self.rent.minimum_balance(0);
                transfer(
                    &mut self.vault,
                    &mut self.signer,
                    amount,
                    floor,
                    &TransferAuthority::Derived {
                        state_address: self.vault_state.address,
                        bump: record.vault_bump,
                    },
                )
            },
        }
    }
}

impl Close {
    /// Empties the holding account — its entire balance as read now, not a
    /// caller-supplied amount — back to the signer, authorized by
    /// re-derivation like `withdraw`, then deallocates the record and
    /// returns its storage deposit to the signer.
    pub fn close(&mut self) -> (r: Result<(), VaultError>)
        requires
            old(self).signer.balance + old(self).vault.balance + old(self).vault_state.balance
                <= u64::MAX,
        ensures
            *final(self) == spec_close(*old(self)).0,
            r == spec_close(*old(self)).1,
    {
        match check_vault_accounts(&self.signer, &self.vault_state, &self.vault) {
            Err(e) => Err(e),
            Ok(_) => {
                let record: VaultState = match self.vault_state.record {
                    Some(record) => record,
                    None => {
                        return Err(VaultError::DerivationMismatch);
                    },
                };
                // Send all remaining units; draining to zero is allowed, the
                // address simply becomes inactive again.
                let amount: u64 = self.vault.balance;
                let drained = transfer(
                    &mut self.vault,
                    &mut self.signer,
                    amount,
                    0,
                    &TransferAuthority::Derived {
                        state_address: self.vault_state.address,
                        bump: record.vault_bump,
                    },
                );
                match drained {
                    Err(e) => Err(e),
                    Ok(_) => {
                        // The host deallocates the record and refunds its
                        // storage deposit to the signer.
                        self.signer.balance = self.signer.balance + self.vault_state.balance;
                        self.vault_state.balance = 0;
                        self.vault_state.record = None;
                        Ok(())
                    },
                }
            },
        }
    }
}

} // verus!
