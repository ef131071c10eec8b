//! Unit tests for the model's primitives: address derivation, rent, and the
//! native transfer.

use vault::{
    derive_state_address, derive_vault_address, transfer, Account, Address, Rent,
    TransferAuthority, VaultError, RECORD_ACCOUNT_SPACE,
};

#[test]
fn record_account_space_counts_header_and_payload() {
    assert_eq!(RECORD_ACCOUNT_SPACE, 10);
}

#[test]
fn minimum_balance_formula() {
    let rent = Rent { base: 100, per_byte: 3 };
    assert_eq!(rent.minimum_balance(0), 100);
    assert_eq!(rent.minimum_balance(10), 130);
    assert_eq!(rent.minimum_balance(RECORD_ACCOUNT_SPACE), 130);
}

#[test]
fn state_address_derivation_shapes() {
    assert_eq!(
        derive_state_address(Address::Wallet(5), 7),
        Some(Address::StateAddress { owner: 5, bump: 7 })
    );
    // Only a wallet seeds a record address.
    assert_eq!(derive_state_address(Address::StateAddress { owner: 5, bump: 7 }, 7), None);
    assert_eq!(
        derive_state_address(Address::VaultAddress { owner: 5, state_bump: 7, bump: 9 }, 7),
        None
    );
    // Different owners or bumps give different addresses.
    assert_ne!(derive_state_address(Address::Wallet(5), 7), derive_state_address(Address::Wallet(6), 7));
    assert_ne!(derive_state_address(Address::Wallet(5), 7), derive_state_address(Address::Wallet(5), 8));
}

#[test]
fn vault_address_derivation_shapes() {
    let record = Address::StateAddress { owner: 5, bump: 7 };
    assert_eq!(
        derive_vault_address(record, 9),
        Some(Address::VaultAddress { owner: 5, state_bump: 7, bump: 9 })
    );
    // Only a record address seeds a holding address.
    assert_eq!(derive_vault_address(Address::Wallet(5), 9), None);
    assert_ne!(derive_vault_address(record, 9), derive_vault_address(record, 10));
}

#[test]
fn transfer_moves_value_when_signed() {
    let mut from = Account { address: Address::Wallet(1), balance: 100, is_signer: true };
    let mut to = Account { address: Address::Wallet(2), balance: 5, is_signer: false };
    assert_eq!(transfer(&mut from, &mut to, 30, 10, &TransferAuthority::SignedByFrom), Ok(()));
    assert_eq!(from.balance, 70);
    assert_eq!(to.balance, 35);
}

#[test]
fn transfer_rejects_debit_below_floor() {
    let mut from = Account { address: Address::Wallet(1), balance: 100, is_signer: true };
    let mut to = Account { address: Address::Wallet(2), balance: 5, is_signer: false };
    assert_eq!(
        transfer(&mut from, &mut to, 91, 10, &TransferAuthority::SignedByFrom),
        Err(VaultError::InsufficientBalance)
    );
    assert_eq!(from.balance, 100);
    assert_eq!(to.balance, 5);
    // Exactly down to the floor is allowed.
    assert_eq!(transfer(&mut from, &mut to, 90, 10, &TransferAuthority::SignedByFrom), Ok(()));
    assert_eq!(from.balance, 10);
}

#[test]
fn transfer_rejects_unsigned_debit() {
    let mut from = Account { address: Address::Wallet(1), balance: 100, is_signer: false };
    let mut to = Account { address: Address::Wallet(2), balance: 5, is_signer: false };
    assert_eq!(
        transfer(&mut from, &mut to, 1, 0, &TransferAuthority::SignedByFrom),
        Err(VaultError::MissingSignature)
    );
    assert_eq!(from.balance, 100);
    assert_eq!(to.balance, 5);
}

#[test]
fn transfer_checks_derived_authority_seeds() {
    let record = Address::StateAddress { owner: 1, bump: 254 };
    let mut holding = Account {
        address: Address::VaultAddress { owner: 1, state_bump: 254, bump: 253 },
        balance: 50,
        is_signer: false,
    };
    let mut owner = Account { address: Address::Wallet(1), balance: 0, is_signer: true };
    // Seeds that re-derive the holding address act in place of a signature.
    let good = TransferAuthority::Derived { state_address: record, bump: 253 };
    assert_eq!(transfer(&mut holding, &mut owner, 20, 10, &good), Ok(()));
    assert_eq!(holding.balance, 30);
    assert_eq!(owner.balance, 20);
    // Any other bump fails to re-derive it, whatever the balances.
    let bad = TransferAuthority::Derived { state_address: record, bump: 252 };
    assert_eq!(
        transfer(&mut holding, &mut owner, 20, 10, &bad),
        Err(VaultError::DerivationMismatch)
    );
    assert_eq!(holding.balance, 30);
    assert_eq!(owner.balance, 20);
}
