//! A per-owner custodial value vault.
//!
//! Each owner holds exactly one vault: a durable *vault record* that stores
//! the two derivation salts ("bumps") fixed at creation, and a key-less
//! *holding account* that custodies the deposited value. Four handlers —
//! `initialize`, `deposit`, `withdraw`, `close` — validate the supplied
//! account set against the record's stored bumps and move value through a
//! single transfer primitive. Every handler is specified by a pure
//! transition function and verified against it.

use vstd::prelude::*;

pub mod account;
pub mod address;
pub mod handlers;
pub mod laws;
pub mod state;

pub use account::{transfer, Account, Rent, TransferAuthority, VaultError};
pub use address::{derive_state_address, derive_vault_address, Address};
pub use handlers::{check_vault_accounts, Close, Initialize, InitializeBumps, Payment};
pub use state::{StateAccount, VaultState, RECORD_ACCOUNT_SPACE};

verus! {

/// Creates a new vault for the signing owner: allocates the vault record and
/// funds the holding account up to its dust floor.
pub fn initialize(ctx: &mut Initialize, bumps: &InitializeBumps) -> (r: Result<(), VaultError>)
    requires
        old(ctx).vault_state.record is None,
        old(ctx).vault_state.balance == 0,
        old(ctx).vault.balance == 0,
        old(ctx).rent.spec_minimum_balance(RECORD_ACCOUNT_SPACE) <= u64::MAX,
    ensures
        *final(ctx) == handlers::spec_initialize(*old(ctx), *bumps).0,
        r == handlers::spec_initialize(*old(ctx), *bumps).1,
{
    ctx.initialize(bumps)
}

/// Moves `amount` native units from the signer into the vault's holding account.
pub fn deposit(ctx: &mut Payment, amount: u64) -> (r: Result<(), VaultError>)
    requires
        old(ctx).signer.balance + old(ctx).vault.balance <= u64::MAX,
    ensures
        *final(ctx) == handlers::spec_deposit(*old(ctx), amount).0,
        r == handlers::spec_deposit(*old(ctx), amount).1,
{
    ctx.deposit(amount)
}

/// Moves `amount` native units out of the vault's holding account back to the
/// signer, authorized by re-deriving the holding account's address.
pub fn withdraw(ctx: &mut Payment, amount: u64) -> (r: Result<(), VaultError>)
    requires
        old(ctx).signer.balance + old(ctx).vault.balance <= u64::MAX,
    ensures
        *final(ctx) == handlers::spec_withdraw(*old(ctx), amount).0,
        r == handlers::spec_withdraw(*old(ctx), amount).1,
{
    ctx.withdraw(amount)
}

/// Drains the holding account's entire current balance to the signer and
/// deallocates the vault record, refunding its storage deposit.
pub fn close(ctx: &mut Close) -> (r: Result<(), VaultError>)
    requires
        old(ctx).signer.balance + old(ctx).vault.balance + old(ctx).vault_state.balance
            <= u64::MAX,
    ensures
        *final(ctx) == handlers::spec_close(*old(ctx)).0,
        r == handlers::spec_close(*old(ctx)).1,
{
    ctx.close()
}

} // verus!
