//! The laws the vault keeps, stated over the handlers' transition functions
//! and proved once for all inputs.

use vstd::prelude::*;

use crate::account::{Account, VaultError};
use crate::address::{state_address_for, vault_address_for, Address};
use crate::handlers::{
    spec_check_accounts, spec_close, spec_deposit, spec_initialize, spec_withdraw,
    vault_accounts_valid, Close, Initialize, InitializeBumps, Payment,
};
use crate::state::{StateAccount, RECORD_ACCOUNT_SPACE};

verus! {

/// Creating a vault and closing it again, with nothing in between, returns
/// every unit the owner paid: the storage deposit and the dust-floor funding
/// both come back, so the owner's balance ends exactly where it began.
pub proof fn lemma_initialize_then_close(pre: Initialize, bumps: InitializeBumps)
    requires
        pre.vault_state.record is None,
        pre.vault_state.balance == 0,
        pre.vault.balance == 0,
        pre.rent.spec_minimum_balance(RECORD_ACCOUNT_SPACE) <= u64::MAX,
    ensures
        ({
            let (mid, created) = spec_initialize(pre, bumps);
            let closing = (Close {
                signer: mid.signer,
                vault_state: mid.vault_state,
                vault: mid.vault,
            });
            let (post, closed) = spec_close(closing);
            created is Ok ==> closed is Ok && post.signer.balance == pre.signer.balance
                && post.vault.balance == 0 && post.vault_state.record is None
        }),
{
}

/// The bumps stored in a valid record pin both addresses: re-deriving with
/// the stored bumps reproduces exactly the supplied record and holding
/// addresses, and re-deriving with any other bump yields a different
/// address, so a call supplying it is rejected.
pub proof fn lemma_stored_bumps_pin_addresses(
    signer: Account,
    vault_state: StateAccount,
    vault: Account,
    other_bump: u8,
)
    requires
        vault_accounts_valid(signer, vault_state, vault),
    ensures
        vault_state.record is Some,
        (vault_state.record matches Some(record) ==> {
            &&& state_address_for(signer.address, record.state_bump) == Some(
                vault_state.address,
            )
            &&& vault_address_for(vault_state.address, record.vault_bump) == Some(
                vault.address,
            )
            &&& other_bump != record.state_bump ==> state_address_for(
                signer.address,
                other_bump,
            ) != Some(vault_state.address)
            &&& other_bump != record.vault_bump ==> vault_address_for(
                vault_state.address,
                other_bump,
            ) != Some(vault.address)
        }),
{
}

/// A deposit followed by a withdrawal of the same amount, with no call in
/// between, restores every balance — in particular the holding account's —
/// to its pre-deposit value. The holding account must start at or above its
/// dust floor, as every account `initialize` funded does.
pub proof fn lemma_deposit_then_withdraw(pre: Payment, amount: u64)
    requires
        pre.rent.spec_minimum_balance(0) <= pre.vault.balance,
        pre.signer.balance + pre.vault.balance <= u64::MAX,
    ensures
        ({
            let (mid, deposited) = spec_deposit(pre, amount);
            let (post, withdrawn) = spec_withdraw(mid, amount);
            deposited is Ok ==> withdrawn is Ok && post == pre
        }),
{
}

/// Closing transfers the holding account's entire current balance together
/// with the record's storage deposit — the caller supplies no amount and
/// nothing is held back.
pub proof fn lemma_close_drains_everything(pre: Close)
    requires
        pre.signer.balance + pre.vault.balance + pre.vault_state.balance <= u64::MAX,
    ensures
        ({
            let (post, closed) = spec_close(pre);
            closed is Ok ==> post.vault.balance == 0 && post.vault_state.record is None
                && post.signer.balance == pre.signer.balance + pre.vault.balance
                + pre.vault_state.balance
        }),
{
}

/// Even immediately after a deposit, closing returns the whole holding
/// balance — the fresh deposit included — plus the storage deposit.
pub proof fn lemma_deposit_then_close(pre: Payment, amount: u64)
    requires
        pre.signer.balance + pre.vault.balance + pre.vault_state.balance <= u64::MAX,
    ensures
        ({
            let (mid, deposited) = spec_deposit(pre, amount);
            let closing = (Close {
                signer: mid.signer,
                vault_state: mid.vault_state,
                vault: mid.vault,
            });
            let (post, closed) = spec_close(closing);
            deposited is Ok ==> closed is Ok && post.vault.balance == 0
                && post.signer.balance == pre.signer.balance + pre.vault.balance
                + pre.vault_state.balance
        }),
{
}

/// A signer presenting a record derived for a different owner is rejected
/// with a derivation mismatch before any value moves.
pub proof fn lemma_withdraw_foreign_record_rejected(pre: Payment, amount: u64)
    requires
        pre.signer.is_signer,
        pre.signer.address matches Address::Wallet(caller) && pre.vault_state.address matches Address::StateAddress {
            owner,
            ..
        } && caller != owner,
    ensures
        ({
            let (post, rejected) = spec_withdraw(pre, amount);
            post == pre && rejected == Err::<(), VaultError>(VaultError::DerivationMismatch)
        }),
{
}

} // verus!
