//! The vault record: the durable per-owner state.

use vstd::prelude::*;

use crate::address::Address;

verus! {

/// Bytes of fixed metadata header the host's account-storage format puts in
/// front of a record's payload.
pub const RECORD_HEADER_SPACE: u64 = 8;

/// Bytes of payload a vault record stores: the two one-byte bumps.
pub const RECORD_PAYLOAD_SPACE: u64 = 2;

/// Total storage a vault record account allocates.
pub const RECORD_ACCOUNT_SPACE: u64 = RECORD_HEADER_SPACE + RECORD_PAYLOAD_SPACE;

/// The payload of a vault record: the two derivation salts, fixed at creation
/// and never changed for the life of the record.
#[derive(Clone, Copy, Debug, PartialEq, Eq, Structural)]
pub struct VaultState {
    /// The bump that makes the holding account's address reproducible.
    pub vault_bump: u8,
    /// The bump that makes the record's own address reproducible.
    pub state_bump: u8,
}

/// The ledger account that carries a vault record: its address, the balance
/// that funds its storage allocation, and the record itself — `None` while
/// the account is not allocated.
#[derive(Clone, Copy, Debug, PartialEq, Eq)]
pub struct StateAccount {
    pub address: Address,
    /// The storage deposit held by the account; returned to the owner when
    /// the record is closed.
    pub balance: u64,
    /// The stored bumps; `None` when no record exists at this address.
    pub record: Option<VaultState>,
}

} // verus!
