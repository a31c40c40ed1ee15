use vstd::prelude::*;

use crate::pubkey::Pubkey;

verus! {

/// The persistent record of one vault.
#[derive(Clone, Copy, Debug)]
pub struct Vault {
    /// The identity that may withdraw, pause, resume, log and close.
    pub authority: Pubkey,
    /// Cumulative amount deposited, in the smallest value unit.
    pub total_deposited: u64,
    /// Cumulative amount withdrawn, in the smallest value unit.
    pub total_withdrawn: u64,
    /// Number of deposits, withdrawals and log entries so far.
    pub tx_count: u64,
    /// The bump seed that re-derives this vault's address.
    pub bump: u8,
    /// The kill switch: while set, no value moves in or out.
    pub is_paused: bool,
}

impl Vault {
    /// Stored size: record tag, authority, three counters, bump, pause flag.
    pub const SPACE: usize = 8 + 32 + 8 + 8 + 8 + 1 + 1;
}

/// A vault record together with the custodial balance of its account.
#[derive(Clone, Copy, Debug)]
pub struct VaultAccount {
    /// The vault's address.
    pub key: Pubkey,
    pub data: Vault,
    /// The value the account holds, reserve floor included.
    pub lamports: u64,
    /// The minimum the account must keep to remain stored.
    pub reserve: u64,
}

impl VaultAccount {
    /// The custodial balance is the reserve floor plus what was deposited and
    /// not withdrawn.
    pub open spec fn conserved(&self) -> bool {
        self.data.total_withdrawn <= self.data.total_deposited
            && self.lamports == self.reserve + self.data.total_deposited
            - self.data.total_withdrawn
    }

    /// What may be withdrawn: the balance above the reserve floor.
    pub open spec fn spec_available(&self) -> nat {
        if self.lamports >= self.reserve {
            (self.lamports - self.reserve) as nat
        } else {
            0
        }
    }

    pub fn available(&self) -> (r: u64)
        ensures
            r == self.spec_available(),
    {
        self.lamports.saturating_sub(self.reserve)
    }
}

/// The kind of action an audit record describes.
#[derive(Clone, Copy, Debug, PartialEq, Eq, Structural)]
pub enum TxType {
    Deposit,
    Withdraw,
    Swap,
    Bundle,
    Transfer,
}

/// The longest description a record may hold, in bytes.
pub const MAX_DESCRIPTION_LEN: usize = 128;

/// One immutable audit entry.
#[derive(Clone, Debug)]
pub struct TransactionRecord {
    /// The address of the vault the record belongs to.
    pub vault: Pubkey,
    /// The identity that created the record.
    pub authority: Pubkey,
    pub tx_type: TxType,
    pub amount: u64,
    pub description: String,
    /// Host time when the record was written.
    pub timestamp: i64,
    /// Host slot when the record was written.
    pub slot: u64,
}

impl TransactionRecord {
    /// Stored size: tag, two keys, type, amount, length-prefixed
    /// description, timestamp and slot.
    pub const SPACE: usize = 8 + 32 + 32 + 1 + 8 + (4 + 128) + 8 + 8;
}

/// Why an operation was rejected.
#[derive(Clone, Copy, Debug, PartialEq, Eq, Structural)]
pub enum VaultError {
    /// The amount is zero.
    InvalidAmount,
    /// The withdrawal exceeds the balance above the reserve floor.
    InsufficientFunds,
    /// The caller is not the vault's authority.
    Unauthorized,
    /// A counter or balance would leave the 64-bit range.
    Overflow,
    /// The description is longer than the limit.
    DescriptionTooLong,
    /// Value movement was attempted while the vault is paused.
    VaultPaused,
}

/// Emitted when a vault is created.
#[derive(Clone, Copy, Debug)]
pub struct VaultCreated {
    pub vault: Pubkey,
    pub authority: Pubkey,
}

/// Emitted on each successful deposit.
#[derive(Clone, Copy, Debug)]
pub struct DepositEvent {
    pub vault: Pubkey,
    pub depositor: Pubkey,
    pub amount: u64,
    pub total_deposited: u64,
}

/// Emitted on each successful withdrawal.
#[derive(Clone, Copy, Debug)]
pub struct WithdrawEvent {
    pub vault: Pubkey,
    pub authority: Pubkey,
    pub amount: u64,
    pub total_withdrawn: u64,
}

/// Emitted when the vault is paused.
#[derive(Clone, Copy, Debug)]
pub struct VaultPaused {
    pub vault: Pubkey,
    pub authority: Pubkey,
    pub timestamp: i64,
}

/// Emitted when the vault is resumed.
#[derive(Clone, Copy, Debug)]
pub struct VaultResumed {
    pub vault: Pubkey,
    pub authority: Pubkey,
    pub timestamp: i64,
}

/// Emitted when an audit record is written.
#[derive(Clone, Debug)]
pub struct TransactionLogged {
    pub vault: Pubkey,
    pub tx_type: TxType,
    pub amount: u64,
    pub description: String,
    pub timestamp: i64,
}

} // verus!
