use vstd::prelude::*;

use crate::pubkey::Pubkey;
use crate::state::{
    DepositEvent, TransactionLogged, TransactionRecord, TxType, Vault, VaultAccount,
    VaultCreated, VaultError, VaultPaused, VaultResumed, WithdrawEvent, MAX_DESCRIPTION_LEN,
};

verus! {

/// Accounts for creating a vault.
pub struct InitializeVault {
    /// The address derived for the vault.
    pub vault_key: Pubkey,
    /// The bump seed the address was derived with.
    pub bump: u8,
    /// The identity that will control the vault.
    pub authority: Pubkey,
    /// The reserve floor the new account is funded with.
    pub reserve: u64,
}

/// Accounts for a deposit: any party may fund any vault.
pub struct Deposit {
    pub vault: VaultAccount,
    pub depositor: Pubkey,
}

/// Accounts for a withdrawal to the authority.
pub struct Withdraw {
    pub vault: VaultAccount,
    /// The signer, who must be the vault's authority.
    pub authority: Pubkey,
    /// The signer's balance, credited with the amount withdrawn.
    pub authority_lamports: u64,
}

/// Accounts for pausing or resuming a vault.
pub struct EmergencyPause {
    pub vault: VaultAccount,
    pub authority: Pubkey,
    /// Host time of the call.
    pub timestamp: i64,
}

/// Accounts for closing a vault.
pub struct CloseVault {
    pub vault: VaultAccount,
    pub authority: Pubkey,
    /// The signer's balance, credited with everything the vault holds.
    pub authority_lamports: u64,
}

/// Accounts for writing an audit record.
pub struct LogTransaction {
    pub vault: VaultAccount,
    pub authority: Pubkey,
    /// Host time of the call.
    pub timestamp: i64,
    /// Host slot of the call.
    pub slot: u64,
}

/// Length in bytes of the UTF-8 encoding of `s`, as `str::len` reports it.
pub open spec fn utf8_len(s: Seq<char>) -> int {
    (vstd::utf8::encode_utf8(s).len() as usize) as int
}

/// The account a new vault starts as.
pub open spec fn initial_account(ctx: InitializeVault) -> VaultAccount {
    VaultAccount {
        key: ctx.vault_key,
        data: Vault {
            authority: ctx.authority,
            total_deposited: 0,
            total_withdrawn: 0,
            tx_count: 0,
            bump: ctx.bump,
            is_paused: false,
        },
        lamports: ctx.reserve,
        reserve: ctx.reserve,
    }
}

/// The vault after a deposit of `amount`, or why it is refused.
pub open spec fn deposit_outcome(acct: VaultAccount, amount: u64) -> Result<VaultAccount, VaultError> {
    if acct.data.is_paused {
        Err(VaultError::VaultPaused)
    } else if amount == 0 {
        Err(VaultError::InvalidAmount)
    } else if acct.lamports + amount > u64::MAX || acct.data.total_deposited + amount > u64::MAX
        || acct.data.tx_count + 1 > u64::MAX {
        Err(VaultError::Overflow)
    } else {
        Ok(
            VaultAccount {
                lamports: (acct.lamports + amount) as u64,
                data: Vault {
                    total_deposited: (acct.data.total_deposited + amount) as u64,
                    tx_count: (acct.data.tx_count + 1) as u64,
                    ..acct.data
                },
                ..acct
            },
        )
    }
}

/// The vault and the caller's balance after `caller` withdraws `amount`, or
/// why it is refused.
pub open spec fn withdraw_outcome(
    acct: VaultAccount,
    caller: Pubkey,
    caller_lamports: u64,
    amount: u64,
) -> Result<(VaultAccount, u64), VaultError> {
    if caller@ != acct.data.authority@ {
        Err(VaultError::Unauthorized)
    } else if acct.data.is_paused {
        Err(VaultError::VaultPaused)
    } else if amount == 0 {
        Err(VaultError::InvalidAmount)
    } else if amount > acct.spec_available() {
        Err(VaultError::InsufficientFunds)
    } else if caller_lamports + amount > u64::MAX || acct.data.total_withdrawn + amount > u64::MAX
        || acct.data.tx_count + 1 > u64::MAX {
        Err(VaultError::Overflow)
    } else {
        Ok(
            (
                VaultAccount {
                    lamports: (acct.lamports - amount) as u64,
                    data: Vault {
                        total_withdrawn: (acct.data.total_withdrawn + amount) as u64,
                        tx_count: (acct.data.tx_count + 1) as u64,
                        ..acct.data
                    },
                    ..acct
                },
                (caller_lamports + amount) as u64,
            ),
        )
    }
}

/// The vault after `caller` sets its pause flag to `paused`, or why it is
/// refused.
pub open spec fn set_paused_outcome(acct: VaultAccount, caller: Pubkey, paused: bool) -> Result<
    VaultAccount,
    VaultError,
> {
    if caller@ != acct.data.authority@ {
        Err(VaultError::Unauthorized)
    } else {
        Ok(VaultAccount { data: Vault { is_paused: paused, ..acct.data }, ..acct })
    }
}

/// The caller's balance after closing the vault, or why it is refused.
pub open spec fn close_outcome(acct: VaultAccount, caller: Pubkey, caller_lamports: u64) -> Result<
    u64,
    VaultError,
> {
    if caller@ != acct.data.authority@ {
        Err(VaultError::Unauthorized)
    } else if caller_lamports + acct.lamports > u64::MAX {
        Err(VaultError::Overflow)
    } else {
        Ok((caller_lamports + acct.lamports) as u64)
    }
}

/// The vault after `caller` logs a record with `description`, or why it is
/// refused.
pub open spec fn log_outcome(acct: VaultAccount, caller: Pubkey, description: Seq<char>) -> Result<
    VaultAccount,
    VaultError,
> {
    if caller@ != acct.data.authority@ {
        Err(VaultError::Unauthorized)
    } else if utf8_len(description) > MAX_DESCRIPTION_LEN {
        Err(VaultError::DescriptionTooLong)
    } else if acct.data.tx_count + 1 > u64::MAX {
        Err(VaultError::Overflow)
    } else {
        Ok(VaultAccount { data: Vault { tx_count: (acct.data.tx_count + 1) as u64, ..acct.data }, ..acct })
    }
}

/// Creates a vault controlled by `ctx.authority`, with zero counters, not
/// paused, holding only its reserve floor.
pub fn initialize_vault(ctx: &InitializeVault) -> (r: (VaultAccount, VaultCreated))
    ensures
        r.0 == initial_account(*ctx),
        r.0.conserved(),
        r.1.vault == ctx.vault_key,
        r.1.authority == ctx.authority,
{
    let vault = Vault {
        authority: ctx.authority,
        total_deposited: 0,
        total_withdrawn: 0,
        tx_count: 0,
        bump: ctx.bump,
        is_paused: false,
    };
    let acct = VaultAccount { key: ctx.vault_key, data: vault, lamports: ctx.reserve, reserve: ctx.reserve };
    (acct, VaultCreated { vault: ctx.vault_key, authority: ctx.authority })
}

/// Withdraws `amount` from the vault to its authority.
///
/// Checked in order: the signer is the authority, the vault is not paused,
/// the amount is positive, it does not exceed the balance above the reserve
/// floor, and no counter or balance overflows. On any failure nothing changes.
pub fn withdraw(ctx: &mut Withdraw, amount: u64) -> (r: Result<WithdrawEvent, VaultError>)
    ensures
        final(ctx).authority == old(ctx).authority,
        match withdraw_outcome(old(ctx).vault, old(ctx).authority, old(ctx).authority_lamports, amount) {
            Ok((acct, caller_lamports)) => {
                &&& final(ctx).vault == acct
                &&& final(ctx).authority_lamports == caller_lamports
                &&& r == Ok::<WithdrawEvent, VaultError>(
                    (WithdrawEvent {
                        vault: acct.key,
                        authority: old(ctx).authority,
                        amount,
                        total_withdrawn: acct.data.total_withdrawn,
                    }),
                )
            },
            Err(e) => *final(ctx) == *old(ctx) && r == Err::<WithdrawEvent, VaultError>(e),
        },
{
    if ctx.authority != ctx.vault.data.authority {
        return Err(VaultError::Unauthorized);
    }
    if ctx.vault.data.is_paused {
        return Err(VaultError::VaultPaused);
    }
    if amount == 0 {
        return Err(VaultError::InvalidAmount);
    }
    let available = ctx.vault.available();
    if amount > available {
        return Err(VaultError::InsufficientFunds);
    }
    let caller_lamports = match ctx.authority_lamports.checked_add(amount) {
        Some(v) => v,
        None => return Err(VaultError::Overflow),
    };
    let total_withdrawn = match ctx.vault.data.total_withdrawn.checked_add(amount) {
        Some(v) => v,
        None => return Err(VaultError::Overflow),
    };
    let tx_count = match ctx.vault.data.tx_count.checked_add(1) {
        Some(v) => v,
        None => return Err(VaultError::Overflow),
    };
    ctx.vault.lamports = ctx.vault.lamports - amount;
    ctx.authority_lamports = caller_lamports;
    ctx.vault.data.total_withdrawn = total_withdrawn;
    ctx.vault.data.tx_count = tx_count;
    Ok(
        WithdrawEvent {
            vault: ctx.vault.key,
            authority: ctx.authority,
            amount,
            total_withdrawn,
        },
    )
}

/// Deposits `amount` into the vault from any party.
///
/// Refused while the vault is paused, for a zero amount, and where a counter
/// or the balance would overflow. On any failure nothing changes.
pub fn deposit(ctx: &mut Deposit, amount: u64) -> (r: Result<DepositEvent, VaultError>)
    ensures
        final(ctx).depositor == old(ctx).depositor,
        match deposit_outcome(old(ctx).vault, amount) {
            Ok(acct) => {
                &&& final(ctx).vault == acct
                &&& r == Ok::<DepositEvent, VaultError>(
                    (DepositEvent {
                        vault: acct.key,
                        depositor: old(ctx).depositor,
                        amount,
                        total_deposited: acct.data.total_deposited,
                    }),
                )
            },
            Err(e) => *final(ctx) == *old(ctx) && r == Err::<DepositEvent, VaultError>(e),
        },
{
    if ctx.vault.data.is_paused {
        return Err(VaultError::VaultPaused);
    }
    if amount == 0 {
        return Err(VaultError::InvalidAmount);
    }
    let lamports = match ctx.vault.lamports.checked_add(amount) {
        Some(v) => v,
        None => return Err(VaultError::Overflow),
    };
    let total_deposited = match ctx.vault.data.total_deposited.checked_add(amount) {
        Some(v) => v,
        None => return Err(VaultError::Overflow),
    };
    let tx_count = match ctx.vault.data.tx_count.checked_add(1) {
        Some(v) => v,
        None => return Err(VaultError::Overflow),
    };
    ctx.vault.lamports = lamports;
    ctx.vault.data.total_deposited = total_deposited;
    ctx.vault.data.tx_count = tx_count;
    Ok(
        DepositEvent {
            vault: ctx.vault.key,
            depositor: ctx.depositor,
            amount,
            total_deposited,
        },
    )
}

/// Writes an audit record for the vault and counts it.
///
/// Refused unless the signer is the authority, when the description is
/// longer than its limit in bytes, and where the count would overflow. The
/// record and the event carry the vault's address, the signer, the given
/// type, amount and description, and the host's time and slot. No value
/// moves, and a paused vault still logs.
pub fn log_transaction(
    ctx: &mut LogTransaction,
    tx_type: TxType,
    amount: u64,
    description: String,
) -> (r: Result<(TransactionRecord, TransactionLogged), VaultError>)
    ensures
        final(ctx).authority == old(ctx).authority,
        final(ctx).timestamp == old(ctx).timestamp,
        final(ctx).slot == old(ctx).slot,
        match log_outcome(old(ctx).vault, old(ctx).authority, description@) {
            Ok(acct) => {
                &&& final(ctx).vault == acct
                &&& r is Ok
                &&& r->Ok_0.0.vault == old(ctx).vault.key
                &&& r->Ok_0.0.authority == old(ctx).authority
                &&& r->Ok_0.0.tx_type == tx_type
                &&& r->Ok_0.0.amount == amount
                &&& r->Ok_0.0.description@ == description@
                &&& r->Ok_0.0.timestamp == old(ctx).timestamp
                &&& r->Ok_0.0.slot == old(ctx).slot
                &&& r->Ok_0.1.vault == old(ctx).vault.key
                &&& r->Ok_0.1.tx_type == tx_type
                &&& r->Ok_0.1.amount == amount
                &&& r->Ok_0.1.description@ == description@
                &&& r->Ok_0.1.timestamp == old(ctx).timestamp
            },
            Err(e) => *final(ctx) == *old(ctx) && r is Err && r->Err_0 == e,
        },
{
    if ctx.authority != ctx.vault.data.authority {
        return Err(VaultError::Unauthorized);
    }
    if description.as_str().len() > MAX_DESCRIPTION_LEN {
        return Err(VaultError::DescriptionTooLong);
    }
    let tx_count = match ctx.vault.data.tx_count.checked_add(1) {
        Some(v) => v,
        None => return Err(VaultError::Overflow),
    };
    ctx.vault.data.tx_count = tx_count;
    let event = TransactionLogged {
        vault: ctx.vault.key,
        tx_type,
        amount,
        description: description.clone(),
        timestamp: ctx.timestamp,
    };
    let record = TransactionRecord {
        vault: ctx.vault.key,
        authority: ctx.authority,
        tx_type,
        amount,
        description,
        timestamp: ctx.timestamp,
        slot: ctx.slot,
    };
    Ok((record, event))
}

/// Sets the kill switch. Only the authority may pause; pausing a paused vault
/// succeeds and changes nothing.
pub fn emergency_pause(ctx: &mut EmergencyPause) -> (r: Result<VaultPaused, VaultError>)
    ensures
        final(ctx).authority == old(ctx).authority,
        final(ctx).timestamp == old(ctx).timestamp,
        match set_paused_outcome(old(ctx).vault, old(ctx).authority, true) {
            Ok(acct) => {
                &&& final(ctx).vault == acct
                &&& r == Ok::<VaultPaused, VaultError>(
                    (VaultPaused {
                        vault: acct.key,
                        authority: old(ctx).authority,
                        timestamp: old(ctx).timestamp,
                    }),
                )
            },
            Err(e) => *final(ctx) == *old(ctx) && r == Err::<VaultPaused, VaultError>(e),
        },
{
    if ctx.authority != ctx.vault.data.authority {
        return Err(VaultError::Unauthorized);
    }
    ctx.vault.data.is_paused = true;
    Ok(VaultPaused { vault: ctx.vault.key, authority: ctx.authority, timestamp: ctx.timestamp })
}

/// Clears the kill switch. Only the authority may resume; resuming an active
/// vault succeeds and changes nothing.
pub fn resume_vault(ctx: &mut EmergencyPause) -> (r: Result<VaultResumed, VaultError>)
    ensures
        final(ctx).authority == old(ctx).authority,
        final(ctx).timestamp == old(ctx).timestamp,
        match set_paused_outcome(old(ctx).vault, old(ctx).authority, false) {
            Ok(acct) => {
                &&& final(ctx).vault == acct
                &&& r == Ok::<VaultResumed, VaultError>(
                    (VaultResumed {
                        vault: acct.key,
                        authority: old(ctx).authority,
                        timestamp: old(ctx).timestamp,
                    }),
                )
            },
            Err(e) => *final(ctx) == *old(ctx) && r == Err::<VaultResumed, VaultError>(e),
        },
{
    if ctx.authority != ctx.vault.data.authority {
        return Err(VaultError::Unauthorized);
    }
    ctx.vault.data.is_paused = false;
    Ok(VaultResumed { vault: ctx.vault.key, authority: ctx.authority, timestamp: ctx.timestamp })
}

/// Closes the vault: the record is consumed and everything the account holds,
/// reserve floor included, goes to the authority. Returns the authority's new
/// balance. Paused or not, only the authority may close.
pub fn close_vault(ctx: CloseVault) -> (r: Result<u64, VaultError>)
    ensures
        r == close_outcome(ctx.vault, ctx.authority, ctx.authority_lamports),
{
    if ctx.authority != ctx.vault.data.authority {
        return Err(VaultError::Unauthorized);
    }
    match ctx.authority_lamports.checked_add(ctx.vault.lamports) {
        Some(v) => Ok(v),
        None => Err(VaultError::Overflow),
    }
}

} // verus!
