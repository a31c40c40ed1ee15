use vstd::prelude::*;

use crate::instructions::{
    deposit_outcome, initial_account, log_outcome, set_paused_outcome, withdraw_outcome,
    InitializeVault,
};
use crate::pubkey::Pubkey;
use crate::state::{VaultAccount, VaultError};

verus! {

/// Conservation: a new vault holds exactly its reserve floor, and every
/// operation that succeeds keeps the balance equal to the reserve floor plus
/// deposits minus withdrawals.
pub proof fn lemma_conservation(
    init: InitializeVault,
    acct: VaultAccount,
    caller: Pubkey,
    caller_lamports: u64,
    amount: u64,
    paused: bool,
    description: Seq<char>,
)
    requires
        acct.conserved(),
    ensures
        initial_account(init).conserved(),
        deposit_outcome(acct, amount) matches Ok(a) ==> a.conserved(),
        withdraw_outcome(acct, caller, caller_lamports, amount) matches Ok((a, _)) ==> a.conserved(),
        set_paused_outcome(acct, caller, paused) matches Ok(a) ==> a.conserved(),
        log_outcome(acct, caller, description) matches Ok(a) ==> a.conserved(),
{
}

/// The transaction count never goes down: each successful deposit,
/// withdrawal and log entry adds exactly one, and pausing or resuming leaves
/// it as it was.
pub proof fn lemma_tx_count_steps(
    acct: VaultAccount,
    caller: Pubkey,
    caller_lamports: u64,
    amount: u64,
    paused: bool,
    description: Seq<char>,
)
    ensures
        deposit_outcome(acct, amount) matches Ok(a) ==> a.data.tx_count == acct.data.tx_count + 1,
        withdraw_outcome(acct, caller, caller_lamports, amount) matches Ok((a, _))
            ==> a.data.tx_count == acct.data.tx_count + 1,
        log_outcome(acct, caller, description) matches Ok(a) ==> a.data.tx_count
            == acct.data.tx_count + 1,
        set_paused_outcome(acct, caller, paused) matches Ok(a) ==> a.data.tx_count
            == acct.data.tx_count,
{
}

/// Pausing twice succeeds both times and leaves the vault paused; resuming
/// twice succeeds both times and leaves it active.
pub proof fn lemma_pause_resume_idempotent(acct: VaultAccount, caller: Pubkey, paused: bool)
    requires
        caller@ == acct.data.authority@,
    ensures
        set_paused_outcome(acct, caller, paused) matches Ok(a) && a.data.is_paused == paused
            && set_paused_outcome(a, caller, paused) == Ok::<VaultAccount, VaultError>(a),
{
}

/// While the vault is paused, every deposit fails with `VaultPaused`, and so
/// does every withdrawal by the authority, whatever the amount.
pub proof fn lemma_paused_blocks_value_movement(
    acct: VaultAccount,
    caller: Pubkey,
    caller_lamports: u64,
    amount: u64,
)
    requires
        acct.data.is_paused,
    ensures
        deposit_outcome(acct, amount) == Err::<VaultAccount, VaultError>(VaultError::VaultPaused),
        caller@ == acct.data.authority@ ==> withdraw_outcome(acct, caller, caller_lamports, amount)
            == Err::<(VaultAccount, u64), VaultError>(VaultError::VaultPaused),
{
}

/// A withdrawal by anyone but the authority fails with `Unauthorized`,
/// whatever the amount and whether or not the vault is paused.
pub proof fn lemma_withdraw_needs_authority(
    acct: VaultAccount,
    caller: Pubkey,
    caller_lamports: u64,
    amount: u64,
)
    requires
        caller@ != acct.data.authority@,
    ensures
        withdraw_outcome(acct, caller, caller_lamports, amount) == Err::<
            (VaultAccount, u64),
            VaultError,
        >(VaultError::Unauthorized),
{
}

/// Depositing an amount and then withdrawing it again restores the net
/// deposited amount, the balance and the available balance. The withdrawal
/// succeeds whenever the count and the authority's balance have room for it.
pub proof fn lemma_deposit_then_withdraw(
    acct: VaultAccount,
    caller: Pubkey,
    caller_lamports: u64,
    amount: u64,
)
    requires
        acct.conserved(),
        caller@ == acct.data.authority@,
        deposit_outcome(acct, amount) is Ok,
    ensures
        ({
            let mid = deposit_outcome(acct, amount)->Ok_0;
            &&& acct.data.tx_count + 2 <= u64::MAX && caller_lamports + amount <= u64::MAX
                ==> withdraw_outcome(mid, caller, caller_lamports, amount) is Ok
            &&& withdraw_outcome(mid, caller, caller_lamports, amount) matches Ok((last, _))
                ==> last.data.total_deposited - last.data.total_withdrawn
                == acct.data.total_deposited - acct.data.total_withdrawn && last.lamports
                == acct.lamports && last.spec_available() == acct.spec_available()
        }),
{
}

/// Deposits that would carry the deposited total past the 64-bit range fail
/// with `Overflow`, one after the other, since a failed deposit changes
/// nothing.
pub proof fn lemma_deposit_overflow(acct: VaultAccount, first: u64, second: u64)
    requires
        !acct.data.is_paused,
        first > 0,
        second > 0,
        acct.data.total_deposited + first > u64::MAX,
        acct.data.total_deposited + second > u64::MAX,
    ensures
        deposit_outcome(acct, first) == Err::<VaultAccount, VaultError>(VaultError::Overflow),
        deposit_outcome(acct, second) == Err::<VaultAccount, VaultError>(VaultError::Overflow),
{
}

} // verus!
