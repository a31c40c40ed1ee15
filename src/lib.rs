//! A custodial vault engine: deterministic vault and record addresses,
//! authority-gated and overflow-checked balance accounting, an emergency
//! pause switch, and an append-only audit log of transaction records.
pub mod address;
pub mod instructions;
pub mod laws;
pub mod pubkey;
pub mod state;

pub use address::{
    check_vault_address, find_tx_record_address, find_vault_address, le_bytes_of,
    tx_record_seeds, vault_address_matches, vault_seeds,
};
pub use instructions::{
    close_vault, deposit, emergency_pause, initialize_vault, log_transaction, resume_vault,
    withdraw, CloseVault, Deposit, EmergencyPause, InitializeVault, LogTransaction, Withdraw,
};
pub use pubkey::Pubkey;
pub use state::{
    DepositEvent, TransactionLogged, TransactionRecord, TxType, Vault, VaultAccount,
    VaultCreated, VaultError, VaultPaused, VaultResumed, WithdrawEvent, MAX_DESCRIPTION_LEN,
};
