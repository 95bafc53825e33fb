//! Custody of domain-name assets in per-user vaults whose authority is a
//! program-derived address: the vault ledger, its authorization guard, the
//! plans of the token and registry transfers, and the four-step binding of a
//! domain's resolution record to the vault.

pub mod address;
pub mod binding;
pub mod custody;
pub mod derive;
pub mod instruction;
pub mod laws;
pub mod vault;

pub use address::Address;
pub use binding::{
    deposit_domain_with_record, settle_record_binding, BindingStep, DepositDomainWithRecord,
    RecordBinding,
};
pub use custody::{
    deposit_domain, deposit_unwrapped_domain, init_vault_token_account, withdraw_domain,
    withdraw_unwrapped_domain, DepositDomain, DepositUnwrappedDomain, InitVaultTokenAccount,
    TokenTransfer, WithdrawDomain, WithdrawUnwrappedDomain,
};
pub use derive::{find_vault_address, get_central_state_key, get_sol_record_v2_key};
pub use instruction::{AccountRole, ExternalCall, VaultSigner};
pub use vault::{
    initialize_vault, settle_deposit, settle_withdrawal, InitializeVault, UserVault, VaultError,
};
