use vstd::prelude::*;
use crate::address::{Address, name_service_program_id, NAME_SERVICE_PROGRAM_ID_BYTES};
use crate::derive::{derives_canonically, is_canonical};
use crate::instruction::{
    readonly, transfer_ownership_bytes, transfer_ownership_data, writable, AccountRole,
    ExternalCall, VaultSigner,
};
use crate::vault::{access_outcome, check_access, UserVault, VaultError};

verus! {

/// The associated token account program: `ATokenGPvbdGVxr1b2hvZbsiqW5xWH25efTNsLJA8knL`.
pub const ASSOCIATED_TOKEN_PROGRAM_ID_BYTES: [u8; 32] = [
    140, 151, 37, 143, 78, 36, 137, 241, 187, 61, 16, 41, 20, 142, 13, 131,
    11, 90, 19, 153, 218, 255, 16, 132, 4, 142, 123, 216, 219, 233, 248, 89,
];

/// A transfer of one whole unit of a token between two holding accounts.
#[derive(Clone, Copy, Debug)]
pub struct TokenTransfer {
    pub token_program: Address,
    pub from: Address,
    pub to: Address,
    pub authority: Address,
    pub mint: Address,
    pub amount: u64,
    pub decimals: u8,
    /// Present where the vault is the authority and signs by derivation.
    pub signer: Option<VaultSigner>,
}

/// The accounts of a tokenized deposit.
#[derive(Clone, Copy, Debug)]
pub struct DepositDomain {
    pub owner: Address,
    pub vault: Address,
    pub domain_mint: Address,
    pub user_token_account: Address,
    pub vault_token_account: Address,
    pub token_program: Address,
}

/// The accounts of a tokenized withdrawal.
#[derive(Clone, Copy, Debug)]
pub struct WithdrawDomain {
    pub owner: Address,
    pub vault: Address,
    pub domain_mint: Address,
    pub vault_token_account: Address,
    pub user_token_account: Address,
    pub token_program: Address,
}

/// The accounts of opening a vault's holding account for a mint.
#[derive(Clone, Copy, Debug)]
pub struct InitVaultTokenAccount {
    pub owner: Address,
    pub vault: Address,
    pub token_mint: Address,
    pub vault_token_account: Address,
    pub token_program: Address,
}

/// The accounts of an unwrapped deposit.
#[derive(Clone, Copy, Debug)]
pub struct DepositUnwrappedDomain {
    pub owner: Address,
    pub vault: Address,
    pub name_account: Address,
}

/// The accounts of an unwrapped withdrawal.
#[derive(Clone, Copy, Debug)]
pub struct WithdrawUnwrappedDomain {
    pub owner: Address,
    pub vault: Address,
    pub name_account: Address,
}

pub open spec fn associated_seeds(wallet: Seq<u8>, mint: Seq<u8>, token_program: Seq<u8>) -> Seq<Seq<u8>> {
    seq![wallet, token_program, mint]
}

/// `holder` is the associated token account of `wallet` for `mint`.
pub open spec fn is_associated(holder: Seq<u8>, wallet: Seq<u8>, mint: Seq<u8>, token_program: Seq<u8>) -> bool {
    exists|b: u8|
        is_canonical(associated_seeds(wallet, mint, token_program), ASSOCIATED_TOKEN_PROGRAM_ID_BYTES@, holder, b)
}

pub fn is_associated_account(holder: &Address, wallet: &Address, mint: &Address, token_program: &Address) -> (r: bool)
    ensures
        r == is_associated(holder@, wallet@, mint@, token_program@),
{
    let seeds = vec![wallet.to_vec(), token_program.to_vec(), mint.to_vec()];
    assert(seeds@[0].deep_view() =~= seeds@[0]@);
    assert(seeds@[1].deep_view() =~= seeds@[1]@);
    assert(seeds@[2].deep_view() =~= seeds@[2]@);
    assert(seeds.deep_view() =~= associated_seeds(wallet@, mint@, token_program@));
    let program = Address::new(ASSOCIATED_TOKEN_PROGRAM_ID_BYTES);
    derives_canonically(&seeds, &program, holder)
}

pub open spec fn deposit_transfer(a: DepositDomain) -> TokenTransfer {
    TokenTransfer {
        token_program: a.token_program,
        from: a.user_token_account,
        to: a.vault_token_account,
        authority: a.owner,
        mint: a.domain_mint,
        amount: 1,
        decimals: 0,
        signer: None,
    }
}

pub open spec fn withdraw_transfer(a: WithdrawDomain, bump: u8) -> TokenTransfer {
    TokenTransfer {
        token_program: a.token_program,
        from: a.vault_token_account,
        to: a.user_token_account,
        authority: a.vault,
        mint: a.domain_mint,
        amount: 1,
        decimals: 0,
        signer: Some(VaultSigner { owner: a.owner, bump }),
    }
}

pub open spec fn deposit_domain_outcome(slot: Option<UserVault>, a: DepositDomain) -> Result<TokenTransfer, VaultError> {
    match access_outcome(slot, a.owner@, a.vault@) {
        Err(e) => Err(e),
        Ok(_) => if !is_associated(a.user_token_account@, a.owner@, a.domain_mint@, a.token_program@)
            || !is_associated(a.vault_token_account@, a.vault@, a.domain_mint@, a.token_program@) {
            Err(VaultError::TokenAccountMismatch)
        } else {
            Ok(deposit_transfer(a))
        },
    }
}

pub open spec fn withdraw_domain_outcome(slot: Option<UserVault>, a: WithdrawDomain) -> Result<TokenTransfer, VaultError> {
    match access_outcome(slot, a.owner@, a.vault@) {
        Err(e) => Err(e),
        Ok(_) => if !is_associated(a.vault_token_account@, a.vault@, a.domain_mint@, a.token_program@)
            || !is_associated(a.user_token_account@, a.owner@, a.domain_mint@, a.token_program@) {
            Err(VaultError::TokenAccountMismatch)
        } else if slot->Some_0.domains_count == 0 {
            Err(VaultError::NoDomains)
        } else {
            Ok(withdraw_transfer(a, slot->Some_0.bump))
        },
    }
}

/// Checks a tokenized deposit and gives the transfer that moves the domain
/// from the user's holding account to the vault's, signed by the user. The
/// counter moves when the transfer is settled.
pub fn deposit_domain(slot: &Option<UserVault>, accounts: &DepositDomain) -> (r: Result<TokenTransfer, VaultError>)
    ensures
        r == deposit_domain_outcome(*slot, *accounts),
{
    match check_access(slot, &accounts.owner, &accounts.vault) {
        Err(e) => return Err(e),
        Ok(()) => {},
    }
    if !is_associated_account(&accounts.user_token_account, &accounts.owner, &accounts.domain_mint, &accounts.token_program)
        || !is_associated_account(&accounts.vault_token_account, &accounts.vault, &accounts.domain_mint, &accounts.token_program) {
        return Err(VaultError::TokenAccountMismatch);
    }
    Ok(TokenTransfer {
        token_program: accounts.token_program,
        from: accounts.user_token_account,
        to: accounts.vault_token_account,
        authority: accounts.owner,
        mint: accounts.domain_mint,
        amount: 1,
        decimals: 0,
        signer: None,
    })
}

/// Checks a tokenized withdrawal and gives the transfer that moves the domain
/// back to the user, signed by the vault through its derivation.
pub fn withdraw_domain(slot: &Option<UserVault>, accounts: &WithdrawDomain) -> (r: Result<TokenTransfer, VaultError>)
    ensures
        r == withdraw_domain_outcome(*slot, *accounts),
{
    match check_access(slot, &accounts.owner, &accounts.vault) {
        Err(e) => return Err(e),
        Ok(()) => {},
    }
    if !is_associated_account(&accounts.vault_token_account, &accounts.vault, &accounts.domain_mint, &accounts.token_program)
        || !is_associated_account(&accounts.user_token_account, &accounts.owner, &accounts.domain_mint, &accounts.token_program) {
        return Err(VaultError::TokenAccountMismatch);
    }
    match slot {
        None => Err(VaultError::NotFound),
        Some(v) => {
            if v.domains_count == 0 {
                return Err(VaultError::NoDomains);
            }
            Ok(TokenTransfer {
                token_program: accounts.token_program,
                from: accounts.vault_token_account,
                to: accounts.user_token_account,
                authority: accounts.vault,
                mint: accounts.domain_mint,
                amount: 1,
                decimals: 0,
                signer: Some(VaultSigner { owner: accounts.owner, bump: v.bump }),
            })
        },
    }
}

/// Checks that the vault may open `vault_token_account` as its holding
/// account for `token_mint`.
pub fn init_vault_token_account(slot: &Option<UserVault>, accounts: &InitVaultTokenAccount) -> (r: Result<(), VaultError>)
    ensures
        access_outcome(*slot, accounts.owner@, accounts.vault@) is Err
            ==> r == access_outcome(*slot, accounts.owner@, accounts.vault@),
        access_outcome(*slot, accounts.owner@, accounts.vault@) is Ok ==> r == (if is_associated(
            accounts.vault_token_account@, accounts.vault@, accounts.token_mint@, accounts.token_program@) {
            Ok::<(), VaultError>(())
        } else {
            Err(VaultError::TokenAccountMismatch)
        }),
{
    match check_access(slot, &accounts.owner, &accounts.vault) {
        Err(e) => return Err(e),
        Ok(()) => {},
    }
    if !is_associated_account(&accounts.vault_token_account, &accounts.vault, &accounts.token_mint, &accounts.token_program) {
        return Err(VaultError::TokenAccountMismatch);
    }
    Ok(())
}

/// `c` is the registry's transfer of `name_account` from `current_owner`,
/// who signs, to `new_owner`.
pub open spec fn is_registry_transfer(
    c: ExternalCall,
    name_account: Address,
    current_owner: Address,
    new_owner: Address,
    signer: Option<VaultSigner>,
) -> bool {
    &&& c.program_id@ == NAME_SERVICE_PROGRAM_ID_BYTES@
    &&& c.accounts@ == seq![writable(name_account, false), readonly(current_owner, true)]
    &&& c.data@ == transfer_ownership_bytes(new_owner@)
    &&& c.signer == signer
}

pub fn registry_transfer(
    name_account: &Address,
    current_owner: &Address,
    new_owner: &Address,
    signer: Option<VaultSigner>,
) -> (r: ExternalCall)
    ensures
        is_registry_transfer(r, *name_account, *current_owner, *new_owner, signer),
{
    let accounts: Vec<AccountRole> = vec![
        AccountRole { key: *name_account, is_signer: false, is_writable: true },
        AccountRole { key: *current_owner, is_signer: true, is_writable: false },
    ];
    assert(accounts@ =~= seq![writable(*name_account, false), readonly(*current_owner, true)]);
    ExternalCall {
        program_id: name_service_program_id(),
        accounts,
        data: transfer_ownership_data(new_owner),
        signer,
    }
}

/// Checks an unwrapped deposit and gives the registry call that makes the
/// vault the domain's owner, signed by the user.
pub fn deposit_unwrapped_domain(slot: &Option<UserVault>, accounts: &DepositUnwrappedDomain) -> (r: Result<ExternalCall, VaultError>)
    ensures
        r is Err <==> access_outcome(*slot, accounts.owner@, accounts.vault@) is Err,
        r is Err ==> r->Err_0 == access_outcome(*slot, accounts.owner@, accounts.vault@)->Err_0,
        r is Ok ==> is_registry_transfer(r->Ok_0, accounts.name_account, accounts.owner, accounts.vault, None),
{
    match check_access(slot, &accounts.owner, &accounts.vault) {
        Err(e) => return Err(e),
        Ok(()) => {},
    }
    Ok(registry_transfer(&accounts.name_account, &accounts.owner, &accounts.vault, None))
}

/// Checks an unwrapped withdrawal and gives the registry call that hands the
/// domain back to the user, signed by the vault through its derivation.
pub fn withdraw_unwrapped_domain(slot: &Option<UserVault>, accounts: &WithdrawUnwrappedDomain) -> (r: Result<ExternalCall, VaultError>)
    ensures
        access_outcome(*slot, accounts.owner@, accounts.vault@) is Err
            ==> r is Err && r->Err_0 == access_outcome(*slot, accounts.owner@, accounts.vault@)->Err_0,
        access_outcome(*slot, accounts.owner@, accounts.vault@) is Ok && slot->Some_0.domains_count == 0
            ==> r is Err && r->Err_0 == VaultError::NoDomains,
        r is Ok <==> access_outcome(*slot, accounts.owner@, accounts.vault@) is Ok && slot->Some_0.domains_count > 0,
        r is Ok ==> is_registry_transfer(r->Ok_0, accounts.name_account, accounts.vault, accounts.owner,
            Some(VaultSigner { owner: accounts.owner, bump: slot->Some_0.bump })),
{
    match check_access(slot, &accounts.owner, &accounts.vault) {
        Err(e) => return Err(e),
        Ok(()) => {},
    }
    match slot {
        None => Err(VaultError::NotFound),
        Some(v) => {
            if v.domains_count == 0 {
                return Err(VaultError::NoDomains);
            }
            let signer = Some(VaultSigner { owner: accounts.owner, bump: v.bump });
            Ok(registry_transfer(&accounts.name_account, &accounts.vault, &accounts.owner, signer))
        },
    }
}

} // verus!
