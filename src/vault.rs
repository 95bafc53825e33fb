use vstd::prelude::*;
use crate::address::{Address, PROGRAM_ID_BYTES};
use crate::derive::{
    find_vault_address, is_canonical, lemma_canonical_unique, no_bump_works, program_address,
    vault_address_matches, vault_seeds, with_bump,
};

verus! {

/// The ledger entry of one vault, stored at the vault's derived address.
#[derive(Clone, Copy, Debug)]
pub struct UserVault {
    /// The user who controls the vault; set once at creation.
    pub owner: Address,
    /// The proof byte from which the vault address re-derives.
    pub bump: u8,
    /// Domain assets held in custody, tokenized and unwrapped together.
    pub domains_count: u64,
}

#[derive(Clone, Copy, Debug, PartialEq, Eq, Structural)]
pub enum VaultError {
    /// A vault already exists at the derived address.
    AlreadyExists,
    /// No vault exists at the address.
    NotFound,
    /// The caller is not the vault's owner, or the vault address does not
    /// re-derive from the owner and the stored proof byte.
    UnauthorizedAccess,
    /// A withdrawal from a vault that holds nothing.
    NoDomains,
    /// The custody counter would pass its largest value.
    CounterOverflow,
    /// The custody counter would go below zero.
    CounterUnderflow,
    /// An external call failed.
    ExternalCallFailure,
    /// No proof byte derives an address from the seeds.
    DerivationFailed,
    /// A holding account is not the associated token account of its wallet
    /// and mint.
    TokenAccountMismatch,
}

/// The accounts of vault creation.
#[derive(Clone, Copy, Debug)]
pub struct InitializeVault {
    pub owner: Address,
    pub vault: Address,
}

/// The guard of every custody operation: the vault exists, the caller is its
/// owner, and the vault address re-derives from the owner and the proof byte.
pub open spec fn access_outcome(slot: Option<UserVault>, caller: Seq<u8>, vault: Seq<u8>) -> Result<(), VaultError> {
    match slot {
        None => Err(VaultError::NotFound),
        Some(v) => if v.owner@ != caller {
            Err(VaultError::UnauthorizedAccess)
        } else if program_address(with_bump(vault_seeds(v.owner@), v.bump), PROGRAM_ID_BYTES@) != Some(vault) {
            Err(VaultError::UnauthorizedAccess)
        } else {
            Ok(())
        },
    }
}

pub fn check_access(slot: &Option<UserVault>, caller: &Address, vault: &Address) -> (r: Result<(), VaultError>)
    ensures
        r == access_outcome(*slot, caller@, vault@),
{
    match slot {
        None => Err(VaultError::NotFound),
        Some(v) => {
            if !v.owner.same_as(caller) {
                Err(VaultError::UnauthorizedAccess)
            } else if !vault_address_matches(&v.owner, v.bump, vault) {
                Err(VaultError::UnauthorizedAccess)
            } else {
                Ok(())
            }
        },
    }
}

/// Creates the vault of `accounts.owner` in the empty storage at its derived
/// address, with the canonical proof byte and nothing in custody.
pub fn initialize_vault(slot: &mut Option<UserVault>, accounts: &InitializeVault) -> (r: Result<(), VaultError>)
    ensures
        (*old(slot)) is Some ==> r == Err::<(), VaultError>(VaultError::AlreadyExists),
        (*old(slot)) is None ==> (r is Ok <==> exists|b: u8|
            is_canonical(vault_seeds(accounts.owner@), PROGRAM_ID_BYTES@, accounts.vault@, b)),
        (*old(slot)) is None && no_bump_works(vault_seeds(accounts.owner@), PROGRAM_ID_BYTES@)
            ==> r == Err::<(), VaultError>(VaultError::DerivationFailed),
        (*old(slot)) is None && r is Err && !no_bump_works(vault_seeds(accounts.owner@), PROGRAM_ID_BYTES@)
            ==> r == Err::<(), VaultError>(VaultError::UnauthorizedAccess),
        r is Ok ==> (*final(slot) matches Some(v) && v.owner == accounts.owner && v.domains_count == 0
            && is_canonical(vault_seeds(accounts.owner@), PROGRAM_ID_BYTES@, accounts.vault@, v.bump)),
        r is Err ==> *final(slot) == *old(slot),
{
    if slot.is_some() {
        return Err(VaultError::AlreadyExists);
    }
    match find_vault_address(&accounts.owner) {
        None => {
            assert forall|b: u8|
                !is_canonical(vault_seeds(accounts.owner@), PROGRAM_ID_BYTES@, accounts.vault@, b) by {
                if 1 <= b {
                    assert(program_address(with_bump(vault_seeds(accounts.owner@), b), PROGRAM_ID_BYTES@) is None);
                }
            }
            Err(VaultError::DerivationFailed)
        },
        Some((found, bump)) => {
            assert(!no_bump_works(vault_seeds(accounts.owner@), PROGRAM_ID_BYTES@)) by {
                assert(program_address(with_bump(vault_seeds(accounts.owner@), bump), PROGRAM_ID_BYTES@) is Some);
            }
            if !found.same_as(&accounts.vault) {
                assert forall|b: u8|
                    !is_canonical(vault_seeds(accounts.owner@), PROGRAM_ID_BYTES@, accounts.vault@, b) by {
                    if is_canonical(vault_seeds(accounts.owner@), PROGRAM_ID_BYTES@, accounts.vault@, b) {
                        lemma_canonical_unique(vault_seeds(accounts.owner@), PROGRAM_ID_BYTES@,
                            found@, bump, accounts.vault@, b);
                    }
                }
                Err(VaultError::UnauthorizedAccess)
            } else {
                *slot = Some(UserVault { owner: accounts.owner, bump, domains_count: 0 });
                Ok(())
            }
        },
    }
}

/// The counter after one more asset comes into custody.
pub open spec fn count_after_deposit(count: u64) -> Result<u64, VaultError> {
    if count == u64::MAX {
        Err(VaultError::CounterOverflow)
    } else {
        Ok((count + 1) as u64)
    }
}

/// The counter after one asset leaves custody.
pub open spec fn count_after_withdrawal(count: u64) -> Result<u64, VaultError> {
    if count == 0 {
        Err(VaultError::CounterUnderflow)
    } else {
        Ok((count - 1) as u64)
    }
}

/// What settling an operation whose external call has run gives: the guard
/// first, then the call's outcome, then the counter's step.
pub open spec fn settle_outcome(
    slot: Option<UserVault>,
    caller: Seq<u8>,
    vault: Seq<u8>,
    call_ok: bool,
    is_deposit: bool,
) -> Result<u64, VaultError> {
    match access_outcome(slot, caller, vault) {
        Err(e) => Err(e),
        Ok(_) => if !call_ok {
            Err(VaultError::ExternalCallFailure)
        } else if is_deposit {
            count_after_deposit(slot->Some_0.domains_count)
        } else {
            count_after_withdrawal(slot->Some_0.domains_count)
        },
    }
}

/// The storage after settling: the new counter on success, else unchanged.
pub open spec fn settled_slot(slot: Option<UserVault>, r: Result<u64, VaultError>) -> Option<UserVault> {
    match r {
        Ok(n) => Some(UserVault { domains_count: n, ..slot->Some_0 }),
        Err(_) => slot,
    }
}

pub(crate) fn settle(
    slot: &mut Option<UserVault>,
    caller: &Address,
    vault: &Address,
    call_ok: bool,
    is_deposit: bool,
) -> (r: Result<u64, VaultError>)
    ensures
        r == settle_outcome(*old(slot), caller@, vault@, call_ok, is_deposit),
        *final(slot) == settled_slot(*old(slot), r),
{
    match check_access(slot, caller, vault) {
        Err(e) => return Err(e),
        Ok(()) => {},
    }
    if !call_ok {
        return Err(VaultError::ExternalCallFailure);
    }
    match slot {
        None => Err(VaultError::NotFound),
        Some(v) => {
            if is_deposit {
                if v.domains_count == u64::MAX {
                    return Err(VaultError::CounterOverflow);
                }
                v.domains_count = v.domains_count + 1;
            } else {
                if v.domains_count == 0 {
                    return Err(VaultError::CounterUnderflow);
                }
                v.domains_count = v.domains_count - 1;
            }
            Ok(v.domains_count)
        },
    }
}

/// Records that the external call of a deposit has run: on success one
/// more asset is in custody.
pub fn settle_deposit(slot: &mut Option<UserVault>, caller: &Address, vault: &Address, call_ok: bool) -> (r: Result<u64, VaultError>)
    ensures
        r == settle_outcome(*old(slot), caller@, vault@, call_ok, true),
        *final(slot) == settled_slot(*old(slot), r),
{
    settle(slot, caller, vault, call_ok, true)
}

/// Records that the external call of a withdrawal has run: on success one
/// asset less is in custody.
pub fn settle_withdrawal(slot: &mut Option<UserVault>, caller: &Address, vault: &Address, call_ok: bool) -> (r: Result<u64, VaultError>)
    ensures
        r == settle_outcome(*old(slot), caller@, vault@, call_ok, false),
        *final(slot) == settled_slot(*old(slot), r),
{
    settle(slot, caller, vault, call_ok, false)
}

} // verus!
