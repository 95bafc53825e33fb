use anchor_lang::prelude::Pubkey;
use domain_vault::address::{
    NAME_SERVICE_PROGRAM_ID_BYTES, PROGRAM_ID_BYTES, SNS_RECORDS_PROGRAM_ID_BYTES,
    SYSTEM_PROGRAM_ID_BYTES,
};
use domain_vault::custody::ASSOCIATED_TOKEN_PROGRAM_ID_BYTES;
use domain_vault::instruction::{
    allocate_record_data, transfer_ownership_data, u32_le_bytes, validate_data,
    write_association_data,
};
use domain_vault::{
    deposit_domain, deposit_domain_with_record, deposit_unwrapped_domain, find_vault_address,
    get_central_state_key, get_sol_record_v2_key, init_vault_token_account, initialize_vault,
    settle_deposit, settle_record_binding, settle_withdrawal, withdraw_domain,
    withdraw_unwrapped_domain, Address, BindingStep, DepositDomain, DepositDomainWithRecord,
    DepositUnwrappedDomain, InitVaultTokenAccount, InitializeVault, UserVault, VaultError,
    WithdrawDomain, WithdrawUnwrappedDomain,
};
use std::str::FromStr;

fn addr(b: u8) -> Address {
    Address::new([b; 32])
}

fn pk(a: &Address) -> Pubkey {
    Pubkey::new_from_array(a.bytes)
}

fn token_program() -> Address {
    Address::new(
        Pubkey::from_str("TokenkegQfeZyiNwAJbNbGKPFXCWuBvf9Ss623VQ5DA")
            .unwrap()
            .to_bytes(),
    )
}

fn ata(wallet: &Address, mint: &Address) -> Address {
    let (k, _) = Pubkey::find_program_address(
        &[&wallet.bytes, &token_program().bytes, &mint.bytes],
        &Pubkey::new_from_array(ASSOCIATED_TOKEN_PROGRAM_ID_BYTES),
    );
    Address::new(k.to_bytes())
}

/// A vault for `owner`, created through `initialize_vault`.
fn open_vault(owner: &Address) -> (Option<UserVault>, Address) {
    let (vault, _) = find_vault_address(owner).unwrap();
    let mut slot = None;
    let r = initialize_vault(&mut slot, &InitializeVault { owner: *owner, vault });
    assert_eq!(r, Ok(()));
    (slot, vault)
}

fn deposit_accounts(owner: &Address, vault: &Address, mint: &Address) -> DepositDomain {
    DepositDomain {
        owner: *owner,
        vault: *vault,
        domain_mint: *mint,
        user_token_account: ata(owner, mint),
        vault_token_account: ata(vault, mint),
        token_program: token_program(),
    }
}

fn withdraw_accounts(owner: &Address, vault: &Address, mint: &Address) -> WithdrawDomain {
    WithdrawDomain {
        owner: *owner,
        vault: *vault,
        domain_mint: *mint,
        vault_token_account: ata(vault, mint),
        user_token_account: ata(owner, mint),
        token_program: token_program(),
    }
}

fn count(slot: &Option<UserVault>) -> u64 {
    slot.as_ref().unwrap().domains_count
}

#[test]
fn program_ids_match_their_base58_names() {
    let cases = [
        (PROGRAM_ID_BYTES, "LUMPd26Acz4wqS8EBuoxPN2zhwCUF4npbkrqhLbM9AL"),
        (NAME_SERVICE_PROGRAM_ID_BYTES, "namesLPneVptA9Z5rqUDD9tMTWEJwofgaYwp8cawRkX"),
        (SNS_RECORDS_PROGRAM_ID_BYTES, "HP3D4D1ZCmohQGFVms2SS4LCANgJyksBf5s1F77FuFjZ"),
        (SYSTEM_PROGRAM_ID_BYTES, "11111111111111111111111111111111"),
        (ASSOCIATED_TOKEN_PROGRAM_ID_BYTES, "ATokenGPvbdGVxr1b2hvZbsiqW5xWH25efTNsLJA8knL"),
    ];
    for (bytes, name) in cases {
        assert_eq!(Pubkey::from_str(name).unwrap().to_bytes(), bytes);
    }
}

#[test]
fn vault_address_is_the_program_derived_address() {
    let owner = addr(7);
    let (vault, bump) = find_vault_address(&owner).unwrap();
    let (expected, expected_bump) =
        Pubkey::find_program_address(&[b"vault", &owner.bytes], &Pubkey::new_from_array(PROGRAM_ID_BYTES));
    assert_eq!(pk(&vault), expected);
    assert_eq!(bump, expected_bump);
    assert_ne!(pk(&vault), pk(&owner));
}

#[test]
fn vault_derivation_is_deterministic() {
    let owner = addr(9);
    assert_eq!(find_vault_address(&owner), find_vault_address(&owner));
    assert_ne!(find_vault_address(&owner).unwrap().0, find_vault_address(&addr(10)).unwrap().0);
}

#[test]
fn central_state_key_matches() {
    let records = Pubkey::new_from_array(SNS_RECORDS_PROGRAM_ID_BYTES);
    let (expected, bump) = Pubkey::find_program_address(&[records.as_ref()], &records);
    let (got, got_bump) = get_central_state_key().unwrap();
    assert_eq!(pk(&got), expected);
    assert_eq!(got_bump, bump);
}

#[test]
fn sol_record_v2_key_matches() {
    let domain = addr(33);
    let (central, _) = get_central_state_key().unwrap();
    let hashed: [u8; 32] = [
        0x30, 0xec, 0xde, 0x95, 0xb6, 0x4e, 0xf5, 0x47, 0xd8, 0x9f, 0xde, 0x39, 0x87, 0x03, 0x9f,
        0x70, 0xb5, 0x39, 0x37, 0xa8, 0xff, 0xbc, 0xc1, 0x0a, 0x28, 0x5b, 0x82, 0x6f, 0xdf, 0xa0,
        0x76, 0xbd,
    ];
    let (expected, bump) = Pubkey::find_program_address(
        &[&hashed, &central.bytes, &domain.bytes],
        &Pubkey::new_from_array(NAME_SERVICE_PROGRAM_ID_BYTES),
    );
    let (got, got_bump) = get_sol_record_v2_key(&domain).unwrap();
    assert_eq!(pk(&got), expected);
    assert_eq!(got_bump, bump);
}

#[test]
fn initialize_vault_creates_an_empty_vault() {
    let owner = addr(1);
    let (slot, _) = open_vault(&owner);
    let v = slot.unwrap();
    assert_eq!(v.owner, owner);
    assert_eq!(v.bump, find_vault_address(&owner).unwrap().1);
    assert_eq!(v.domains_count, 0);
}

#[test]
fn initialize_vault_twice_fails_with_already_exists() {
    let owner = addr(1);
    let (mut slot, vault) = open_vault(&owner);
    slot.as_mut().unwrap().domains_count = 3;
    let r = initialize_vault(&mut slot, &InitializeVault { owner, vault });
    assert_eq!(r, Err(VaultError::AlreadyExists));
    assert_eq!(count(&slot), 3);
    assert_eq!(slot.unwrap().owner, owner);
}

#[test]
fn initialize_vault_at_a_foreign_address_is_refused() {
    let owner = addr(1);
    let mut slot = None;
    let r = initialize_vault(&mut slot, &InitializeVault { owner, vault: addr(2) });
    assert_eq!(r, Err(VaultError::UnauthorizedAccess));
    assert!(slot.is_none());
}

#[test]
fn deposit_domain_plans_a_one_unit_transfer_to_the_vault() {
    let owner = addr(1);
    let mint = addr(50);
    let (mut slot, vault) = open_vault(&owner);
    let accounts = deposit_accounts(&owner, &vault, &mint);
    let t = deposit_domain(&slot, &accounts).unwrap();
    assert_eq!(t.from, ata(&owner, &mint));
    assert_eq!(t.to, ata(&vault, &mint));
    assert_eq!(t.authority, owner);
    assert_eq!(t.mint, mint);
    assert_eq!(t.amount, 1);
    assert_eq!(t.decimals, 0);
    assert!(t.signer.is_none());
    assert_eq!(settle_deposit(&mut slot, &owner, &vault, true), Ok(1));
    assert_eq!(count(&slot), 1);
}

#[test]
fn withdraw_domain_plans_a_transfer_signed_by_the_vault() {
    let owner = addr(1);
    let mint = addr(50);
    let (mut slot, vault) = open_vault(&owner);
    assert_eq!(settle_deposit(&mut slot, &owner, &vault, true), Ok(1));
    let t = withdraw_domain(&slot, &withdraw_accounts(&owner, &vault, &mint)).unwrap();
    assert_eq!(t.from, ata(&vault, &mint));
    assert_eq!(t.to, ata(&owner, &mint));
    assert_eq!(t.authority, vault);
    assert_eq!((t.amount, t.decimals), (1, 0));
    let signer = t.signer.unwrap();
    assert_eq!(signer.owner, owner);
    assert_eq!(signer.bump, find_vault_address(&owner).unwrap().1);
    let seeds = signer.seeds();
    assert_eq!(seeds, vec![b"vault".to_vec(), owner.bytes.to_vec(), vec![signer.bump]]);
    let seed_refs: Vec<&[u8]> = seeds.iter().map(|s| s.as_slice()).collect();
    let derived = Pubkey::create_program_address(&seed_refs, &Pubkey::new_from_array(PROGRAM_ID_BYTES)).unwrap();
    assert_eq!(derived, pk(&vault));
    assert_eq!(settle_withdrawal(&mut slot, &owner, &vault, true), Ok(0));
}

#[test]
fn foreign_caller_is_refused_everywhere() {
    let owner = addr(1);
    let intruder = addr(2);
    let mint = addr(50);
    let (mut slot, vault) = open_vault(&owner);
    assert_eq!(settle_deposit(&mut slot, &owner, &vault, true), Ok(1));
    let before = count(&slot);
    let unauthorized = Err(VaultError::UnauthorizedAccess);
    let mut d = deposit_accounts(&intruder, &vault, &mint);
    d.user_token_account = ata(&intruder, &mint);
    assert_eq!(deposit_domain(&slot, &d).map(|_| ()), unauthorized);
    assert_eq!(withdraw_domain(&slot, &withdraw_accounts(&intruder, &vault, &mint)).map(|_| ()), unauthorized);
    let unwrapped = DepositUnwrappedDomain { owner: intruder, vault, name_account: addr(60) };
    assert_eq!(deposit_unwrapped_domain(&slot, &unwrapped).map(|_| ()), unauthorized);
    let unwrapped = WithdrawUnwrappedDomain { owner: intruder, vault, name_account: addr(60) };
    assert_eq!(withdraw_unwrapped_domain(&slot, &unwrapped).map(|_| ()), unauthorized);
    let record = DepositDomainWithRecord {
        owner: intruder,
        vault,
        name_account: addr(60),
        sol_record_v2: addr(61),
        central_state: addr(62),
    };
    assert_eq!(deposit_domain_with_record(&slot, &record).map(|_| ()), unauthorized);
    let init = InitVaultTokenAccount {
        owner: intruder,
        vault,
        token_mint: mint,
        vault_token_account: ata(&vault, &mint),
        token_program: token_program(),
    };
    assert_eq!(init_vault_token_account(&slot, &init), unauthorized);
    assert_eq!(settle_deposit(&mut slot, &intruder, &vault, true), Err(VaultError::UnauthorizedAccess));
    assert_eq!(settle_withdrawal(&mut slot, &intruder, &vault, true), Err(VaultError::UnauthorizedAccess));
    assert_eq!(count(&slot), before);
}

#[test]
fn vault_address_that_does_not_rederive_is_refused() {
    let owner = addr(1);
    let (mut slot, vault) = open_vault(&owner);
    let other = find_vault_address(&addr(3)).unwrap().0;
    let r = deposit_unwrapped_domain(&slot, &DepositUnwrappedDomain { owner, vault: other, name_account: addr(60) });
    assert_eq!(r.map(|_| ()), Err(VaultError::UnauthorizedAccess));
    slot.as_mut().unwrap().bump = slot.unwrap().bump.wrapping_sub(1);
    let r = deposit_unwrapped_domain(&slot, &DepositUnwrappedDomain { owner, vault, name_account: addr(60) });
    assert_eq!(r.map(|_| ()), Err(VaultError::UnauthorizedAccess));
}

#[test]
fn absent_vault_is_not_found() {
    let owner = addr(1);
    let (vault, _) = find_vault_address(&owner).unwrap();
    let mut slot: Option<UserVault> = None;
    let r = deposit_unwrapped_domain(&slot, &DepositUnwrappedDomain { owner, vault, name_account: addr(60) });
    assert_eq!(r.map(|_| ()), Err(VaultError::NotFound));
    assert_eq!(settle_deposit(&mut slot, &owner, &vault, true), Err(VaultError::NotFound));
    assert!(slot.is_none());
}

#[test]
fn withdrawal_from_an_empty_vault_fails_with_no_domains() {
    let owner = addr(1);
    let mint = addr(50);
    let (mut slot, vault) = open_vault(&owner);
    let r = withdraw_domain(&slot, &withdraw_accounts(&owner, &vault, &mint));
    assert_eq!(r.map(|_| ()), Err(VaultError::NoDomains));
    let r = withdraw_unwrapped_domain(&slot, &WithdrawUnwrappedDomain { owner, vault, name_account: addr(60) });
    assert_eq!(r.map(|_| ()), Err(VaultError::NoDomains));
    assert_eq!(settle_withdrawal(&mut slot, &owner, &vault, true), Err(VaultError::CounterUnderflow));
    assert_eq!(count(&slot), 0);
}

#[test]
fn holding_accounts_must_be_associated() {
    let owner = addr(1);
    let mint = addr(50);
    let (slot, vault) = open_vault(&owner);
    let mut d = deposit_accounts(&owner, &vault, &mint);
    d.vault_token_account = ata(&owner, &mint);
    assert_eq!(deposit_domain(&slot, &d).map(|_| ()), Err(VaultError::TokenAccountMismatch));
    let mut w = withdraw_accounts(&owner, &vault, &mint);
    w.user_token_account = ata(&owner, &addr(51));
    assert_eq!(withdraw_domain(&slot, &w).map(|_| ()), Err(VaultError::TokenAccountMismatch));
    let mut init = InitVaultTokenAccount {
        owner,
        vault,
        token_mint: mint,
        vault_token_account: ata(&vault, &mint),
        token_program: token_program(),
    };
    assert_eq!(init_vault_token_account(&slot, &init), Ok(()));
    init.vault_token_account = addr(99);
    assert_eq!(init_vault_token_account(&slot, &init), Err(VaultError::TokenAccountMismatch));
}

#[test]
fn failed_transfer_changes_nothing() {
    let owner = addr(1);
    let (mut slot, vault) = open_vault(&owner);
    assert_eq!(settle_deposit(&mut slot, &owner, &vault, false), Err(VaultError::ExternalCallFailure));
    assert_eq!(count(&slot), 0);
}

#[test]
fn counter_overflow_fails_loudly() {
    let owner = addr(1);
    let (mut slot, vault) = open_vault(&owner);
    slot.as_mut().unwrap().domains_count = u64::MAX;
    assert_eq!(settle_deposit(&mut slot, &owner, &vault, true), Err(VaultError::CounterOverflow));
    assert_eq!(count(&slot), u64::MAX);
}

#[test]
fn unwrapped_deposit_and_withdrawal_calls() {
    let owner = addr(1);
    let name = addr(60);
    let (mut slot, vault) = open_vault(&owner);
    let call = deposit_unwrapped_domain(&slot, &DepositUnwrappedDomain { owner, vault, name_account: name }).unwrap();
    assert_eq!(call.program_id.bytes, NAME_SERVICE_PROGRAM_ID_BYTES);
    let mut data = vec![2u8];
    data.extend_from_slice(&vault.bytes);
    assert_eq!(call.data, data);
    assert_eq!(call.accounts.len(), 2);
    assert_eq!((call.accounts[0].key, call.accounts[0].is_signer, call.accounts[0].is_writable), (name, false, true));
    assert_eq!((call.accounts[1].key, call.accounts[1].is_signer, call.accounts[1].is_writable), (owner, true, false));
    assert!(call.signer.is_none());
    assert_eq!(settle_deposit(&mut slot, &owner, &vault, true), Ok(1));

    let call = withdraw_unwrapped_domain(&slot, &WithdrawUnwrappedDomain { owner, vault, name_account: name }).unwrap();
    let mut data = vec![2u8];
    data.extend_from_slice(&owner.bytes);
    assert_eq!(call.data, data);
    assert_eq!((call.accounts[1].key, call.accounts[1].is_signer), (vault, true));
    assert_eq!(call.signer.unwrap().owner, owner);
    assert_eq!(settle_withdrawal(&mut slot, &owner, &vault, true), Ok(0));
}

#[test]
fn encoders_give_exact_bytes() {
    assert_eq!(u32_le_bytes(0x0403_0201), vec![1, 2, 3, 4]);
    assert_eq!(u32_le_bytes(32), vec![32, 0, 0, 0]);
    let a = addr(5);
    let mut expected = vec![2u8];
    expected.extend_from_slice(&[5; 32]);
    assert_eq!(transfer_ownership_data(&a), expected);
    let mut expected = vec![1u8, 4, 0, 0, 0, 2, b'S', b'O', b'L', 32, 0, 0, 0];
    expected.extend_from_slice(&[5; 32]);
    assert_eq!(allocate_record_data(&a), expected);
    let mut expected = vec![6u8, 32, 0, 0, 0];
    expected.extend_from_slice(&[5; 32]);
    assert_eq!(write_association_data(&a), expected);
    assert_eq!(validate_data(), vec![3, 1]);
}

fn record_accounts(owner: &Address, vault: &Address) -> DepositDomainWithRecord {
    let name = addr(60);
    DepositDomainWithRecord {
        owner: *owner,
        vault: *vault,
        name_account: name,
        sol_record_v2: get_sol_record_v2_key(&name).unwrap().0,
        central_state: get_central_state_key().unwrap().0,
    }
}

#[test]
fn record_binding_runs_four_steps_then_commits() {
    let owner = addr(1);
    let (mut slot, vault) = open_vault(&owner);
    let accounts = record_accounts(&owner, &vault);
    let mut b = deposit_domain_with_record(&slot, &accounts).unwrap();
    assert_eq!(b.step, BindingStep::TransferOwnership);

    let c1 = b.next_call().unwrap();
    assert_eq!(c1.program_id.bytes, NAME_SERVICE_PROGRAM_ID_BYTES);
    assert_eq!(c1.data, transfer_ownership_data(&vault));
    assert!(c1.signer.is_none());
    b.advance(true);

    let c2 = b.next_call().unwrap();
    assert_eq!(c2.program_id.bytes, SNS_RECORDS_PROGRAM_ID_BYTES);
    assert_eq!(c2.data, allocate_record_data(&vault));
    let keys: Vec<(Address, bool, bool)> = c2.accounts.iter().map(|a| (a.key, a.is_signer, a.is_writable)).collect();
    assert_eq!(
        keys,
        vec![
            (Address::new(SYSTEM_PROGRAM_ID_BYTES), false, false),
            (Address::new(NAME_SERVICE_PROGRAM_ID_BYTES), false, false),
            (owner, true, true),
            (accounts.sol_record_v2, false, true),
            (accounts.name_account, false, true),
            (vault, true, true),
            (accounts.central_state, false, false),
        ]
    );
    assert_eq!(c2.signer.unwrap().owner, owner);
    b.advance(true);

    let c3 = b.next_call().unwrap();
    assert_eq!(c3.data, write_association_data(&vault));
    assert_eq!(c3.accounts.len(), 7);
    b.advance(true);

    let c4 = b.next_call().unwrap();
    assert_eq!(c4.data, vec![3, 1]);
    assert_eq!(c4.accounts.len(), 8);
    assert_eq!((c4.accounts[5].key, c4.accounts[5].is_signer), (vault, false));
    assert_eq!((c4.accounts[7].key, c4.accounts[7].is_signer, c4.accounts[7].is_writable), (vault, true, true));
    b.advance(true);

    assert_eq!(b.step, BindingStep::Complete);
    assert!(b.next_call().is_none());
    assert_eq!(settle_record_binding(&mut slot, &b), Ok(1));
    assert_eq!(count(&slot), 1);
}

#[test]
fn record_binding_failing_at_write_association_commits_nothing() {
    let owner = addr(1);
    let (mut slot, vault) = open_vault(&owner);
    let mut b = deposit_domain_with_record(&slot, &record_accounts(&owner, &vault)).unwrap();
    b.advance(true);
    b.advance(true);
    assert_eq!(b.step, BindingStep::WriteAssociation);
    b.advance(false);
    assert_eq!(b.step, BindingStep::Failed);
    assert!(b.next_call().is_none());
    b.advance(true);
    assert_eq!(b.step, BindingStep::Failed);
    assert_eq!(settle_record_binding(&mut slot, &b), Err(VaultError::ExternalCallFailure));
    assert_eq!(count(&slot), 0);
}

#[test]
fn deposit_then_withdraw_round_trip() {
    let owner = addr(1);
    let mint = addr(50);
    let (mut slot, vault) = open_vault(&owner);
    assert_eq!(settle_deposit(&mut slot, &owner, &vault, true), Ok(1));
    let before = count(&slot);
    let d = deposit_domain(&slot, &deposit_accounts(&owner, &vault, &mint)).unwrap();
    assert_eq!(settle_deposit(&mut slot, &owner, &vault, true), Ok(2));
    let w = withdraw_domain(&slot, &withdraw_accounts(&owner, &vault, &mint)).unwrap();
    assert_eq!(settle_withdrawal(&mut slot, &owner, &vault, true), Ok(1));
    assert_eq!(count(&slot), before);
    assert_eq!((w.from, w.to, w.mint), (d.to, d.from, d.mint));
}

#[test]
fn custody_example_sequence() {
    let owner = addr(1);
    let (mint_a, mint_b) = (addr(70), addr(71));
    let (mut slot, vault) = open_vault(&owner);
    assert_eq!(count(&slot), 0);
    deposit_domain(&slot, &deposit_accounts(&owner, &vault, &mint_a)).unwrap();
    assert_eq!(settle_deposit(&mut slot, &owner, &vault, true), Ok(1));
    deposit_domain(&slot, &deposit_accounts(&owner, &vault, &mint_b)).unwrap();
    assert_eq!(settle_deposit(&mut slot, &owner, &vault, true), Ok(2));
    withdraw_domain(&slot, &withdraw_accounts(&owner, &vault, &mint_a)).unwrap();
    assert_eq!(settle_withdrawal(&mut slot, &owner, &vault, true), Ok(1));
    // The vault no longer holds A: the token transfer fails.
    withdraw_domain(&slot, &withdraw_accounts(&owner, &vault, &mint_a)).unwrap();
    assert_eq!(settle_withdrawal(&mut slot, &owner, &vault, false), Err(VaultError::ExternalCallFailure));
    assert_eq!(count(&slot), 1);
}

#[test]
fn counter_tracks_deposits_minus_withdrawals() {
    let owner = addr(1);
    let (mut slot, vault) = open_vault(&owner);
    let ops = [(true, true), (true, true), (false, true), (false, true), (false, true), (true, false), (true, true)];
    let (mut deposits, mut withdrawals) = (0u64, 0u64);
    for (is_deposit, ok) in ops {
        let r = if is_deposit {
            settle_deposit(&mut slot, &owner, &vault, ok)
        } else {
            settle_withdrawal(&mut slot, &owner, &vault, ok)
        };
        if r.is_ok() {
            if is_deposit { deposits += 1 } else { withdrawals += 1 }
        }
    }
    assert_eq!((deposits, withdrawals), (3, 2));
    assert_eq!(count(&slot), 1);
}
