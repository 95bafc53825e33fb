use vstd::prelude::*;
use crate::address::{
    Address, name_service_program_id, sns_records_program_id, system_program_id,
    NAME_SERVICE_PROGRAM_ID_BYTES, SNS_RECORDS_PROGRAM_ID_BYTES, SYSTEM_PROGRAM_ID_BYTES,
};
use crate::custody::{is_registry_transfer, registry_transfer};
use crate::instruction::{
    allocate_record_bytes, allocate_record_data, readonly, validate_bytes, validate_data,
    writable, write_association_bytes, write_association_data, AccountRole, ExternalCall,
    VaultSigner,
};
use crate::vault::{
    access_outcome, check_access, settle, settle_outcome, settled_slot, UserVault, VaultError,
};

verus! {

/// Where a record binding stands. The four active steps run in this order.
#[derive(Clone, Copy, Debug, PartialEq, Eq, Structural)]
pub enum BindingStep {
    /// The registry makes the vault the domain's owner; the user signs.
    TransferOwnership,
    /// The records service allocates the resolution record and posts the
    /// vault's address in it.
    PostRecord,
    /// The records service stores the vault as the record's association.
    WriteAssociation,
    /// The records service checks freshness and the association.
    Validate,
    /// All four calls succeeded.
    Complete,
    /// A call failed; nothing more runs.
    Failed,
}

/// The accounts of a deposit that also binds the domain's resolution record.
#[derive(Clone, Copy, Debug)]
pub struct DepositDomainWithRecord {
    pub owner: Address,
    pub vault: Address,
    pub name_account: Address,
    pub sol_record_v2: Address,
    pub central_state: Address,
}

/// A deposit with record binding in progress.
#[derive(Clone, Copy, Debug)]
pub struct RecordBinding {
    pub accounts: DepositDomainWithRecord,
    pub bump: u8,
    pub step: BindingStep,
}

pub open spec fn step_after(step: BindingStep, call_ok: bool) -> BindingStep {
    match step {
        BindingStep::Complete => BindingStep::Complete,
        BindingStep::Failed => BindingStep::Failed,
        _ => if !call_ok {
            BindingStep::Failed
        } else {
            match step {
                BindingStep::TransferOwnership => BindingStep::PostRecord,
                BindingStep::PostRecord => BindingStep::WriteAssociation,
                BindingStep::WriteAssociation => BindingStep::Validate,
                _ => BindingStep::Complete,
            }
        },
    }
}

pub open spec fn is_active(step: BindingStep) -> bool {
    step != BindingStep::Complete && step != BindingStep::Failed
}

pub open spec fn vault_signer(b: RecordBinding) -> VaultSigner {
    VaultSigner { owner: b.accounts.owner, bump: b.bump }
}

/// The accounts of the post and association calls, in the records service's
/// order: the vault signs as the domain's new owner.
pub open spec fn record_accounts(a: DepositDomainWithRecord) -> Seq<AccountRole> {
    seq![
        readonly(Address { bytes: SYSTEM_PROGRAM_ID_BYTES }, false),
        readonly(Address { bytes: NAME_SERVICE_PROGRAM_ID_BYTES }, false),
        writable(a.owner, true),
        writable(a.sol_record_v2, false),
        writable(a.name_account, false),
        writable(a.vault, true),
        readonly(a.central_state, false),
    ]
}

/// The accounts of the validation call: the vault stands as the domain's
/// owner without signing, and again at the end as the signing verifier.
pub open spec fn validate_accounts(a: DepositDomainWithRecord) -> Seq<AccountRole> {
    seq![
        readonly(Address { bytes: SYSTEM_PROGRAM_ID_BYTES }, false),
        readonly(Address { bytes: NAME_SERVICE_PROGRAM_ID_BYTES }, false),
        writable(a.owner, true),
        writable(a.sol_record_v2, false),
        writable(a.name_account, false),
        writable(a.vault, false),
        readonly(a.central_state, false),
        writable(a.vault, true),
    ]
}

/// `c` is the call of the binding's current step.
pub open spec fn is_step_call(c: ExternalCall, b: RecordBinding) -> bool {
    let a = b.accounts;
    match b.step {
        BindingStep::TransferOwnership => is_registry_transfer(c, a.name_account, a.owner, a.vault, None),
        BindingStep::PostRecord => {
            &&& c.program_id@ == SNS_RECORDS_PROGRAM_ID_BYTES@
            &&& c.accounts@ == record_accounts(a)
            &&& c.data@ == allocate_record_bytes(a.vault@)
            &&& c.signer == Some(vault_signer(b))
        },
        BindingStep::WriteAssociation => {
            &&& c.program_id@ == SNS_RECORDS_PROGRAM_ID_BYTES@
            &&& c.accounts@ == record_accounts(a)
            &&& c.data@ == write_association_bytes(a.vault@)
            &&& c.signer == Some(vault_signer(b))
        },
        BindingStep::Validate => {
            &&& c.program_id@ == SNS_RECORDS_PROGRAM_ID_BYTES@
            &&& c.accounts@ == validate_accounts(a)
            &&& c.data@ == validate_bytes()
            &&& c.signer == Some(vault_signer(b))
        },
        _ => false,
    }
}

fn record_account_list(a: &DepositDomainWithRecord, validating: bool) -> (r: Vec<AccountRole>)
    ensures
        r@ == (if validating { validate_accounts(*a) } else { record_accounts(*a) }),
{
    let mut r: Vec<AccountRole> = vec![
        AccountRole { key: system_program_id(), is_signer: false, is_writable: false },
        AccountRole { key: name_service_program_id(), is_signer: false, is_writable: false },
        AccountRole { key: a.owner, is_signer: true, is_writable: true },
        AccountRole { key: a.sol_record_v2, is_signer: false, is_writable: true },
        AccountRole { key: a.name_account, is_signer: false, is_writable: true },
        AccountRole { key: a.vault, is_signer: !validating, is_writable: true },
        AccountRole { key: a.central_state, is_signer: false, is_writable: false },
    ];
    if validating {
        r.push(AccountRole { key: a.vault, is_signer: true, is_writable: true });
        assert(r@ =~= validate_accounts(*a));
    } else {
        assert(r@ =~= record_accounts(*a));
    }
    r
}

impl RecordBinding {
    /// The call that the current step makes, or `None` once the binding has
    /// completed or failed.
    pub fn next_call(&self) -> (r: Option<ExternalCall>)
        ensures
            r is Some <==> is_active(self.step),
            r is Some ==> is_step_call(r->Some_0, *self),
    {
        let a = &self.accounts;
        let signer = Some(VaultSigner { owner: a.owner, bump: self.bump });
        match self.step {
            BindingStep::TransferOwnership => Some(registry_transfer(&a.name_account, &a.owner, &a.vault, None)),
            BindingStep::PostRecord => Some(ExternalCall {
                program_id: sns_records_program_id(),
                accounts: record_account_list(a, false),
                data: allocate_record_data(&a.vault),
                signer,
            }),
            BindingStep::WriteAssociation => Some(ExternalCall {
                program_id: sns_records_program_id(),
                accounts: record_account_list(a, false),
                data: write_association_data(&a.vault),
                signer,
            }),
            BindingStep::Validate => Some(ExternalCall {
                program_id: sns_records_program_id(),
                accounts: record_account_list(a, true),
                data: validate_data(),
                signer,
            }),
            BindingStep::Complete => None,
            BindingStep::Failed => None,
        }
    }

    /// Takes the outcome of the current step's call: success moves to the
    /// next step, failure ends the binding.
    pub fn advance(&mut self, call_ok: bool)
        ensures
            final(self).accounts == old(self).accounts,
            final(self).bump == old(self).bump,
            final(self).step == step_after(old(self).step, call_ok),
    {
        let next = match self.step {
            BindingStep::Complete => BindingStep::Complete,
            BindingStep::Failed => BindingStep::Failed,
            BindingStep::TransferOwnership => if call_ok { BindingStep::PostRecord } else { BindingStep::Failed },
            BindingStep::PostRecord => if call_ok { BindingStep::WriteAssociation } else { BindingStep::Failed },
            BindingStep::WriteAssociation => if call_ok { BindingStep::Validate } else { BindingStep::Failed },
            BindingStep::Validate => if call_ok { BindingStep::Complete } else { BindingStep::Failed },
        };
        self.step = next;
    }
}

/// Checks a deposit with record binding and starts it at its first step.
pub fn deposit_domain_with_record(slot: &Option<UserVault>, accounts: &DepositDomainWithRecord) -> (r: Result<RecordBinding, VaultError>)
    ensures
        r is Err <==> access_outcome(*slot, accounts.owner@, accounts.vault@) is Err,
        r is Err ==> r->Err_0 == access_outcome(*slot, accounts.owner@, accounts.vault@)->Err_0,
        r is Ok ==> r->Ok_0 == (RecordBinding {
            accounts: *accounts,
            bump: slot->Some_0.bump,
            step: BindingStep::TransferOwnership,
        }),
{
    match check_access(slot, &accounts.owner, &accounts.vault) {
        Err(e) => return Err(e),
        Ok(()) => {},
    }
    match slot {
        None => Err(VaultError::NotFound),
        Some(v) => Ok(RecordBinding { accounts: *accounts, bump: v.bump, step: BindingStep::TransferOwnership }),
    }
}

/// Ends a record binding: the counter moves only where all four calls
/// succeeded; otherwise the deposit fails and nothing changes.
pub fn settle_record_binding(slot: &mut Option<UserVault>, binding: &RecordBinding) -> (r: Result<u64, VaultError>)
    ensures
        r == settle_outcome(*old(slot), binding.accounts.owner@, binding.accounts.vault@,
            binding.step == BindingStep::Complete, true),
        *final(slot) == settled_slot(*old(slot), r),
{
    let complete = match binding.step {
        BindingStep::Complete => true,
        _ => false,
    };
    settle(slot, &binding.accounts.owner, &binding.accounts.vault, complete, true)
}

} // verus!
