use vstd::prelude::*;
use crate::binding::{step_after, BindingStep};
use crate::custody::{deposit_domain_outcome, deposit_transfer, withdraw_domain_outcome, withdraw_transfer, DepositDomain, WithdrawDomain};
use crate::vault::{access_outcome, settle_outcome, settled_slot, UserVault, VaultError};

verus! {

/// The storage after settling each `(is_deposit, call_ok)` operation of
/// `ops` in turn, by one caller on one vault address.
pub open spec fn replay(slot: Option<UserVault>, caller: Seq<u8>, vault: Seq<u8>, ops: Seq<(bool, bool)>) -> Option<UserVault>
    decreases ops.len(),
{
    if ops.len() == 0 {
        slot
    } else {
        let prev = replay(slot, caller, vault, ops.drop_last());
        let op = ops.last();
        settled_slot(prev, settle_outcome(prev, caller, vault, op.1, op.0))
    }
}

/// How many operations of `ops` of the given kind settled successfully.
pub open spec fn successes(slot: Option<UserVault>, caller: Seq<u8>, vault: Seq<u8>, ops: Seq<(bool, bool)>, deposits: bool) -> nat
    decreases ops.len(),
{
    if ops.len() == 0 {
        0
    } else {
        let prev = replay(slot, caller, vault, ops.drop_last());
        let op = ops.last();
        let earlier = successes(slot, caller, vault, ops.drop_last(), deposits);
        if op.0 == deposits && settle_outcome(prev, caller, vault, op.1, op.0) is Ok {
            earlier + 1
        } else {
            earlier
        }
    }
}

/// Over any sequence of deposits and withdrawals on one vault, the counter
/// equals its start plus the deposits minus the withdrawals that succeeded;
/// owner and proof byte never change. As the counter is unsigned, it never
/// went below zero nor wrapped.
pub proof fn lemma_counter_tracks_custody(slot: Option<UserVault>, caller: Seq<u8>, vault: Seq<u8>, ops: Seq<(bool, bool)>)
    requires
        slot is Some,
    ensures
        replay(slot, caller, vault, ops) is Some,
        replay(slot, caller, vault, ops)->Some_0.owner == slot->Some_0.owner,
        replay(slot, caller, vault, ops)->Some_0.bump == slot->Some_0.bump,
        replay(slot, caller, vault, ops)->Some_0.domains_count as int == slot->Some_0.domains_count as int
            + successes(slot, caller, vault, ops, true) - successes(slot, caller, vault, ops, false),
    decreases ops.len(),
{
    if ops.len() > 0 {
        lemma_counter_tracks_custody(slot, caller, vault, ops.drop_last());
    }
}

/// A caller other than the stored owner is refused before anything else:
/// no transfer is planned and settling changes nothing.
pub proof fn lemma_foreign_caller_refused(
    slot: Option<UserVault>,
    caller: Seq<u8>,
    vault: Seq<u8>,
    call_ok: bool,
    is_deposit: bool,
    d: DepositDomain,
    w: WithdrawDomain,
)
    requires
        slot is Some,
        slot->Some_0.owner@ != caller,
        d.owner@ == caller,
        w.owner@ == caller,
    ensures
        access_outcome(slot, caller, vault) == Err::<(), VaultError>(VaultError::UnauthorizedAccess),
        settle_outcome(slot, caller, vault, call_ok, is_deposit) == Err::<u64, VaultError>(VaultError::UnauthorizedAccess),
        settled_slot(slot, settle_outcome(slot, caller, vault, call_ok, is_deposit)) == slot,
        deposit_domain_outcome(slot, d) == Err::<crate::custody::TokenTransfer, VaultError>(VaultError::UnauthorizedAccess),
        withdraw_domain_outcome(slot, w) == Err::<crate::custody::TokenTransfer, VaultError>(VaultError::UnauthorizedAccess),
{
}

/// The step a record binding reaches from `step` after the call outcomes
/// `outcomes`, in order.
pub open spec fn run_steps(step: BindingStep, outcomes: Seq<bool>) -> BindingStep
    decreases outcomes.len(),
{
    if outcomes.len() == 0 {
        step
    } else {
        run_steps(step_after(step, outcomes[0]), outcomes.drop_first())
    }
}

proof fn lemma_failed_stays(outcomes: Seq<bool>)
    ensures
        run_steps(BindingStep::Failed, outcomes) == BindingStep::Failed,
    decreases outcomes.len(),
{
    if outcomes.len() > 0 {
        lemma_failed_stays(outcomes.drop_first());
    }
}

/// A record binding whose calls all succeed completes; one in which any of
/// the four calls fails ends failed, whatever follows, and settling it
/// reports the failed call and leaves the counter as it was.
pub proof fn lemma_binding_all_or_nothing(slot: Option<UserVault>, caller: Seq<u8>, vault: Seq<u8>, outcomes: Seq<bool>)
    requires
        outcomes.len() >= 4,
    ensures
        (forall|i: int| 0 <= i < 4 ==> outcomes[i]) ==> run_steps(BindingStep::TransferOwnership, outcomes.take(4))
            == BindingStep::Complete,
        (exists|i: int| 0 <= i < 4 && !outcomes[i]) ==> {
            &&& run_steps(BindingStep::TransferOwnership, outcomes) == BindingStep::Failed
            &&& access_outcome(slot, caller, vault) is Ok ==> settle_outcome(slot, caller, vault, false, true)
                == Err::<u64, VaultError>(VaultError::ExternalCallFailure)
            &&& settled_slot(slot, settle_outcome(slot, caller, vault, false, true)) == slot
        },
{
    let o = outcomes;
    let t = o.take(4);
    let t1 = t.drop_first();
    let t2 = t1.drop_first();
    let t3 = t2.drop_first();
    let t4 = t3.drop_first();
    assert(t1[0] == o[1] && t2[0] == o[2] && t3[0] == o[3]);
    assert(t4.len() == 0);
    let s0 = BindingStep::TransferOwnership;
    let s1 = step_after(s0, o[0]);
    let s2 = step_after(s1, o[1]);
    let s3 = step_after(s2, o[2]);
    let s4 = step_after(s3, o[3]);
    assert(run_steps(s3, t3) == run_steps(s4, t4));
    assert(run_steps(s2, t2) == run_steps(s3, t3));
    assert(run_steps(s1, t1) == run_steps(s2, t2));
    assert(run_steps(s0, t) == run_steps(s1, t1));
    assert(run_steps(s0, t) == s4);
    lemma_run_split(s0, o, 4);
    if exists|i: int| 0 <= i < 4 && !outcomes[i] {
        assert(s4 == BindingStep::Failed);
        lemma_failed_stays(o.subrange(4, o.len() as int));
    }
}

proof fn lemma_run_split(s: BindingStep, o: Seq<bool>, k: int)
    requires
        0 <= k <= o.len(),
    ensures
        run_steps(s, o) == run_steps(run_steps(s, o.take(k)), o.subrange(k, o.len() as int)),
    decreases k,
{
    if k == 0 {
        assert(o.take(0).len() == 0);
        assert(o.subrange(0, o.len() as int) =~= o);
    } else {
        lemma_run_split(step_after(s, o[0]), o.drop_first(), k - 1);
        assert(o.take(k).drop_first() =~= o.drop_first().take(k - 1));
        assert(o.drop_first().subrange(k - 1, o.drop_first().len() as int) =~= o.subrange(k, o.len() as int));
    }
}

/// A deposit followed by a withdrawal of the same domain restores the
/// counter, and the withdrawal's transfer runs the deposit's backwards.
pub proof fn lemma_round_trip(slot: Option<UserVault>, d: DepositDomain, w: WithdrawDomain)
    requires
        access_outcome(slot, d.owner@, d.vault@) is Ok,
        slot->Some_0.domains_count < u64::MAX,
        w.owner == d.owner,
        w.vault == d.vault,
        w.domain_mint == d.domain_mint,
        w.user_token_account == d.user_token_account,
        w.vault_token_account == d.vault_token_account,
        w.token_program == d.token_program,
    ensures
        ({
            let after = settled_slot(slot, settle_outcome(slot, d.owner@, d.vault@, true, true));
            &&& settle_outcome(after, d.owner@, d.vault@, true, false) is Ok
            &&& settled_slot(after, settle_outcome(after, d.owner@, d.vault@, true, false)) == slot
        }),
        withdraw_transfer(w, slot->Some_0.bump).from == deposit_transfer(d).to,
        withdraw_transfer(w, slot->Some_0.bump).to == deposit_transfer(d).from,
        withdraw_transfer(w, slot->Some_0.bump).mint == deposit_transfer(d).mint,
{
}

} // verus!
