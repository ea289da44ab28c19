use vstd::prelude::*;
use crate::address::Address;
use crate::bank::BankModel;
use crate::contract::{PiggyBankState, Reject, SmashError};

verus! {

/// The total of a run of amounts.
pub open spec fn sum_of(amounts: Seq<nat>) -> nat
    decreases amounts.len(),
{
    if amounts.len() == 0 {
        0
    } else {
        sum_of(amounts.drop_last()) + amounts.last()
    }
}

/// A bank after deposits of `amounts`, one after the other, and whether every
/// one of them was accepted.
pub open spec fn after_deposits(m: BankModel, amounts: Seq<nat>) -> (BankModel, bool)
    decreases amounts.len(),
{
    if amounts.len() == 0 {
        (m, true)
    } else {
        let before = after_deposits(m, amounts.drop_last());
        let step = before.0.after_insert(amounts.last());
        (step.0, before.1 && step.1 is Ok)
    }
}

/// While a bank is intact every deposit is accepted, and its balance grows by
/// exactly the sum of the amounts deposited; nothing else changes.
pub proof fn lemma_deposits_accumulate(m: BankModel, amounts: Seq<nat>)
    requires
        m.state == PiggyBankState::Intact,
    ensures
        after_deposits(m, amounts).1,
        after_deposits(m, amounts).0 == (BankModel { balance: m.balance + sum_of(amounts), ..m }),
    decreases amounts.len(),
{
    if amounts.len() > 0 {
        lemma_deposits_accumulate(m, amounts.drop_last());
    }
}

/// A smashed bank rejects every deposit and keeps its balance.
pub proof fn lemma_deposit_after_smash_rejected(m: BankModel, amount: nat)
    requires
        m.state == PiggyBankState::Smashed,
    ensures
        m.after_insert(amount) == (m, Err::<(), Reject>(Reject)),
{
}

/// A smash sent by anyone but the owner's account fails with `NotOwner` and
/// changes nothing.
pub proof fn lemma_non_owner_cannot_smash(m: BankModel, sender: Address)
    requires
        !sender.is_account(m.owner),
    ensures
        m.after_smash(sender) == (m, Err::<(), SmashError>(SmashError::NotOwner)),
{
}

/// The owner's first smash of an intact bank holding `B` succeeds, smashes it,
/// and makes exactly one transfer, of `B` to the owner. Any later smash fails,
/// makes no transfer and leaves the balance at zero; sent by the owner, it
/// fails with `AlreadySmashed`.
pub proof fn lemma_smash_once(m: BankModel, later: Address)
    requires
        m.wf(),
        m.state == PiggyBankState::Intact,
        !m.transfers_fail,
    ensures
        m.after_smash(Address::Account(m.owner)).1 == Ok::<(), SmashError>(()),
        m.after_smash(Address::Account(m.owner)).0.state == PiggyBankState::Smashed,
        m.after_smash(Address::Account(m.owner)).0.transfers == seq![(m.owner, m.balance)],
        m.after_smash(Address::Account(m.owner)).0.balance == 0,
        m.after_smash(Address::Account(m.owner)).0.after_smash(later).1 is Err,
        m.after_smash(Address::Account(m.owner)).0.after_smash(later).0 == m.after_smash(
            Address::Account(m.owner),
        ).0,
        later.is_account(m.owner) ==> m.after_smash(Address::Account(m.owner)).0.after_smash(
            later,
        ).1 == Err::<(), SmashError>(SmashError::AlreadySmashed),
{
    assert(m.transfers.push((m.owner, m.balance)) =~= seq![(m.owner, m.balance)]);
}

/// When the host's transfer fails, the owner's smash of an intact bank fails
/// with `TransferError` and leaves the bank as it was: still intact, with its
/// balance.
pub proof fn lemma_failed_transfer_rolls_back(m: BankModel)
    requires
        m.state == PiggyBankState::Intact,
        m.transfers_fail,
    ensures
        m.after_smash(Address::Account(m.owner)) == (m, Err::<(), SmashError>(SmashError::TransferError)),
{
}

} // verus!
