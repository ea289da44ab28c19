use vstd::prelude::*;
use crate::address::{AccountAddress, Address, Amount};

verus! {

/// Lifecycle of a piggy bank: intact until its owner smashes it, then smashed
/// for good.
#[derive(PartialEq, Eq, Structural, Clone, Copy, Debug)]
pub enum PiggyBankState {
    Intact,
    Smashed,
}

/// Why a smash was refused.
#[derive(PartialEq, Eq, Structural, Clone, Copy, Debug)]
pub enum SmashError {
    /// The sender is not the owner of the instance.
    NotOwner,
    /// The bank was smashed before.
    AlreadySmashed,
    /// The host could not move the balance to the owner.
    TransferError,
}

/// A rejected deposit. It carries no reason: the only cause is a smashed bank.
#[derive(PartialEq, Eq, Structural, Clone, Copy, Debug)]
pub struct Reject;

/// The one outbound transfer that a smash asks of the host.
#[derive(PartialEq, Eq, Clone, Copy, Debug)]
pub struct Transfer {
    pub to: AccountAddress,
    pub amount: Amount,
}

/// The verdict of a smash on the checks made before any transfer, in their
/// order: the sender is checked first, the state second.
pub open spec fn smash_check(
    owner: AccountAddress,
    sender: Address,
    state: PiggyBankState,
) -> Result<(), SmashError> {
    if !sender.is_account(owner) {
        Err(SmashError::NotOwner)
    } else if state == PiggyBankState::Smashed {
        Err(SmashError::AlreadySmashed)
    } else {
        Ok(())
    }
}

/// A new instance starts out intact.
pub fn piggy_init() -> (r: PiggyBankState)
    ensures
        r == PiggyBankState::Intact,
{
    PiggyBankState::Intact
}

/// A deposit of `amount`. The host has already credited the amount to the
/// instance; the deposit is accepted exactly when the bank is intact. It never
/// changes the state.
pub fn piggy_insert(state: &PiggyBankState, amount: Amount) -> (r: Result<(), Reject>)
    ensures
        r == (if *state == PiggyBankState::Intact {
            Ok::<(), Reject>(())
        } else {
            Err(Reject)
        }),
{
    if *state == PiggyBankState::Intact {
        Ok(())
    } else {
        Err(Reject)
    }
}

/// The decisions of a smash by `sender` on an instance owned by `owner` that
/// holds `self_balance`. On success the state becomes smashed and the result is
/// the transfer of the whole balance to the owner, which the host is to make;
/// on failure the state is left as it was.
pub fn piggy_smash(
    owner: &AccountAddress,
    sender: &Address,
    state: &mut PiggyBankState,
    self_balance: Amount,
) -> (r: Result<Transfer, SmashError>)
    ensures
        match smash_check(*owner, *sender, *old(state)) {
            Ok(()) => {
                &&& r == Ok::<Transfer, SmashError>(Transfer { to: *owner, amount: self_balance })
                &&& *final(state) == PiggyBankState::Smashed
            },
            Err(e) => {
                &&& r == Err::<Transfer, SmashError>(e)
                &&& *final(state) == *old(state)
            },
        },
{
    if !sender.matches_account(owner) {
        return Err(SmashError::NotOwner);
    }
    if *state != PiggyBankState::Intact {
        return Err(SmashError::AlreadySmashed);
    }
    *state = PiggyBankState::Smashed;
    Ok(Transfer { to: *owner, amount: self_balance })
}

/// The result of a smash once the host has tried its transfer.
pub fn smash_result(transfer_succeeded: bool) -> (r: Result<(), SmashError>)
    ensures
        r == (if transfer_succeeded {
            Ok::<(), SmashError>(())
        } else {
            Err(SmashError::TransferError)
        }),
{
    if transfer_succeeded {
        Ok(())
    } else {
        Err(SmashError::TransferError)
    }
}

/// What a view reports: the state and the balance the host holds for the
/// instance, both read as they are.
pub fn view_piggy(state: &PiggyBankState, self_balance: Amount) -> (r: (PiggyBankState, Amount))
    ensures
        r == (*state, self_balance),
{
    (*state, self_balance)
}

} // verus!
