use vstd::prelude::*;
use crate::address::{AccountAddress, Address, Amount};
use crate::contract::{
    piggy_init, piggy_insert, piggy_smash, smash_check, smash_result, view_piggy,
    PiggyBankState, Reject, SmashError,
};

verus! {

/// What a piggy bank instance is, seen from outside: its owner, its state, the
/// balance the host holds for it, the transfers it has made, and whether the
/// host's transfers are set to fail.
pub struct BankModel {
    pub owner: AccountAddress,
    pub state: PiggyBankState,
    pub balance: nat,
    pub transfers: Seq<(AccountAddress, nat)>,
    pub transfers_fail: bool,
}

impl BankModel {
    /// An intact bank has made no transfer; a smashed one has made exactly one,
    /// to its owner, and holds nothing.
    pub open spec fn wf(self) -> bool {
        &&& self.state == PiggyBankState::Intact ==> self.transfers.len() == 0
        &&& self.state == PiggyBankState::Smashed ==> {
            &&& self.transfers.len() == 1
            &&& self.transfers[0].0 == self.owner
            &&& self.balance == 0
        }
    }

    /// A deposit of `amount`: the host credits it, and keeps the credit only
    /// when the contract accepts.
    pub open spec fn after_insert(self, amount: nat) -> (BankModel, Result<(), Reject>) {
        if self.state == PiggyBankState::Intact {
            (BankModel { balance: self.balance + amount, ..self }, Ok(()))
        } else {
            (self, Err(Reject))
        }
    }

    /// A smash by `sender`: on success the whole balance goes to the owner and
    /// the bank is smashed; on any failure nothing changes.
    pub open spec fn after_smash(self, sender: Address) -> (BankModel, Result<(), SmashError>) {
        match smash_check(self.owner, sender, self.state) {
            Err(e) => (self, Err(e)),
            Ok(()) => if self.transfers_fail {
                (self, Err(SmashError::TransferError))
            } else {
                (
                    BankModel {
                        state: PiggyBankState::Smashed,
                        balance: 0,
                        transfers: self.transfers.push((self.owner, self.balance)),
                        ..self
                    },
                    Ok(()),
                )
            },
        }
    }

    /// What a view reports.
    pub open spec fn viewed(self) -> (PiggyBankState, nat) {
        (self.state, self.balance)
    }
}

/// A piggy bank instance together with what its host keeps for it: the owner
/// who deployed it, its balance and the transfers it made. Each invocation is
/// all or nothing: when it fails, every effect it had is undone.
pub struct PiggyBank {
    owner: AccountAddress,
    state: PiggyBankState,
    balance: Amount,
    transfers: Vec<(AccountAddress, Amount)>,
    transfers_fail: bool,
}

/// Transfers as account and number of micro units.
pub open spec fn transfer_values(ts: Seq<(AccountAddress, Amount)>) -> Seq<(AccountAddress, nat)> {
    ts.map_values(|t: (AccountAddress, Amount)| (t.0, t.1.value()))
}

impl View for PiggyBank {
    type V = BankModel;

    closed spec fn view(&self) -> BankModel {
        BankModel {
            owner: self.owner,
            state: self.state,
            balance: self.balance.value(),
            transfers: transfer_values(self.transfers@),
            transfers_fail: self.transfers_fail,
        }
    }
}

impl PiggyBank {
    #[verifier::type_invariant]
    spec fn inv(self) -> bool {
        self@.wf()
    }

    /// Deploys a new instance owned by `owner`, with nothing in it.
    pub fn new(owner: AccountAddress) -> (r: PiggyBank)
        ensures
            r@.owner == owner,
            r@.state == PiggyBankState::Intact,
            r@.balance == 0,
            r@.transfers.len() == 0,
            !r@.transfers_fail,
            r@.wf(),
    {
        let r = PiggyBank {
            owner,
            state: piggy_init(),
            balance: Amount::zero(),
            transfers: Vec::new(),
            transfers_fail: false,
        };
        assert(r@.transfers =~= Seq::<(AccountAddress, nat)>::empty());
        r
    }

    /// Sets whether the host's transfers fail from now on.
    pub fn make_transfers_fail(&mut self, fail: bool)
        ensures
            final(self)@ == (BankModel { transfers_fail: fail, ..old(self)@ }),
            final(self)@.wf(),
    {
        proof { use_type_invariant(&*self); }
        self.transfers_fail = fail;
    }

    /// A deposit of `amount` attached to an invocation of the instance. The
    /// host credits the amount, then the contract decides; a rejection undoes
    /// the credit.
    pub fn insert(&mut self, amount: Amount) -> (r: Result<(), Reject>)
        requires
            old(self)@.balance + amount.value() <= u64::MAX,
        ensures
            (final(self)@, r) == old(self)@.after_insert(amount.value()),
            final(self)@.wf(),
    {
        proof { use_type_invariant(&*self); }
        let credited = Amount { micro_ccd: self.balance.micro_ccd + amount.micro_ccd };
        let r = piggy_insert(&self.state, amount);
        if r.is_ok() {
            self.balance = credited;
        }
        assert(final(self)@.transfers =~= old(self)@.transfers);
        r
    }

    /// A smash sent by `sender`. The contract decides on a working copy of the
    /// state, the host makes the transfer it asks for, and the invocation is
    /// committed only if both succeed.
    pub fn smash(&mut self, sender: &Address) -> (r: Result<(), SmashError>)
        ensures
            (final(self)@, r) == old(self)@.after_smash(*sender),
            final(self)@.wf(),
    {
        proof { use_type_invariant(&*self); }
        let mut state = self.state;
        match piggy_smash(&self.owner, sender, &mut state, self.balance) {
            Err(e) => Err(e),
            Ok(transfer) => {
                let succeeded = !self.transfers_fail;
                let r = smash_result(succeeded);
                if succeeded {
                    // An intact bank has made no transfer yet, so this one is the first.
                    let mut transfers: Vec<(AccountAddress, Amount)> = Vec::new();
                    transfers.push((transfer.to, transfer.amount));
                    *self = PiggyBank {
                        owner: self.owner,
                        state,
                        balance: Amount { micro_ccd: self.balance.micro_ccd - transfer.amount.micro_ccd },
                        transfers,
                        transfers_fail: self.transfers_fail,
                    };
                    assert(final(self)@.transfers =~= old(self)@.transfers.push((old(self)@.owner, old(self)@.balance)));
                }
                r
            },
        }
    }

    /// The state and the balance of the instance.
    pub fn view_piggy(&self) -> (r: (PiggyBankState, Amount))
        ensures
            (r.0, r.1.value()) == self@.viewed(),
    {
        view_piggy(&self.state, self.balance)
    }

    pub fn state(&self) -> (r: PiggyBankState)
        ensures
            r == self@.state,
    {
        self.state
    }

    pub fn self_balance(&self) -> (r: Amount)
        ensures
            r.value() == self@.balance,
    {
        self.balance
    }

    pub fn owner(&self) -> (r: AccountAddress)
        ensures
            r == self@.owner,
    {
        self.owner
    }

    /// The transfers the instance has made, oldest first.
    pub fn transfers(&self) -> (r: &Vec<(AccountAddress, Amount)>)
        ensures
            transfer_values(r@) == self@.transfers,
    {
        &self.transfers
    }
}

} // verus!
