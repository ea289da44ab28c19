use vstd::prelude::*;

verus! {

/// An account on the chain, named by its 32 address bytes.
#[derive(Eq, Clone, Copy, Debug)]
pub struct AccountAddress(pub [u8; 32]);

impl PartialEq for AccountAddress {
    fn eq(&self, o: &AccountAddress) -> (r: bool) {
        let mut i: usize = 0;
        while i < 32
            invariant
                i <= 32,
                forall|j: int| 0 <= j < i ==> self.0[j] == o.0[j],
            decreases 32 - i,
        {
            if self.0[i] != o.0[i] {
                return false;
            }
            i += 1;
        }
        proof {
            broadcast use vstd::array::group_array_axioms;
            assert(self.0 =~= o.0);
        }
        true
    }
}

impl vstd::std_specs::cmp::PartialEqSpecImpl for AccountAddress {
    open spec fn obeys_eq_spec() -> bool {
        true
    }

    open spec fn eq_spec(&self, o: &AccountAddress) -> bool {
        *self == *o
    }
}

/// A smart contract instance on the chain.
#[derive(PartialEq, Eq, Structural, Clone, Copy, Debug)]
pub struct ContractAddress {
    pub index: u64,
    pub subindex: u64,
}

/// Whoever sends an invocation: an account or another contract.
#[derive(PartialEq, Eq, Clone, Copy, Debug)]
pub enum Address {
    Account(AccountAddress),
    Contract(ContractAddress),
}

/// A quantity of the native value unit, counted in its smallest subdivision.
#[derive(PartialEq, Eq, Structural, Clone, Copy, Debug)]
pub struct Amount {
    pub micro_ccd: u64,
}

impl Address {
    /// True when this address is the given account.
    pub open spec fn is_account(self, acc: AccountAddress) -> bool {
        self matches Address::Account(a) && a == acc
    }

    /// Whether this address is the account `acc`.
    pub fn matches_account(&self, acc: &AccountAddress) -> (r: bool)
        ensures
            r == self.is_account(*acc),
    {
        match self {
            Address::Account(a) => *a == *acc,
            Address::Contract(_) => false,
        }
    }
}

impl Amount {
    /// The amount as a number of micro units.
    pub open spec fn value(self) -> nat {
        self.micro_ccd as nat
    }

    pub fn from_micro_ccd(micro_ccd: u64) -> (r: Amount)
        ensures
            r.micro_ccd == micro_ccd,
    {
        Amount { micro_ccd }
    }

    pub fn zero() -> (r: Amount)
        ensures
            r.value() == 0,
    {
        Amount { micro_ccd: 0 }
    }
}

} // verus!
