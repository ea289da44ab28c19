//! A piggy bank: a value-custody state machine that accepts deposits while
//! intact and can be smashed exactly once by its owner, who then receives the
//! whole balance.
//!
//! `address` holds the identities and amounts the logic reads, `contract` the
//! four entry points as decisions on plain values, `bank` an instance together
//! with the host bookkeeping that makes each invocation all or nothing, and
//! `laws` what holds over runs of invocations.
mod address;
mod bank;
mod contract;
pub mod laws;

pub use address::{AccountAddress, Address, Amount, ContractAddress};
pub use bank::{transfer_values, BankModel, PiggyBank};
pub use contract::{
    piggy_init, piggy_insert, piggy_smash, smash_check, smash_result, view_piggy, PiggyBankState,
    Reject, SmashError, Transfer,
};
