//! A verified core for contract state kept in a key-value world state.
//!
//! The crate models the recurring shape of a small ledger contract: a record
//! type is encoded under a fixed binary schema and stored under a byte key in
//! an external key-value store; operations load a record, apply a guarded
//! mutation, and store it back.  Three pieces make up the core:
//!
//! * a state accessor with typed load / store semantics over an explicit
//!   [`world_state::WorldState`] capability ([`bank_account`],
//!   [`exam_records`]),
//! * deterministic account-identifier derivation ([`identity`]), and
//! * the balance mutation rules themselves ([`bank_account`],
//!   [`bank_operations`]).

use vstd::prelude::*;

pub mod bank_account;
pub mod bank_operations;
pub mod codec;
pub mod exam_records;
pub mod identity;
pub mod world_state;

verus! {

/// Every outcome an operation can report, returned as an explicit value and
/// never raised as an uncontrolled fault.
#[derive(Clone, Copy, Debug, PartialEq, Eq, Structural)]
pub enum StateError {
    /// The key names no stored record: a normal, recoverable outcome.
    NotFound,
    /// A withdrawal asked for more than the stored balance holds; the record
    /// is left unchanged.
    InsufficientFunds,
    /// Stored bytes do not match the fixed binary schema: fatal for the
    /// operation, which aborts without touching the store.
    CorruptState,
    /// A deposit would exceed the 64-bit balance domain; the record is left
    /// unchanged.
    Overflow,
    /// A request tag or selector matches no handler; nothing is done.
    UnknownOperation,
}

impl StateError {
    /// The human-readable message an operation surfaces for this outcome.
    pub fn message(&self) -> (r: String)
        ensures
            *self == StateError::NotFound ==> r@ == "No such account found"@,
            *self == StateError::InsufficientFunds ==> r@
                == "You do not have enough funds to withdraw from this account."@,
            *self == StateError::CorruptState ==> r@
                == "Stored record does not match the schema"@,
            *self == StateError::Overflow ==> r@ == "Deposit would overflow the balance"@,
            *self == StateError::UnknownOperation ==> r@ == "No such operation or subject found"@,
    {
        match self {
            StateError::NotFound => "No such account found".to_owned(),
            StateError::InsufficientFunds => "You do not have enough funds to withdraw from this account.".to_owned(),
            StateError::CorruptState => "Stored record does not match the schema".to_owned(),
            StateError::Overflow => "Deposit would overflow the balance".to_owned(),
            StateError::UnknownOperation => "No such operation or subject found".to_owned(),
        }
    }
}

/// A numeric argument the caller may leave absent; an absent amount means 0.
pub open spec fn amount_or_zero(amount: Option<u64>) -> u64 {
    match amount {
        Some(v) => v,
        None => 0u64,
    }
}

/// Resolves an optional amount argument, defaulting an absent one to 0.
pub fn unwrap_amount(amount: Option<u64>) -> (r: u64)
    ensures
        r == amount_or_zero(amount),
{
    match amount {
        Some(v) => v,
        None => 0u64,
    }
}

} // verus!
