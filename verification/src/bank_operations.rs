//! The four banking operations over a world state: open, query, deposit,
//! withdraw.
//!
//! Each operation re-reads the stored record, applies its mutation rule, and
//! writes the record back; nothing is cached across calls.  Every outcome is
//! returned as an explicit value, and each `*_post` spec function states
//! exactly how the resulting state and report follow from the prior state.

use vstd::prelude::*;
use vstd::utf8::encode_utf8;

use crate::bank_account::{
    encode_spec, get_bank_account, opened_view, raw_lookup, set_bank_account, AccountView,
    BankAccount, Operation,
};
use crate::world_state::WorldState;
use crate::{amount_or_zero, unwrap_amount, StateError};

verus! {

/// The account stored under an identifier: the lookup of the identifier's
/// UTF-8 bytes.
pub open spec fn lookup_spec(state: Map<Seq<u8>, Seq<u8>>, account_id: Seq<char>) -> Result<
    AccountView,
    StateError,
> {
    raw_lookup(state, encode_utf8(account_id))
}

/// How an open request transforms the state: the opened account is stored
/// under its resolved identifier, and its starting balance is reported.
pub open spec fn open_post(
    pre: Map<Seq<u8>, Seq<u8>>,
    post: Map<Seq<u8>, Seq<u8>>,
    first_name: Seq<char>,
    last_name: Seq<char>,
    account_id: Seq<char>,
    amount: Option<u64>,
    r: Result<u64, StateError>,
) -> bool {
    let v = opened_view(first_name, last_name, account_id, amount);
    &&& r == Ok::<u64, StateError>(v.balance)
    &&& post == pre.insert(encode_utf8(v.account_id), encode_spec(v))
}

/// What a balance query reports: the stored balance, or exactly the error the
/// lookup denotes.
pub open spec fn query_post(
    state: Map<Seq<u8>, Seq<u8>>,
    account_id: Seq<char>,
    r: Result<u64, StateError>,
) -> bool {
    match lookup_spec(state, account_id) {
        Ok(v) => r == Ok::<u64, StateError>(v.balance),
        Err(e) => r == Err::<u64, StateError>(e),
    }
}

/// How a deposit transforms the state: the stored balance grows by the
/// amount, an overflowing or failing deposit changes nothing.
pub open spec fn deposit_post(
    pre: Map<Seq<u8>, Seq<u8>>,
    post: Map<Seq<u8>, Seq<u8>>,
    account_id: Seq<char>,
    amount: Option<u64>,
    r: Result<u64, StateError>,
) -> bool {
    match lookup_spec(pre, account_id) {
        Ok(v) => {
            let amt = amount_or_zero(amount);
            if v.balance + amt <= u64::MAX {
                &&& r == Ok::<u64, StateError>((v.balance + amt) as u64)
                &&& post == pre.insert(
                    encode_utf8(account_id),
                    encode_spec(v.with_balance((v.balance + amt) as u64)),
                )
            } else {
                &&& r == Err::<u64, StateError>(StateError::Overflow)
                &&& post == pre
            }
        },
        Err(e) => {
            &&& r == Err::<u64, StateError>(e)
            &&& post == pre
        },
    }
}

/// How a withdrawal transforms the state: the stored balance shrinks by the
/// amount when it covers it; otherwise `InsufficientFunds` is reported and
/// nothing changes.
pub open spec fn withdraw_post(
    pre: Map<Seq<u8>, Seq<u8>>,
    post: Map<Seq<u8>, Seq<u8>>,
    account_id: Seq<char>,
    amount: Option<u64>,
    r: Result<u64, StateError>,
) -> bool {
    match lookup_spec(pre, account_id) {
        Ok(v) => {
            let amt = amount_or_zero(amount);
            if amt <= v.balance {
                &&& r == Ok::<u64, StateError>((v.balance - amt) as u64)
                &&& post == pre.insert(
                    encode_utf8(account_id),
                    encode_spec(v.with_balance((v.balance - amt) as u64)),
                )
            } else {
                &&& r == Err::<u64, StateError>(StateError::InsufficientFunds)
                &&& post == pre
            }
        },
        Err(e) => {
            &&& r == Err::<u64, StateError>(e)
            &&& post == pre
        },
    }
}

/// Queries are idempotent: a query never writes the state — the dispatcher's
/// `Query` clause leaves it exactly as it was — and any two query outcomes on
/// the same state are the same, so a repeated query can never change or
/// re-read a different stored balance.
pub proof fn lemma_query_idempotent(
    state: Map<Seq<u8>, Seq<u8>>,
    account_id: Seq<char>,
    r1: Result<u64, StateError>,
    r2: Result<u64, StateError>,
)
    requires
        query_post(state, account_id, r1),
        query_post(state, account_id, r2),
    ensures
        r1 == r2,
{
}

/// Reports the balance stored under `account_id`; reads the store once and
/// never writes it.
pub fn query_account_balance(store: &WorldState, account_id: &String) -> (r: Result<
    u64,
    StateError,
>)
    requires
        store.wf(),
    ensures
        query_post(store@, account_id@, r),
{
    let key = account_id.as_str().as_bytes();
    match get_bank_account(store, key) {
        Ok(account) => Ok(account.balance),
        Err(e) => Err(e),
    }
}

/// Deposits into the account stored under `account_id`; an absent amount
/// means 0.
pub fn deposit_money(
    store: &mut WorldState,
    account_id: &String,
    amount_to_deposit: Option<u64>,
) -> (r: Result<u64, StateError>)
    requires
        old(store).wf(),
    ensures
        final(store).wf(),
        deposit_post(old(store)@, final(store)@, account_id@, amount_to_deposit, r),
{
    let key = account_id.as_str().as_bytes();
    match get_bank_account(store, key) {
        Ok(mut account) => {
            let amount = unwrap_amount(amount_to_deposit);
            match account.deposit_to_balance(amount) {
                Ok(new_balance) => {
                    set_bank_account(store, key, &account);
                    Ok(new_balance)
                },
                Err(e) => Err(e),
            }
        },
        Err(e) => Err(e),
    }
}

/// Withdraws from the account stored under `account_id`; an absent amount
/// means 0, and a covered withdrawal is never refused.
pub fn withdraw_money(
    store: &mut WorldState,
    account_id: &String,
    amount_to_withdraw: Option<u64>,
) -> (r: Result<u64, StateError>)
    requires
        old(store).wf(),
    ensures
        final(store).wf(),
        withdraw_post(old(store)@, final(store)@, account_id@, amount_to_withdraw, r),
{
    let key = account_id.as_str().as_bytes();
    match get_bank_account(store, key) {
        Ok(mut account) => {
            let amount = unwrap_amount(amount_to_withdraw);
            match account.withdraw_from_balance(amount) {
                Some(new_balance) => {
                    set_bank_account(store, key, &account);
                    Ok(new_balance)
                },
                None => Err(StateError::InsufficientFunds),
            }
        },
        Err(e) => Err(e),
    }
}

/// The entry surface: dispatches one request to its operation.  A query
/// leaves the state exactly as it was, so repeating it never changes a
/// stored balance.
pub fn contract(
    store: &mut WorldState,
    operation: Operation,
    first_name: &String,
    last_name: &String,
    account_id: &String,
    amount: Option<u64>,
) -> (r: Result<u64, StateError>)
    requires
        old(store).wf(),
    ensures
        final(store).wf(),
        operation == Operation::Open ==> open_post(
            old(store)@,
            final(store)@,
            first_name@,
            last_name@,
            account_id@,
            amount,
            r,
        ),
        operation == Operation::Query ==> final(store)@ == old(store)@ && query_post(
            old(store)@,
            account_id@,
            r,
        ),
        operation == Operation::Deposit ==> deposit_post(
            old(store)@,
            final(store)@,
            account_id@,
            amount,
            r,
        ),
        operation == Operation::Withdraw ==> withdraw_post(
            old(store)@,
            final(store)@,
            account_id@,
            amount,
            r,
        ),
{
    match operation {
        Operation::Open => {
            let account = BankAccount::open_account(
                store,
                first_name,
                last_name,
                account_id,
                amount,
            );
            Ok(account.balance)
        },
        Operation::Query => query_account_balance(store, account_id),
        Operation::Deposit => deposit_money(store, account_id, amount),
        Operation::Withdraw => withdraw_money(store, account_id, amount),
    }
}

} // verus!
