//! The bank account record: its binary schema, its mutation rules, and the
//! typed accessors that load and store it in a world state.
//!
//! An account is encoded under the fixed schema of [`crate::codec`]: the three
//! text fields in order, then the balance as a little-endian `u64`.  Decoding
//! is proved to invert encoding ([`lemma_codec_round_trip`]), so a stored
//! record always loads back as the account that was saved.

use vstd::prelude::*;
use vstd::bytes::{
    lemma_auto_spec_u64_to_from_le_bytes, spec_u64_from_le_bytes, spec_u64_to_le_bytes,
    u64_from_le_bytes, u64_to_le_bytes,
};
use vstd::slice::slice_subrange;
use vstd::utf8::encode_utf8;

use crate::codec::{
    lemma_take_field_concat, push_string_field, read_string_field, str_field, take_field,
};
use crate::identity::{derive_account_id, derived_id};
use crate::world_state::WorldState;
use crate::{amount_or_zero, unwrap_amount, StateError};

verus! {

/// The abstract value of a [`BankAccount`].
pub struct AccountView {
    pub first_name: Seq<char>,
    pub last_name: Seq<char>,
    pub account_id: Seq<char>,
    pub balance: u64,
}

impl AccountView {
    /// Representable on a real machine: each text field's UTF-8 encoding fits
    /// the 64-bit length prefix of the schema.  Every account held in memory
    /// satisfies this.
    pub open spec fn wf(self) -> bool {
        &&& encode_utf8(self.first_name).len() <= u64::MAX
        &&& encode_utf8(self.last_name).len() <= u64::MAX
        &&& encode_utf8(self.account_id).len() <= u64::MAX
    }

    /// The same account with its balance replaced.
    pub open spec fn with_balance(self, balance: u64) -> AccountView {
        AccountView { balance, ..self }
    }
}

/// A named balance-holding record; the balance is a non-negative 64-bit
/// amount by construction.
#[derive(Debug, PartialEq)]
pub struct BankAccount {
    pub first_name: String,
    pub last_name: String,
    pub account_id: String,
    pub balance: u64,
}

impl View for BankAccount {
    type V = AccountView;

    open spec fn view(&self) -> AccountView {
        AccountView {
            first_name: self.first_name@,
            last_name: self.last_name@,
            account_id: self.account_id@,
            balance: self.balance,
        }
    }
}

/// The byte encoding of an account under the fixed schema.
pub open spec fn encode_spec(v: AccountView) -> Seq<u8> {
    str_field(v.first_name) + str_field(v.last_name) + str_field(v.account_id)
        + spec_u64_to_le_bytes(v.balance)
}

/// The account held by a byte sequence, or `None` when the bytes do not match
/// the schema exactly.
pub open spec fn decode_spec(b: Seq<u8>) -> Option<AccountView> {
    match take_field(b) {
        Some(first) => match take_field(first.1) {
            Some(last) => match take_field(last.1) {
                Some(id) => if id.1.len() == 8 {
                    Some(
                        AccountView {
                            first_name: first.0,
                            last_name: last.0,
                            account_id: id.0,
                            balance: spec_u64_from_le_bytes(id.1),
                        },
                    )
                } else {
                    None
                },
                None => None,
            },
            None => None,
        },
        None => None,
    }
}

/// Round trip: decoding the encoding of any representable account yields that
/// account again.
pub proof fn lemma_codec_round_trip(v: AccountView)
    requires
        v.wf(),
    ensures
        decode_spec(encode_spec(v)) == Some(v),
{
    let b = encode_spec(v);
    let tail1 = str_field(v.last_name) + str_field(v.account_id) + spec_u64_to_le_bytes(v.balance);
    let tail2 = str_field(v.account_id) + spec_u64_to_le_bytes(v.balance);
    let tail3 = spec_u64_to_le_bytes(v.balance);
    assert(b =~= str_field(v.first_name) + tail1);
    lemma_take_field_concat(v.first_name, tail1);
    assert(tail1 =~= str_field(v.last_name) + tail2);
    lemma_take_field_concat(v.last_name, tail2);
    lemma_take_field_concat(v.account_id, tail3);
    lemma_auto_spec_u64_to_from_le_bytes();
}

/// Encodes an account under the fixed schema.
pub fn encode_account(account: &BankAccount) -> (out: Vec<u8>)
    ensures
        out@ == encode_spec(account@),
        account@.wf(),
{
    let mut out: Vec<u8> = Vec::new();
    push_string_field(&mut out, account.first_name.as_str());
    push_string_field(&mut out, account.last_name.as_str());
    push_string_field(&mut out, account.account_id.as_str());
    let mut balance_bytes = u64_to_le_bytes(account.balance);
    out.append(&mut balance_bytes);
    proof {
        assert(out@ =~= encode_spec(account@));
    }
    out
}

/// Decodes an account; reports `None` on any byte sequence that encodes no
/// account.  Together with [`encode_account`] this inverts encoding: for any
/// account `a`, `decode_account(&encode_account(&a))` returns `a`.
pub fn decode_account(bytes: &[u8]) -> (r: Option<BankAccount>)
    ensures
        match r {
            Some(account) => decode_spec(bytes@) == Some(account@),
            None => decode_spec(bytes@) is None,
        },
{
    proof {
        assert(bytes@.skip(0) =~= bytes@);
    }
    let first = match read_string_field(bytes, 0) {
        Some(p) => p,
        None => { return None; },
    };
    let last = match read_string_field(bytes, first.1) {
        Some(p) => p,
        None => { return None; },
    };
    let id = match read_string_field(bytes, last.1) {
        Some(p) => p,
        None => { return None; },
    };
    let total = bytes.len();
    if total - id.1 != 8 {
        return None;
    }
    let balance_slice = slice_subrange(bytes, id.1, total);
    proof {
        assert(balance_slice@ =~= bytes@.skip(id.1 as int));
    }
    let balance = u64_from_le_bytes(balance_slice);
    Some(
        BankAccount {
            first_name: first.0,
            last_name: last.0,
            account_id: id.0,
            balance,
        },
    )
}

/// The record lookup a raw key denotes in a state: the decoded account, or
/// `NotFound` when the key holds nothing, or `CorruptState` when the stored
/// bytes do not match the schema.
pub open spec fn raw_lookup(state: Map<Seq<u8>, Seq<u8>>, key: Seq<u8>) -> Result<
    AccountView,
    StateError,
> {
    if !state.contains_key(key) {
        Err(StateError::NotFound)
    } else {
        match decode_spec(state[key]) {
            Some(v) => Ok(v),
            None => Err(StateError::CorruptState),
        }
    }
}

/// Loads and decodes the account stored under `key`: one store read, and a
/// `CorruptState` report instead of a silent default when decoding fails.
pub fn get_bank_account(store: &WorldState, key: &[u8]) -> (r: Result<BankAccount, StateError>)
    requires
        store.wf(),
    ensures
        match r {
            Ok(account) => raw_lookup(store@, key@) == Ok::<AccountView, StateError>(account@),
            Err(e) => raw_lookup(store@, key@) == Err::<AccountView, StateError>(e),
        },
{
    match store.get(key) {
        Some(bytes) => match decode_account(bytes.as_slice()) {
            Some(account) => Ok(account),
            None => Err(StateError::CorruptState),
        },
        None => Err(StateError::NotFound),
    }
}

/// Encodes `account` and writes it under `key`: one store write, fully
/// overwriting any prior value.
pub fn set_bank_account(store: &mut WorldState, key: &[u8], account: &BankAccount)
    requires
        old(store).wf(),
    ensures
        final(store).wf(),
        final(store)@ == old(store)@.insert(key@, encode_spec(account@)),
        account@.wf(),
{
    let bytes = encode_account(account);
    store.set(key, bytes);
}

/// The identifier an opened account is stored under: a non-empty
/// caller-supplied one verbatim, else the derived one.
pub open spec fn resolved_id(
    first_name: Seq<char>,
    last_name: Seq<char>,
    account_id: Seq<char>,
) -> Seq<char> {
    if account_id.len() > 0 {
        account_id
    } else {
        derived_id(first_name, last_name)
    }
}

/// The account an open request constructs; an absent initial deposit means 0.
pub open spec fn opened_view(
    first_name: Seq<char>,
    last_name: Seq<char>,
    account_id: Seq<char>,
    initial_deposit: Option<u64>,
) -> AccountView {
    AccountView {
        first_name,
        last_name,
        account_id: resolved_id(first_name, last_name, account_id),
        balance: amount_or_zero(initial_deposit),
    }
}

impl BankAccount {
    /// Constructs the account an open request describes, without touching any
    /// store; `account_id` may be empty, in which case the identifier is
    /// derived from the names.
    pub fn open(
        first_name: &String,
        last_name: &String,
        account_id: &String,
        initial_deposit: Option<u64>,
    ) -> (r: BankAccount)
        ensures
            r@ == opened_view(first_name@, last_name@, account_id@, initial_deposit),
    {
        BankAccount {
            first_name: first_name.clone(),
            last_name: last_name.clone(),
            account_id: derive_account_id(first_name, last_name, account_id),
            balance: unwrap_amount(initial_deposit),
        }
    }

    /// Opens an account and persists it under its resolved identifier.
    pub fn open_account(
        store: &mut WorldState,
        first_name: &String,
        last_name: &String,
        account_id: &String,
        initial_deposit: Option<u64>,
    ) -> (r: BankAccount)
        requires
            old(store).wf(),
        ensures
            final(store).wf(),
            r@ == opened_view(first_name@, last_name@, account_id@, initial_deposit),
            final(store)@ == old(store)@.insert(
                encode_utf8(r@.account_id),
                encode_spec(r@),
            ),
    {
        let account = BankAccount::open(first_name, last_name, account_id, initial_deposit);
        let key = account.account_id.as_str().as_bytes();
        set_bank_account(store, key, &account);
        account
    }

    /// Adds `amount_to_add` to the balance; a deposit that would exceed the
    /// 64-bit domain is rejected as `Overflow` and changes nothing.
    pub fn deposit_to_balance(&mut self, amount_to_add: u64) -> (r: Result<u64, StateError>)
        ensures
            old(self)@.balance + amount_to_add <= u64::MAX ==> ({
                &&& r == Ok::<u64, StateError>((old(self)@.balance + amount_to_add) as u64)
                &&& final(self)@ == old(self)@.with_balance(
                    (old(self)@.balance + amount_to_add) as u64,
                )
            }),
            old(self)@.balance + amount_to_add > u64::MAX ==> ({
                &&& r == Err::<u64, StateError>(StateError::Overflow)
                &&& final(self)@ == old(self)@
            }),
    {
        if amount_to_add <= u64::MAX - self.balance {
            self.balance = self.balance + amount_to_add;
            Ok(self.balance)
        } else {
            Err(StateError::Overflow)
        }
    }

    /// Subtracts `amount_to_withdraw` and returns the new balance when the
    /// balance covers it; otherwise returns `None` and changes nothing.
    pub fn withdraw_from_balance(&mut self, amount_to_withdraw: u64) -> (r: Option<u64>)
        ensures
            amount_to_withdraw <= old(self)@.balance ==> ({
                &&& r == Some((old(self)@.balance - amount_to_withdraw) as u64)
                &&& final(self)@ == old(self)@.with_balance(
                    (old(self)@.balance - amount_to_withdraw) as u64,
                )
            }),
            amount_to_withdraw > old(self)@.balance ==> ({
                &&& r == None::<u64>
                &&& final(self)@ == old(self)@
            }),
    {
        if amount_to_withdraw <= self.balance {
            self.balance = self.balance - amount_to_withdraw;
            Some(self.balance)
        } else {
            None
        }
    }
}

/// The operation tag a request dispatches on.
#[derive(Clone, Copy, Debug, PartialEq, Eq, Structural)]
pub enum Operation {
    Open,
    Query,
    Withdraw,
    Deposit,
}

/// Maps a wire tag to its operation; a tag with no matching handler reports
/// `UnknownOperation`.
pub fn parse_operation(tag: u8) -> (r: Result<Operation, StateError>)
    ensures
        tag == 0 ==> r == Ok::<Operation, StateError>(Operation::Open),
        tag == 1 ==> r == Ok::<Operation, StateError>(Operation::Query),
        tag == 2 ==> r == Ok::<Operation, StateError>(Operation::Withdraw),
        tag == 3 ==> r == Ok::<Operation, StateError>(Operation::Deposit),
        tag >= 4 ==> r == Err::<Operation, StateError>(StateError::UnknownOperation),
{
    if tag == 0 {
        Ok(Operation::Open)
    } else if tag == 1 {
        Ok(Operation::Query)
    } else if tag == 2 {
        Ok(Operation::Withdraw)
    } else if tag == 3 {
        Ok(Operation::Deposit)
    } else {
        Err(StateError::UnknownOperation)
    }
}

} // verus!
