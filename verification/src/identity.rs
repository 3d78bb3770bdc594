//! Deterministic account-identifier derivation.
//!
//! When a caller opens an account without supplying a key, a stable identifier
//! is derived from the holder's names: the SHA-256 digest of the UTF-8 bytes
//! of `first_name` followed by those of `last_name`, rendered in padded
//! standard base64.  A caller-supplied key is taken verbatim; its uniqueness
//! is the caller's responsibility.  Note that the two names are concatenated
//! with no separator, so name pairs that concatenate to the same text derive
//! the same identifier.

use sha2::{Digest, Sha256};
use vstd::prelude::*;
use vstd::slice::slice_to_vec;
use vstd::utf8::encode_utf8;

verus! {

/// The SHA-256 digest of a byte sequence.
pub uninterp spec fn sha256_of(bytes: Seq<u8>) -> Seq<u8>;

/// The padded, standard-alphabet base64 rendering of a byte sequence.
pub uninterp spec fn base64_of(bytes: Seq<u8>) -> Seq<char>;

/// Relies on `sha2::Sha256`: a 32-byte digest that depends on the input bytes
/// alone.
#[verifier::external_body]
fn sha256_digest(input: &[u8]) -> (r: Vec<u8>)
    ensures
        r@ == sha256_of(input@),
        r@.len() == 32,
{
    Sha256::digest(input).to_vec()
}

/// Relies on `base64::encode`: the standard alphabet with padding, so the
/// output holds four characters for every started group of three input bytes
/// and depends on the input bytes alone.
#[verifier::external_body]
fn base64_render(input: &[u8]) -> (r: String)
    ensures
        r@ == base64_of(input@),
        r@.len() == 4 * ((input@.len() + 2) / 3),
{
    base64::encode(input)
}

/// The identifier derived for a `(first_name, last_name)` pair when the
/// caller supplies none.
pub open spec fn derived_id(first_name: Seq<char>, last_name: Seq<char>) -> Seq<char> {
    base64_of(sha256_of(encode_utf8(first_name) + encode_utf8(last_name)))
}

/// Identifier derivation is deterministic: equal name pairs always derive
/// the identical identifier.  Together with the contract of
/// [`derive_account_id`], which pins its result to [`derived_id`], repeated
/// calls with identical inputs yield identical output.
pub proof fn lemma_derived_id_deterministic(
    first_a: Seq<char>,
    last_a: Seq<char>,
    first_b: Seq<char>,
    last_b: Seq<char>,
)
    requires
        first_a == first_b,
        last_a == last_b,
    ensures
        derived_id(first_a, last_a) == derived_id(first_b, last_b),
{
}

/// Resolves the identifier an account is stored under: a non-empty
/// caller-supplied key verbatim, else the derived identifier.
pub fn derive_account_id(first_name: &String, last_name: &String, account_id: &String) -> (r:
    String)
    ensures
        account_id@.len() > 0 ==> r@ == account_id@,
        account_id@.len() == 0 ==> r@ == derived_id(first_name@, last_name@),
{
    if !account_id.as_str().is_empty() {
        account_id.clone()
    } else {
        let mut input = slice_to_vec(first_name.as_str().as_bytes());
        input.extend_from_slice(last_name.as_str().as_bytes());
        proof {
            assert(input@ =~= encode_utf8(first_name@) + encode_utf8(last_name@));
        }
        let digest = sha256_digest(input.as_slice());
        base64_render(digest.as_slice())
    }
}

} // verus!
