//! Byte-level primitives of the fixed binary schema.
//!
//! Every record is laid out as a sequence of fields.  A text field is the
//! UTF-8 encoding of the text, prefixed by its byte length as a little-endian
//! `u64`; numeric fields are little-endian.  [`str_field`] gives the layout of
//! one text field, [`take_field`] parses one field off the front of a byte
//! sequence, and the executable readers and writers are proved against the
//! two.

use vstd::prelude::*;
use vstd::bytes::{
    lemma_auto_spec_u64_to_from_le_bytes, spec_u64_from_le_bytes, spec_u64_to_le_bytes,
    u64_from_le_bytes, u64_to_le_bytes,
};
use vstd::slice::{slice_subrange, slice_to_vec};
use vstd::utf8::{
    decode_utf8, encode_utf8, encode_utf8_decode_utf8, encode_utf8_valid_utf8, valid_utf8,
};

verus! {

/// The encoding of one text field: the byte length of the UTF-8 encoding as a
/// little-endian `u64`, then the UTF-8 bytes themselves.
pub open spec fn str_field(s: Seq<char>) -> Seq<u8> {
    spec_u64_to_le_bytes(encode_utf8(s).len() as u64) + encode_utf8(s)
}

/// Parses one text field off the front of `b`: the decoded text and the
/// remaining bytes, or `None` when the prefix is no well-formed field.
pub open spec fn take_field(b: Seq<u8>) -> Option<(Seq<char>, Seq<u8>)> {
    if b.len() < 8 {
        None
    } else {
        let n = spec_u64_from_le_bytes(b.subrange(0, 8)) as int;
        if b.len() < 8 + n {
            None
        } else {
            let payload = b.subrange(8, 8 + n);
            if valid_utf8(payload) {
                Some((decode_utf8(payload), b.skip(8 + n)))
            } else {
                None
            }
        }
    }
}

/// Parsing a field off a well-formed field followed by anything recovers the
/// text and leaves exactly the rest.
pub proof fn lemma_take_field_concat(s: Seq<char>, rest: Seq<u8>)
    requires
        encode_utf8(s).len() <= u64::MAX,
    ensures
        take_field(str_field(s) + rest) == Some((s, rest)),
{
    let n = encode_utf8(s).len() as int;
    let b = str_field(s) + rest;
    lemma_auto_spec_u64_to_from_le_bytes();
    assert(b.subrange(0, 8) =~= spec_u64_to_le_bytes(encode_utf8(s).len() as u64));
    assert(b.subrange(8, 8 + n) =~= encode_utf8(s));
    encode_utf8_valid_utf8(s);
    encode_utf8_decode_utf8(s);
    assert(b.skip(8 + n) =~= rest);
}

/// Relies on `String::from_utf8`: it succeeds exactly on valid UTF-8 input,
/// and the returned text is the decoding of that input.
#[verifier::external_body]
pub(crate) fn bytes_to_string(bytes: Vec<u8>) -> (r: Option<String>)
    ensures
        match r {
            Some(s) => valid_utf8(bytes@) && s@ == decode_utf8(bytes@),
            None => !valid_utf8(bytes@),
        },
{
    match String::from_utf8(bytes) {
        Ok(s) => Some(s),
        Err(_) => None,
    }
}

/// Appends the field encoding of `s` to `out`.
pub fn push_string_field(out: &mut Vec<u8>, s: &str)
    ensures
        final(out)@ == old(out)@ + str_field(s@),
        encode_utf8(s@).len() <= usize::MAX,
{
    let bytes: &[u8] = s.as_bytes();
    let n: usize = bytes.len();
    let mut len_bytes = u64_to_le_bytes(n as u64);
    out.append(&mut len_bytes);
    out.extend_from_slice(bytes);
    proof {
        assert(final(out)@ =~= old(out)@ + str_field(s@));
    }
}

/// Reads one text field of `bytes` starting at `pos`; on success returns the
/// text and the position just past the field.
pub fn read_string_field(bytes: &[u8], pos: usize) -> (r: Option<(String, usize)>)
    requires
        pos <= bytes@.len(),
    ensures
        match r {
            Some(p) => {
                &&& take_field(bytes@.skip(pos as int)) == Some((p.0@, bytes@.skip(p.1 as int)))
                &&& pos + 8 <= p.1 <= bytes@.len()
            },
            None => take_field(bytes@.skip(pos as int)) is None,
        },
{
    let total: usize = bytes.len();
    if total - pos < 8 {
        return None;
    }
    let len_slice = slice_subrange(bytes, pos, pos + 8);
    proof {
        assert(len_slice@ =~= bytes@.skip(pos as int).subrange(0, 8));
    }
    let n64 = u64_from_le_bytes(len_slice);
    let remaining: usize = total - pos - 8;
    if n64 > remaining as u64 {
        return None;
    }
    let n = n64 as usize;
    let payload = slice_subrange(bytes, pos + 8, pos + 8 + n);
    proof {
        assert(payload@ =~= bytes@.skip(pos as int).subrange(8, 8 + n as int));
    }
    let owned = slice_to_vec(payload);
    let end = pos + 8 + n;
    match bytes_to_string(owned) {
        Some(s) => {
            proof {
                assert(bytes@.skip(pos as int).skip(8 + n as int) =~= bytes@.skip(end as int));
            }
            Some((s, end))
        },
        None => None,
    }
}

} // verus!
