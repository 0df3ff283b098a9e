//! Fixed-capacity values handed to the pool client.
//!
//! The pool client takes its text and byte parameters in buffers of a fixed
//! capacity. This module is the only place where such buffers are made; the
//! rest of the crate speaks of them through their contents.

use core::str::FromStr;
use vstd::prelude::*;
use vstd::string::StringSliceAdditionalSpecFns;

verus! {

/// `heapless::String`: text of at most `N` bytes, held in place. Nothing of
/// its inside is known here; what it holds is spoken of through `short_text`
/// and `long_text`.
#[verifier::external_type_specification]
#[verifier::external_body]
pub struct ExBoundedString<const N: usize>(heapless::String<N>);

/// `heapless::Vec`: at most `N` items, held in place. Nothing of its inside
/// is known here; what it holds is spoken of through `held_bytes`.
#[verifier::external_type_specification]
#[verifier::external_body]
#[verifier::reject_recursive_types(T)]
pub struct ExBoundedVec<T, const N: usize>(heapless::Vec<T, N>);

/// Capacity, in bytes, of a short text.
pub const SHORT_CAPACITY: usize = 32;

/// Capacity, in bytes, of a long text.
pub const LONG_CAPACITY: usize = 64;

/// Capacity, in bytes, of an extra-nonce.
pub const NONCE_CAPACITY: usize = 8;

/// The characters that a `heapless::String<32>` holds.
pub uninterp spec fn short_text(s: heapless::String<32>) -> Seq<char>;

/// The characters that a `heapless::String<64>` holds.
pub uninterp spec fn long_text(s: heapless::String<64>) -> Seq<char>;

/// The bytes that a `heapless::Vec<u8, 8>` holds, in order.
pub uninterp spec fn held_bytes(v: heapless::Vec<u8, 8>) -> Seq<u8>;

/// `s` brought to length `new_len`: cut where it is longer, filled with
/// `value` where it is shorter.
pub open spec fn resized(s: Seq<u8>, new_len: nat, value: u8) -> Seq<u8> {
    Seq::new(
        new_len,
        |i: int|
            if i < s.len() {
                s[i]
            } else {
                value
            },
    )
}

/// `heapless::String::<32>::from_str`: succeeds exactly when the UTF-8
/// encoding of `s` fits in 32 bytes, and then holds the characters of `s`.
#[verifier::external_body]
pub(crate) fn short_from_str(s: &str) -> (r: Result<heapless::String<32>, ()>)
    ensures
        r is Ok <==> s.spec_bytes().len() <= SHORT_CAPACITY,
        r matches Ok(t) ==> short_text(t) == s@,
{
    heapless::String::<32>::from_str(s)
}

/// `heapless::String::<64>::from_str`: succeeds exactly when the UTF-8
/// encoding of `s` fits in 64 bytes, and then holds the characters of `s`.
#[verifier::external_body]
pub(crate) fn long_from_str(s: &str) -> (r: Result<heapless::String<64>, ()>)
    ensures
        r is Ok <==> s.spec_bytes().len() <= LONG_CAPACITY,
        r matches Ok(t) ==> long_text(t) == s@,
{
    heapless::String::<64>::from_str(s)
}

/// `heapless::Vec::new`: an empty buffer.
#[verifier::external_body]
pub(crate) fn bytes_new() -> (v: heapless::Vec<u8, 8>)
    ensures
        held_bytes(v) == Seq::<u8>::empty(),
{
    heapless::Vec::new()
}

/// `heapless::Vec::resize`: refuses a length above the capacity and then
/// changes nothing; otherwise cuts or fills the buffer to `new_len`.
#[verifier::external_body]
pub(crate) fn bytes_resize(
    v: &mut heapless::Vec<u8, 8>,
    new_len: usize,
    value: u8,
) -> (r: Result<(), ()>)
    ensures
        r is Ok <==> new_len <= NONCE_CAPACITY,
        r is Err ==> held_bytes(*final(v)) == held_bytes(*old(v)),
        r is Ok ==> held_bytes(*final(v)) == resized(held_bytes(*old(v)), new_len as nat, value),
{
    v.resize(new_len, value)
}

/// Assignment through `heapless::Vec`'s mutable index: replaces the byte at
/// `index` and leaves the others.
#[verifier::external_body]
pub(crate) fn bytes_set(v: &mut heapless::Vec<u8, 8>, index: usize, value: u8)
    requires
        index < held_bytes(*old(v)).len(),
    ensures
        held_bytes(*final(v)) == held_bytes(*old(v)).update(index as int, value),
{
    v[index] = value;
}

} // verus!
