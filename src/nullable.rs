//! Reading record fields that the server sends as `false` when empty.
//!
//! A field read this way is present when it holds a value of the expected
//! type, and absent when it is missing or holds anything else: a malformed
//! value is not told apart from an empty one.
use vstd::prelude::*;

use crate::json::{member, u32_of, JVal, Json};

verus! {

/// The member `key` of `record` as a string; absent where it is missing or
/// not a string.
pub fn nullable_string(record: &Json, key: &str) -> (r: Option<String>)
    ensures
        member(record@, key@) matches Some(JVal::Str(s)) ==> r is Some && r->0@ == s,
        member(record@, key@) matches Some(v) && !(v is Str) ==> r is None,
        member(record@, key@) is None ==> r is None,
{
    match record.get(key) {
        Some(v) => v.as_string(),
        None => None,
    }
}

/// The member `key` of `record` as an unsigned 32-bit integer; absent where
/// it is missing or not such an integer.
pub fn nullable_u32(record: &Json, key: &str) -> (r: Option<u32>)
    ensures
        member(record@, key@) matches Some(v) ==> r == u32_of(v),
        member(record@, key@) is None ==> r is None,
{
    match record.get(key) {
        Some(v) => v.as_u32(),
        None => None,
    }
}

} // verus!
