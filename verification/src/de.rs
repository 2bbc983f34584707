//! Decoding quirks of single members: booleans that travel as integers and
//! role lists that travel as one string.

use crate::text::{split, split_at_char};
use vstd::prelude::*;

verus! {

/// Decodes a boolean that travels as an integer: zero is `false`, anything
/// else is `true`.
pub fn deserialize_bool(value: i32) -> (flag: bool)
    ensures
        flag == (value != 0),
{
    value != 0
}

/// Decodes an optional boolean that travels as an integer.
pub fn deserialize_bool_option(value: Option<i32>) -> (flag: Option<bool>)
    ensures
        flag == match value {
            Some(x) => Some(x != 0),
            None => None,
        },
{
    match value {
        Some(x) => Some(x != 0),
        None => None,
    }
}

/// The roles that a role member stands for: none where the member is absent,
/// an empty list where it is the empty string, else its tokens between
/// single spaces, in order and with repetitions.
pub open spec fn roles(field: Option<Seq<char>>) -> Option<Seq<Seq<char>>> {
    match field {
        None => None,
        Some(s) => if s.len() == 0 {
            Some(Seq::<Seq<char>>::empty())
        } else {
            Some(split(s, ' '))
        },
    }
}

/// Decodes a role member: see [`roles`].
pub fn role_list(value: Option<String>) -> (list: Option<Vec<String>>)
    ensures
        list.deep_view() == roles(value.deep_view()),
{
    match value {
        None => None,
        Some(s) => {
            if s.as_str().is_empty() {
                let empty: Vec<String> = Vec::new();
                assert(empty.deep_view() =~= Seq::<Seq<char>>::empty());
                Some(empty)
            } else {
                Some(split_at_char(s.as_str(), ' '))
            }
        },
    }
}

} // verus!
