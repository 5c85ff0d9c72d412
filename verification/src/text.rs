use vstd::prelude::*;

verus! {

/// The characters of an optional string.
pub open spec fn option_text(value: Option<String>) -> Option<Seq<char>> {
    match value {
        Some(s) => Some(s@),
        None => None,
    }
}

/// Whether two strings hold the same characters.
pub fn same_text(left: &str, right: &str) -> (same: bool)
    ensures
        same == (left@ == right@),
{
    let a: String = left.to_owned();
    let b: String = right.to_owned();
    a == b
}

/// A copy of a string.
pub fn copy_text(value: &String) -> (copy: String)
    ensures
        copy@ == value@,
{
    value.clone()
}

/// A copy of an optional string.
pub fn copy_option_text(value: &Option<String>) -> (copy: Option<String>)
    ensures
        option_text(copy) == option_text(*value),
{
    match value {
        Some(s) => Some(s.clone()),
        None => None,
    }
}

} // verus!
