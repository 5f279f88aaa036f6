use vstd::prelude::*;
use vstd::string::*;

verus! {

/// Character-wise equality of two string slices.
pub fn str_eq(a: &str, b: &str) -> (r: bool)
    ensures
        r == (a@ == b@),
{
    let x = a.to_owned();
    let y = b.to_owned();
    x == y
}

/// An owned copy of a string slice.
pub fn owned(s: &str) -> (r: String)
    ensures
        r@ == s@,
{
    s.to_owned()
}

/// `prefix` followed by `payload`, as one owned string.
pub fn joined(prefix: &str, payload: &str) -> (r: String)
    ensures
        r@ == prefix@ + payload@,
{
    let head = String::from_str(prefix);
    head.concat(payload)
}

} // verus!
