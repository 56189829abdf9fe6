//! Small operations on text that the conversions share.
use crate::mapping::text_or_empty;
use vstd::prelude::*;

verus! {

/// Compares two string slices with `<str as PartialEq>::eq`; std documents
/// the comparison as equality of the two strings, so the result is true
/// exactly when both hold the same characters.
#[verifier::external_body]
pub(crate) fn str_equals(a: &str, b: &str) -> (r: bool)
    ensures
        r == (a@ == b@),
{
    a == b
}

/// The text of an optional string field, or the empty string where it is absent.
pub(crate) fn owned_text(o: &Option<String>) -> (r: String)
    ensures
        r@ == text_or_empty(*o),
{
    match o {
        Some(s) => s.clone(),
        None => String::new(),
    }
}

/// A copy of a list of strings, in the same order.
pub(crate) fn copy_texts(v: &Vec<String>) -> (r: Vec<String>)
    ensures
        r.deep_view() == v.deep_view(),
{
    let mut out: Vec<String> = Vec::new();
    let n = v.len();
    for i in 0..n
        invariant
            n == v@.len(),
            out@.len() == i,
            forall|j: int| 0 <= j < i ==> #[trigger] out@[j]@ == v@[j]@,
    {
        out.push(v[i].clone());
    }
    assert(out.deep_view() =~= v.deep_view());
    out
}

} // verus!
