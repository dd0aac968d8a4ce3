//! Small trusted bridges to `str` operations that vstd does not specify.

use vstd::prelude::*;

verus! {

/// Relies on `str`'s `==` (its `PartialEq` impl): true exactly when the two
/// texts consist of the same characters.
#[verifier::external_body]
pub(crate) fn str_eq(a: &str, b: &str) -> (r: bool)
    ensures
        r == (a@ == b@),
{
    a == b
}

/// Relies on `format!`: the concatenation of the three texts.
#[verifier::external_body]
pub(crate) fn concat3(a: &str, b: &str, c: &str) -> (r: String)
    ensures
        r@ == a@ + b@ + c@,
{
    format!("{a}{b}{c}")
}

} // verus!
