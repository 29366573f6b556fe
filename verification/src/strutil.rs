//! Owned-string concatenation with exact view contracts; every URL and
//! message in this crate is assembled through these.

use vstd::prelude::*;
use vstd::string::StringExecFns;

verus! {

/// `a` followed by `b`.
pub fn concat2(a: &str, b: &str) -> (r: String)
    ensures
        r@ == a@ + b@,
{
    let mut s = a.to_owned();
    s.append(b);
    s
}

/// `a` followed by `b` followed by `c`.
pub fn concat3(a: &str, b: &str, c: &str) -> (r: String)
    ensures
        r@ == a@ + b@ + c@,
{
    let mut s = a.to_owned();
    s.append(b);
    s.append(c);
    s
}

/// Concatenation of four parts.
pub fn concat4(a: &str, b: &str, c: &str, d: &str) -> (r: String)
    ensures
        r@ == a@ + b@ + c@ + d@,
{
    let mut s = a.to_owned();
    s.append(b);
    s.append(c);
    s.append(d);
    s
}

/// Concatenation of five parts.
pub fn concat5(a: &str, b: &str, c: &str, d: &str, e: &str) -> (r: String)
    ensures
        r@ == a@ + b@ + c@ + d@ + e@,
{
    let mut s = a.to_owned();
    s.append(b);
    s.append(c);
    s.append(d);
    s.append(e);
    s
}

} // verus!
