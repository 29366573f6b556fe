//! Percent-encoding of query text, provided by the `urlencoding` crate.

use vstd::prelude::*;

verus! {

/// The percent-encoding of `s`: every byte of its UTF-8 form other than
/// an ASCII alphanumeric or `-`, `_`, `.`, `~` becomes `%` and two upper
/// case hex digits. Stated as a name only: the byte-level expansion is
/// the encoder's business, and the same text always encodes the same way.
pub uninterp spec fn percent_encoded(s: Seq<char>) -> Seq<char>;

/// Relies on urlencoding::encode: percent-encodes every byte except
/// ASCII alphanumerics and `-`, `_`, `.`, `~`; a function of the text
/// alone, so its result carries the name `percent_encoded`.
#[verifier::external_body]
pub(crate) fn url_encode(s: &str) -> (r: String)
    ensures
        r@ == percent_encoded(s@),
        s@.len() == 0 ==> r@.len() == 0,
{
    urlencoding::encode(s).into_owned()
}

} // verus!
