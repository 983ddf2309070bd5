//! Validation of user-supplied links, backed by the URL parser.

use vstd::prelude::*;

verus! {

/// Whether a text parses as a URL, named after `url::Url::parse`.
pub uninterp spec fn url_accepted(s: Seq<char>) -> bool;

/// Relies on url::Url::parse: whether a text is accepted as a URL is a
/// function of the text alone.
#[verifier::external_body]
pub(crate) fn link_is_valid(s: &str) -> (r: bool)
    ensures
        r == url_accepted(s@),
{
    url::Url::parse(s).is_ok()
}

} // verus!
