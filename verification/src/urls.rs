//! URLs, which the `url` crate parses.

use vstd::prelude::*;

verus! {

/// The serialization of the URL that `input` makes relative to the URL
/// `base` (or on its own, without `base`), as `url::Url` parses it; `None`
/// when it does not parse.
pub uninterp spec fn resolved_url(base: Option<Seq<char>>, input: Seq<char>) -> Option<Seq<char>>;

pub open spec fn opt_view(s: Option<&str>) -> Option<Seq<char>> {
    match s {
        Some(s) => Some(s@),
        None => None,
    }
}

/// Parses `input` with `url::Url::options().base_url(..).parse`, the base
/// being `base` as `url::Url::parse` reads it, and returns the serialization
/// of the result. The contract names the result and says nothing more of it.
#[verifier::external_body]
pub(crate) fn resolve_url(base: Option<&str>, input: &str) -> (r: Option<String>)
    ensures
        match r {
            Some(s) => resolved_url(opt_view(base), input@) == Some(s@),
            None => resolved_url(opt_view(base), input@) is None,
        },
{
    let base = match base {
        Some(b) => url::Url::parse(b).ok(),
        None => None,
    };
    let parsed = url::Url::options().base_url(base.as_ref()).parse(input).ok()?;
    Some(parsed.to_string())
}

} // verus!
