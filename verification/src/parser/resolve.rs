//! Resolution of a manifest's references against its base URL.
use vstd::prelude::*;
use crate::entity::opt_view;
use crate::text::{starts_with, starts_with_str, string_of};

verus! {

/// What `url::Url::parse(base)` followed by `Url::join(reference)` gives,
/// as the text of the resulting URL; `None` where either step fails.
pub uninterp spec fn url_join(base: Seq<char>, reference: Seq<char>) -> Option<Seq<char>>;

/// Parses `base` with `url::Url::parse` and joins `reference` onto it with
/// `Url::join`, giving the joined URL's text (its `Display`). Nothing is
/// claimed of that text beyond its being `url_join` of the two arguments;
/// either step failing gives `None`.
#[verifier::external_body]
fn join_url(base: &str, reference: &str) -> (r: Option<String>)
    ensures
        opt_view(r) == url_join(base@, reference@),
{
    match url::Url::parse(base) {
        Ok(b) => match b.join(reference) {
            Ok(u) => Some(u.to_string()),
            Err(_) => None,
        },
        Err(_) => None,
    }
}

/// `u` is an absolute `http` or `https` URL, left as it is.
pub open spec fn is_absolute_http(u: Seq<char>) -> bool {
    starts_with(u, "http://"@) || starts_with(u, "https://"@)
}

/// The reference `u` after what joining it onto the base gave (`joined`):
/// the joined URL where there is one, `u` itself otherwise.
pub open spec fn resolved_with(u: Seq<char>, joined: Option<Seq<char>>) -> Seq<char> {
    match joined {
        Some(r) => r,
        None => u,
    }
}

/// `u` resolved against the optional base URL: absolute `http(s)` URLs and
/// references without a base stay as they are; others are joined onto the
/// base, and stay as they are where that fails.
pub open spec fn resolve(base: Option<Seq<char>>, u: Seq<char>) -> Seq<char> {
    if is_absolute_http(u) {
        u
    } else {
        match base {
            Some(b) => resolved_with(u, url_join(b, u)),
            None => u,
        }
    }
}

/// An absolute `http` or `https` URL resolves to itself, whatever the base.
pub proof fn lemma_absolute_urls_unchanged(base: Option<Seq<char>>, u: Seq<char>)
    requires
        is_absolute_http(u),
    ensures
        resolve(base, u) == u,
{
}

/// Without a base URL every reference resolves to itself.
pub proof fn lemma_no_base_unchanged(u: Seq<char>)
    ensures
        resolve(None, u) == u,
{
}

/// The reference `u` after joining it onto a base gave `joined`.
pub fn pick_resolved(u: &[char], joined: Option<String>) -> (r: String)
    ensures
        r@ == resolved_with(u@, opt_view(joined)),
{
    match joined {
        Some(s) => s,
        None => string_of(u),
    }
}

/// `u` resolved against the optional base URL.
pub fn resolve_url(base: &Option<String>, u: &[char]) -> (r: String)
    ensures
        r@ == resolve(opt_view(*base), u@),
{
    if starts_with_str(u, "http://") || starts_with_str(u, "https://") {
        return string_of(u);
    }
    match base {
        Some(b) => {
            let us = string_of(u);
            let joined = join_url(b.as_str(), us.as_str());
            pick_resolved(u, joined)
        },
        None => string_of(u),
    }
}

} // verus!
