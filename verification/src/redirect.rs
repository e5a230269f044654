//! Redirect policy: whether a candidate target is followed, and the
//! stripping of credential-carrying headers when a hop crosses an origin
//! boundary.

use vstd::prelude::*;
use crate::chars::ci_eq;
use crate::headers::{
    HeaderMap, HeaderModel, has_name, remove_name, lemma_filter_sub, lemma_remove_name_absent,
};
use crate::urls::{HttpUrl, UrlModel, same_origin, urls_view};

verus! {

/// What the policy says about one candidate redirect.
#[derive(Clone, Copy, PartialEq, Eq, Structural, Debug)]
pub enum Action {
    /// Follow the candidate URL.
    Follow,
    /// Do not follow; the last response is the terminal result.
    Stop,
    /// The candidate was already visited in this call.
    LoopDetected,
    /// The chain is longer than the policy allows.
    TooManyRedirects,
}

/// The rule deciding whether redirects are followed. `Custom` marks a
/// policy whose decision the caller supplies per hop.
#[derive(Clone, Copy, PartialEq, Eq, Structural, Debug)]
pub enum RedirectPolicy {
    /// Never follow a redirect; the first redirect response is terminal.
    NoFollow,
    /// Follow at most this many hops, refusing revisited URLs.
    Limit(usize),
    /// The caller decides each hop, given the candidate and the history.
    Custom,
}

impl Default for RedirectPolicy {
    /// The default policy follows at most ten redirects.
    fn default() -> (r: Self)
        ensures
            r == RedirectPolicy::Limit(10usize),
    {
        RedirectPolicy::Limit(10)
    }
}

/// The decision of a built-in policy over a candidate and the visited
/// history; `None` when the policy is `Custom` and the caller must decide.
/// A revisited candidate is a loop even when the count limit is also hit.
pub open spec fn spec_check_redirect(
    policy: RedirectPolicy,
    next: UrlModel,
    previous: Seq<UrlModel>,
) -> Option<Action> {
    match policy {
        RedirectPolicy::NoFollow => Some(Action::Stop),
        RedirectPolicy::Limit(n) => Some(
            if previous.contains(next) {
                Action::LoopDetected
            } else if previous.len() > n {
                Action::TooManyRedirects
            } else {
                Action::Follow
            },
        ),
        RedirectPolicy::Custom => None,
    }
}

/// Whether the candidate URL already appears in the visited history.
pub fn history_contains(previous: &Vec<HttpUrl>, next: &HttpUrl) -> (r: bool)
    ensures
        r == urls_view(previous@).contains(next@),
{
    let mut i: usize = 0;
    while i < previous.len()
        invariant
            i <= previous.len(),
            forall|j: int| 0 <= j < i ==> urls_view(previous@)[j] != next@,
        decreases previous.len() - i,
    {
        proof {
            assert(urls_view(previous@)[i as int] == previous@[i as int]@);
        }
        if previous[i].same_url(next) {
            return true;
        }
        i += 1;
    }
    proof {
        assert(!urls_view(previous@).contains(next@));
    }
    false
}

/// Evaluates a built-in policy on a candidate URL and the history of URLs
/// already visited in this call. `None` asks the caller for a `Custom`
/// decision.
pub fn check_redirect(policy: &RedirectPolicy, next: &HttpUrl, previous: &Vec<HttpUrl>) -> (r:
    Option<Action>)
    ensures
        r == spec_check_redirect(*policy, next@, urls_view(previous@)),
{
    match policy {
        RedirectPolicy::NoFollow => Some(Action::Stop),
        RedirectPolicy::Limit(n) => {
            if history_contains(previous, next) {
                Some(Action::LoopDetected)
            } else if previous.len() > *n {
                Some(Action::TooManyRedirects)
            } else {
                Some(Action::Follow)
            }
        },
        RedirectPolicy::Custom => None,
    }
}

/// The headers left after stripping the credential- and session-carrying
/// ones: Authorization, Cookie, Cookie2 and Proxy-Authorization.
pub open spec fn strip_sensitive(hs: Seq<HeaderModel>) -> Seq<HeaderModel> {
    remove_name(
        remove_name(remove_name(remove_name(hs, "authorization"@), "cookie"@), "cookie2"@),
        "proxy-authorization"@,
    )
}

/// The headers that go out on the next hop: stripped when the hop leaves
/// the current scheme-and-host origin, untouched otherwise.
pub open spec fn spec_sanitized(
    hs: Seq<HeaderModel>,
    next: UrlModel,
    previous: Seq<UrlModel>,
) -> Seq<HeaderModel> {
    if previous.len() > 0 && !same_origin(next, previous.last()) {
        strip_sensitive(hs)
    } else {
        hs
    }
}

/// Removes the sensitive headers when the redirect target `next` differs
/// in scheme or host from the last visited URL; a same-origin hop keeps
/// every header.
pub fn remove_sensitive_headers(headers: &mut HeaderMap, next: &HttpUrl, previous: &Vec<HttpUrl>)
    ensures
        final(headers)@ == spec_sanitized(old(headers)@, next@, urls_view(previous@)),
{
    if previous.len() == 0 {
        return ;
    }
    let last = &previous[previous.len() - 1];
    proof {
        assert(urls_view(previous@)[previous@.len() - 1] == previous@[previous@.len() - 1]@);
    }
    if next.same_scheme_and_host(last) {
        return ;
    }
    headers.remove("authorization");
    headers.remove("cookie");
    headers.remove("cookie2");
    headers.remove("proxy-authorization");
}

/// Removing one name never makes another name appear.
pub proof fn lemma_remove_preserves_absence(hs: Seq<HeaderModel>, m: Seq<char>, n: Seq<char>)
    requires
        !has_name(hs, n),
    ensures
        !has_name(remove_name(hs, m), n),
{
    let pred = |h: HeaderModel| !ci_eq(h.name, m);
    lemma_filter_sub(hs, pred);
    let out = remove_name(hs, m);
    assert forall|i: int| 0 <= i < out.len() implies !ci_eq(out[i].name, n) by {
        assert(hs.contains(out[i]));
        let j = choose|j: int| 0 <= j < hs.len() && hs[j] == out[i];
        assert(!ci_eq(hs[j].name, n));
    }
}

/// Law: after a cross-origin hop none of the sensitive headers is present,
/// and a same-origin hop leaves the header set exactly as it was.
pub proof fn lemma_sensitive_header_boundary(
    hs: Seq<HeaderModel>,
    next: UrlModel,
    previous: Seq<UrlModel>,
)
    ensures
        previous.len() > 0 && !same_origin(next, previous.last()) ==> {
            &&& !has_name(spec_sanitized(hs, next, previous), "authorization"@)
            &&& !has_name(spec_sanitized(hs, next, previous), "cookie"@)
            &&& !has_name(spec_sanitized(hs, next, previous), "cookie2"@)
            &&& !has_name(spec_sanitized(hs, next, previous), "proxy-authorization"@)
        },
        previous.len() == 0 || same_origin(next, previous.last()) ==> spec_sanitized(
            hs,
            next,
            previous,
        ) == hs,
{
    if previous.len() > 0 && !same_origin(next, previous.last()) {
        let s1 = remove_name(hs, "authorization"@);
        let s2 = remove_name(s1, "cookie"@);
        let s3 = remove_name(s2, "cookie2"@);
        lemma_remove_name_absent(hs, "authorization"@, "authorization"@);
        lemma_remove_preserves_absence(s1, "cookie"@, "authorization"@);
        lemma_remove_preserves_absence(s2, "cookie2"@, "authorization"@);
        lemma_remove_preserves_absence(s3, "proxy-authorization"@, "authorization"@);
        lemma_remove_name_absent(s1, "cookie"@, "cookie"@);
        lemma_remove_preserves_absence(s2, "cookie2"@, "cookie"@);
        lemma_remove_preserves_absence(s3, "proxy-authorization"@, "cookie"@);
        lemma_remove_name_absent(s2, "cookie2"@, "cookie2"@);
        lemma_remove_preserves_absence(s3, "proxy-authorization"@, "cookie2"@);
        lemma_remove_name_absent(s3, "proxy-authorization"@, "proxy-authorization"@);
    }
}

/// Law: under `Limit(n)` a candidate is followed only while the history
/// holds at most `n` URLs, and the first distinct candidate past the limit
/// is refused as one redirect too many.
pub proof fn lemma_limit_bounds_hops(n: usize, next: UrlModel, previous: Seq<UrlModel>)
    ensures
        spec_check_redirect(RedirectPolicy::Limit(n), next, previous) == Some(Action::Follow)
            ==> previous.len() <= n,
        !previous.contains(next) && previous.len() > n ==> spec_check_redirect(
            RedirectPolicy::Limit(n),
            next,
            previous,
        ) == Some(Action::TooManyRedirects),
{
}

/// Law: a candidate URL that already appears in the visited history is a
/// loop, whatever the count limit still allows.
pub proof fn lemma_loop_precedence(n: usize, next: UrlModel, previous: Seq<UrlModel>)
    ensures
        previous.contains(next) ==> spec_check_redirect(RedirectPolicy::Limit(n), next, previous)
            == Some(Action::LoopDetected),
{
}


} // verus!
