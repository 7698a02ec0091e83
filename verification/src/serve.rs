//! The redirect serving façade: given a snapshot of the declared intents,
//! a request's host header and path, decide the response.
//!
//! Serving never mutates state and runs on every replica regardless of
//! leadership. The host is normalized by stripping trailing dots; the
//! first intent in snapshot order whose host set contains the normalized
//! host wins; the destination is the intent's target URI, with the request
//! path appended after a separator when the intent asks for it.

use vstd::prelude::*;

use crate::types::{Redirect, RedirectToView, RedirectView};

verus! {

/// An immutable, atomically-swapped snapshot of all known intents. The
/// embedder rebuilds it wholesale from the watch stream; readers see it
/// whole or not at all.
pub struct Store {
    pub items: Vec<Redirect>,
}

impl View for Store {
    type V = Seq<RedirectView>;

    open spec fn view(&self) -> Seq<RedirectView> {
        self.items@.map_values(|r: Redirect| r@)
    }
}

/// A host with every trailing dot removed.
pub open spec fn spec_strip_trailing_dots(s: Seq<char>) -> Seq<char>
    decreases s.len(),
{
    if s.len() > 0 && s.last() == '.' {
        spec_strip_trailing_dots(s.drop_last())
    } else {
        s
    }
}

/// Whether the intent claims the (already normalized) host.
pub open spec fn spec_host_matches(redirect: RedirectView, host: Seq<char>) -> bool {
    redirect.spec.hosts.contains(host)
}

/// The tail appended to the destination: the request path without its
/// leading slash.
pub open spec fn spec_request_tail(path: Seq<char>) -> Seq<char> {
    if path.len() > 0 && path[0] == '/' {
        path.skip(1)
    } else {
        path
    }
}

/// The destination of a matched request: the target URI alone, or the
/// URI, a separator, and the request tail when the intent asks for the
/// request path to be carried over. The separator is always inserted, so
/// a URI ending in a slash yields a double slash.
pub open spec fn spec_redirect_target(to: RedirectToView, path: Seq<char>) -> Seq<char> {
    if to.include_request_uri {
        to.uri + "/"@ + spec_request_tail(path)
    } else {
        to.uri
    }
}

/// The serving outcome: a permanent redirect, or not-found. Not-found is
/// user-visible and never a server fault.
pub enum RedirectOutcome {
    PermanentRedirect(String),
    NotFound,
}

/// Strips trailing dots from a request's host header.
pub fn normalize_host(host: &str) -> (r: String)
    ensures
        r@ == spec_strip_trailing_dots(host@),
{
    let mut end = host.unicode_len();
    proof {
        assert(host@.take(end as int) =~= host@);
    }
    while end > 0 && host.get_char(end - 1) == '.'
        invariant
            end <= host@.len(),
            spec_strip_trailing_dots(host@.take(end as int)) == spec_strip_trailing_dots(host@),
        decreases end,
    {
        proof {
            assert(host@.take(end as int).last() == host@[end - 1]);
            assert(host@.take(end as int).drop_last() =~= host@.take(end - 1));
        }
        end = end - 1;
    }
    let r = host.substring_char(0, end).to_owned();
    proof {
        assert(host@.take(end as int) =~= host@.subrange(0, end as int));
        assert(spec_strip_trailing_dots(host@.take(end as int)) == host@.take(end as int));
    }
    r
}

/// Whether the intent claims the host.
pub fn hosts_contain(redirect: &Redirect, host: &String) -> (r: bool)
    ensures
        r == spec_host_matches(redirect@, host@),
{
    let n = redirect.spec.hosts.len();
    for i in 0..n
        invariant
            n == redirect.spec.hosts.len(),
            forall|j: int| 0 <= j < i ==> redirect@.spec.hosts[j] != host@,
    {
        if redirect.spec.hosts[i].eq(host) {
            proof {
                assert(redirect@.spec.hosts[i as int] == host@);
            }
            return true;
        }
    }
    false
}

impl Store {
    /// The first intent in snapshot order that claims the (already
    /// normalized) host. The order is unspecified but stable within one
    /// snapshot; host-claim uniqueness across intents is not enforced,
    /// so first-match is the de facto tie-break.
    pub fn find(&self, host: &String) -> (r: Option<&Redirect>)
        ensures
            match r {
                Some(redirect) => exists|i: int|
                    0 <= i < self@.len() && spec_host_matches(self@[i], host@) && (forall|j: int|
                        0 <= j < i ==> !spec_host_matches(self@[j], host@)) && redirect@
                        == self@[i],
                None => forall|i: int|
                    0 <= i < self@.len() ==> !spec_host_matches(self@[i], host@),
            },
    {
        let n = self.items.len();
        for i in 0..n
            invariant
                n == self.items.len(),
                forall|j: int| 0 <= j < i ==> !spec_host_matches(self@[j], host@),
        {
            if hosts_contain(&self.items[i], host) {
                proof {
                    let w = i as int;
                    assert(self@[w] == self.items@[w]@);
                    assert(0 <= w < self@.len() && spec_host_matches(self@[w], host@) && (
                    forall|j: int| 0 <= j < w ==> !spec_host_matches(self@[j], host@))
                        && self.items@[w]@ == self@[w]);
                }
                return Some(&self.items[i]);
            }
        }
        None
    }
}

/// Builds the destination for a matched request.
pub fn redirect_target(to: &crate::types::RedirectTo, path: &str) -> (r: String)
    ensures
        r@ == spec_redirect_target(to@, path@),
{
    if to.include_request_uri {
        let tail = if path.unicode_len() > 0 && path.get_char(0) == '/' {
            path.substring_char(1, path.unicode_len())
        } else {
            path
        };
        proof {
            assert(path@.subrange(1, path@.len() as int) =~= path@.skip(1));
        }
        to.uri.clone().concat("/").concat(tail)
    } else {
        to.uri.clone()
    }
}

/// Serves one request from the snapshot: a permanent redirect to the
/// first matching intent's destination, or not-found when no intent
/// claims the normalized host.
pub fn redirect(store: &Store, host: &str, path: &str) -> (r: RedirectOutcome)
    ensures
        ({
            let h = spec_strip_trailing_dots(host@);
            match r {
                RedirectOutcome::PermanentRedirect(uri) => exists|i: int|
                    0 <= i < store@.len() && spec_host_matches(store@[i], h) && (forall|j: int|
                        0 <= j < i ==> !spec_host_matches(store@[j], h)) && uri@
                        == spec_redirect_target(store@[i].spec.to, path@),
                RedirectOutcome::NotFound => forall|i: int|
                    0 <= i < store@.len() ==> !spec_host_matches(store@[i], h),
            }
        }),
{
    let normalized = normalize_host(host);
    match store.find(&normalized) {
        Some(matched) => RedirectOutcome::PermanentRedirect(
            redirect_target(&matched.spec.to, path),
        ),
        None => RedirectOutcome::NotFound,
    }
}

/// Host normalization closes over trailing dots: a request host with one
/// more trailing dot normalizes to the same name, so it matches exactly
/// the intents the undotted host matches.
pub proof fn lemma_trailing_dot_normalizes(host: Seq<char>)
    ensures
        spec_strip_trailing_dots(host.push('.')) == spec_strip_trailing_dots(host),
{
    assert(host.push('.').drop_last() =~= host);
}

} // verus!
