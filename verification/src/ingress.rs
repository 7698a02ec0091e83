//! The generated routing object and its derivation from a redirect intent.
//!
//! The derivation is deterministic: `spec_desired_ingress` states the exact
//! object owed for an intent, and `ingress_for_redirect` is proved to return
//! it. The object's name is `{namespace}.{name}` of the owning intent, its
//! rules map one-to-one onto the intent's hosts, every rule points at this
//! operator's own service on port 8080, and the user's annotations and
//! labels pass through verbatim but swapped, which is the existing contract
//! of the generated objects.

use vstd::prelude::*;

use crate::types::{Context, ContextView, Redirect, RedirectView};

verus! {

/// Backend of a generated routing rule: a service name and a port number.
#[derive(Clone)]
pub struct IngressBackend {
    pub service_name: String,
    pub port: i32,
}

#[verifier::ext_equal]
pub struct IngressBackendView {
    pub service_name: Seq<char>,
    pub port: i32,
}

impl View for IngressBackend {
    type V = IngressBackendView;

    open spec fn view(&self) -> IngressBackendView {
        IngressBackendView { service_name: self.service_name@, port: self.port }
    }
}

/// A single path entry of a routing rule.
#[derive(Clone)]
pub struct HTTPIngressPath {
    pub backend: IngressBackend,
    pub path: String,
    pub path_type: String,
}

#[verifier::ext_equal]
pub struct HTTPIngressPathView {
    pub backend: IngressBackendView,
    pub path: Seq<char>,
    pub path_type: Seq<char>,
}

impl View for HTTPIngressPath {
    type V = HTTPIngressPathView;

    open spec fn view(&self) -> HTTPIngressPathView {
        HTTPIngressPathView {
            backend: self.backend@,
            path: self.path@,
            path_type: self.path_type@,
        }
    }
}

/// A routing rule: one host, and the paths served for it.
#[derive(Clone)]
pub struct IngressRule {
    pub host: String,
    pub paths: Vec<HTTPIngressPath>,
}

#[verifier::ext_equal]
pub struct IngressRuleView {
    pub host: Seq<char>,
    pub paths: Seq<HTTPIngressPathView>,
}

impl View for IngressRule {
    type V = IngressRuleView;

    open spec fn view(&self) -> IngressRuleView {
        IngressRuleView {
            host: self.host@,
            paths: self.paths@.map_values(|p: HTTPIngressPath| p@),
        }
    }
}

/// The transport-security block of a generated routing object.
#[derive(Clone)]
pub struct IngressTLS {
    pub hosts: Vec<String>,
    pub secret_name: String,
}

#[verifier::ext_equal]
pub struct IngressTLSView {
    pub hosts: Seq<Seq<char>>,
    pub secret_name: Seq<char>,
}

impl View for IngressTLS {
    type V = IngressTLSView;

    open spec fn view(&self) -> IngressTLSView {
        IngressTLSView { hosts: self.hosts.deep_view(), secret_name: self.secret_name@ }
    }
}

/// A generated routing object, never user-authored. It lives in the
/// operator's own namespace, so cleanup is driven by the finalizer
/// protocol rather than by ownership references.
#[derive(Clone)]
pub struct Ingress {
    pub name: String,
    pub namespace: String,
    pub annotations: Option<Vec<(String, String)>>,
    pub labels: Option<Vec<(String, String)>>,
    pub ingress_class_name: Option<String>,
    pub rules: Vec<IngressRule>,
    pub tls: Option<IngressTLS>,
}

#[verifier::ext_equal]
pub struct IngressView {
    pub name: Seq<char>,
    pub namespace: Seq<char>,
    pub annotations: Option<Seq<(Seq<char>, Seq<char>)>>,
    pub labels: Option<Seq<(Seq<char>, Seq<char>)>>,
    pub ingress_class_name: Option<Seq<char>>,
    pub rules: Seq<IngressRuleView>,
    pub tls: Option<IngressTLSView>,
}

impl View for Ingress {
    type V = IngressView;

    open spec fn view(&self) -> IngressView {
        IngressView {
            name: self.name@,
            namespace: self.namespace@,
            annotations: self.annotations.deep_view(),
            labels: self.labels.deep_view(),
            ingress_class_name: self.ingress_class_name.deep_view(),
            rules: self.rules@.map_values(|r: IngressRule| r@),
            tls: match self.tls {
                Some(ref t) => Some(t@),
                None => None,
            },
        }
    }
}

/// The deterministic key of the routing object generated for the intent
/// `namespace`/`name`: the two identity parts joined by a dot, so the
/// object can be located without an index.
pub open spec fn spec_ingress_key(namespace: Seq<char>, name: Seq<char>) -> Seq<char> {
    namespace + "."@ + name
}

/// The key of the routing object owed to an intent.
pub open spec fn spec_ingress_key_of(redirect: RedirectView) -> Seq<char>
    recommends
        redirect.named(),
{
    spec_ingress_key(redirect.metadata.namespace->0, redirect.metadata.name->0)
}

/// The backend every generated rule points at: the operator's own
/// ingress-accepting service, always on port 8080.
pub open spec fn spec_backend(service_name: Seq<char>) -> IngressBackendView {
    IngressBackendView { service_name: service_name, port: 8080 }
}

/// The single path entry of every generated rule: prefix `/`.
pub open spec fn spec_http_path(service_name: Seq<char>) -> HTTPIngressPathView {
    HTTPIngressPathView {
        backend: spec_backend(service_name),
        path: "/"@,
        path_type: "Prefix"@,
    }
}

/// The rule generated for one declared host.
pub open spec fn spec_rule(service_name: Seq<char>, host: Seq<char>) -> IngressRuleView {
    IngressRuleView { host: host, paths: seq![spec_http_path(service_name)] }
}

/// The secret name of the transport-security block: the declared one, or
/// `{name}-tls-certs` when none is declared.
pub open spec fn spec_tls_secret_name(redirect: RedirectView) -> Seq<char> {
    match redirect.spec.ingress.tls.secret_name {
        Some(s) => s,
        None => redirect.spec_name_any() + "-tls-certs"@,
    }
}

/// The exact routing object owed to an intent under a given context:
/// rules one-to-one with the declared hosts, annotations and labels
/// passed through swapped, and a transport-security block exactly when
/// the intent asks for one.
pub open spec fn spec_desired_ingress(ctx: ContextView, redirect: RedirectView) -> IngressView
    recommends
        redirect.named(),
{
    IngressView {
        name: spec_ingress_key_of(redirect),
        namespace: ctx.self_namespace,
        annotations: redirect.spec.ingress.labels,
        labels: redirect.spec.ingress.annotations,
        ingress_class_name: redirect.spec.ingress.ingress_class_name,
        rules: Seq::new(
            redirect.spec.hosts.len(),
            |i: int| spec_rule(ctx.self_service_name, redirect.spec.hosts[i]),
        ),
        tls: if redirect.spec.ingress.tls.enabled {
            Some(
                IngressTLSView {
                    hosts: redirect.spec.hosts,
                    secret_name: spec_tls_secret_name(redirect),
                },
            )
        } else {
            None
        },
    }
}

/// The hosts of a rule list, in rule order.
pub open spec fn spec_rule_hosts(rules: Seq<IngressRuleView>) -> Seq<Seq<char>> {
    rules.map_values(|r: IngressRuleView| r.host)
}

/// The name of the routing object generated for a redirect intent.
pub fn ingress_name_for_redirect(redirect: &Redirect) -> (r: String)
    requires
        redirect@.named(),
    ensures
        r@ == spec_ingress_key_of(redirect@),
{
    let mut r = match &redirect.metadata.namespace {
        Some(ns) => ns.clone(),
        None => String::new(),
    };
    r.append(".");
    match &redirect.metadata.name {
        Some(n) => r.append(n.as_str()),
        None => (),
    }
    r
}

/// The backend of a generated routing rule, pointing at the given service
/// on port 8080.
pub fn ingress_backend(service_name: &str) -> (b: IngressBackend)
    ensures
        b@ == spec_backend(service_name@),
{
    IngressBackend { service_name: service_name.to_owned(), port: 8080 }
}

/// Derives the routing object owed to the intent.
pub fn ingress_for_redirect(ctx: &Context, redirect: &Redirect) -> (ing: Ingress)
    requires
        redirect@.named(),
    ensures
        ing@ == spec_desired_ingress(ctx@, redirect@),
{
    let tls = if redirect.spec.ingress.tls.enabled {
        let secret_name = match &redirect.spec.ingress.tls.secret_name {
            Some(s) => s.clone(),
            None => {
                let mut s = redirect.name_any();
                s.append("-tls-certs");
                s
            },
        };
        Some(IngressTLS { hosts: clone_hosts(&redirect.spec.hosts), secret_name })
    } else {
        None
    };

    let mut rules: Vec<IngressRule> = Vec::new();
    let n = redirect.spec.hosts.len();
    for i in 0..n
        invariant
            n == redirect.spec.hosts.len(),
            rules@.len() == i,
            forall|j: int|
                0 <= j < i ==> rules@[j]@ == spec_rule(
                    ctx@.self_service_name,
                    redirect.spec.hosts.deep_view()[j],
                ),
    {
        let path = HTTPIngressPath {
            backend: ingress_backend(ctx.self_service_name.as_str()),
            path: String::from_str("/"),
            path_type: String::from_str("Prefix"),
        };
        let rule = IngressRule { host: redirect.spec.hosts[i].clone(), paths: vec![path] };
        proof {
            assert(rule@.paths =~= seq![spec_http_path(ctx@.self_service_name)]);
            assert(rule@ =~= spec_rule(ctx@.self_service_name, redirect.spec.hosts.deep_view()[i as int]));
        }
        rules.push(rule);
    }

    let ing = Ingress {
        name: ingress_name_for_redirect(redirect),
        namespace: ctx.self_namespace.clone(),
        annotations: clone_pairs(&redirect.spec.ingress.labels),
        labels: clone_pairs(&redirect.spec.ingress.annotations),
        ingress_class_name: match &redirect.spec.ingress.ingress_class_name {
            Some(c) => Some(c.clone()),
            None => None,
        },
        rules,
        tls,
    };
    proof {
        assert(ing@.rules =~= spec_desired_ingress(ctx@, redirect@).rules);
        assert(ing@ =~~= spec_desired_ingress(ctx@, redirect@));
    }
    ing
}

/// Toggling the transport-security flag off, on, and off again round
/// trips: the security block is present exactly in the middle state,
/// with the declared secret name or the `{name}-tls-certs` default, and
/// no other part of the derived object moves.
pub proof fn lemma_tls_toggle_round_trip(ctx: ContextView, off: RedirectView, on: RedirectView)
    requires
        !off.spec.ingress.tls.enabled,
        on.spec.ingress.tls.enabled,
        on.spec.ingress.tls.secret_name == off.spec.ingress.tls.secret_name,
        on.metadata == off.metadata,
        on.status == off.status,
        on.spec.hosts == off.spec.hosts,
        on.spec.to == off.spec.to,
        on.spec.ingress.enabled == off.spec.ingress.enabled,
        on.spec.ingress.ingress_class_name == off.spec.ingress.ingress_class_name,
        on.spec.ingress.annotations == off.spec.ingress.annotations,
        on.spec.ingress.labels == off.spec.ingress.labels,
    ensures
        spec_desired_ingress(ctx, off).tls is None,
        spec_desired_ingress(ctx, on).tls is Some,
        spec_desired_ingress(ctx, on).tls->0.hosts == on.spec.hosts,
        on.spec.ingress.tls.secret_name is Some ==> spec_desired_ingress(ctx, on).tls->0
            .secret_name == on.spec.ingress.tls.secret_name->0,
        on.spec.ingress.tls.secret_name is None ==> spec_desired_ingress(ctx, on).tls->0
            .secret_name == on.spec_name_any() + "-tls-certs"@,
        spec_desired_ingress(ctx, on) == (IngressView {
            tls: spec_desired_ingress(ctx, on).tls,
            ..spec_desired_ingress(ctx, off)
        }),
{
    assert(spec_desired_ingress(ctx, on).rules =~= spec_desired_ingress(ctx, off).rules);
    assert(spec_desired_ingress(ctx, on) =~~= (IngressView {
        tls: spec_desired_ingress(ctx, on).tls,
        ..spec_desired_ingress(ctx, off)
    }));
}

/// Copies a host list.
fn clone_hosts(hosts: &Vec<String>) -> (r: Vec<String>)
    ensures
        r.deep_view() == hosts.deep_view(),
{
    let mut r: Vec<String> = Vec::new();
    let n = hosts.len();
    for i in 0..n
        invariant
            n == hosts.len(),
            r@.len() == i,
            forall|j: int| 0 <= j < i ==> r.deep_view()[j] == hosts.deep_view()[j],
    {
        r.push(hosts[i].clone());
    }
    proof {
        assert(r.deep_view() =~= hosts.deep_view());
    }
    r
}

/// Copies an optional list of key/value pairs.
fn clone_pairs(pairs: &Option<Vec<(String, String)>>) -> (r: Option<Vec<(String, String)>>)
    ensures
        r.deep_view() == pairs.deep_view(),
{
    match pairs {
        None => None,
        Some(v) => {
            let mut r: Vec<(String, String)> = Vec::new();
            let n = v.len();
            for i in 0..n
                invariant
                    n == v.len(),
                    r@.len() == i,
                    forall|j: int| 0 <= j < i ==> r.deep_view()[j] == v.deep_view()[j],
            {
                let p = &v[i];
                r.push((p.0.clone(), p.1.clone()));
            }
            proof {
                assert(r.deep_view() =~= v.deep_view());
                assert(Some(r).deep_view() =~= pairs.deep_view());
            }
            Some(r)
        },
    }
}

} // verus!
