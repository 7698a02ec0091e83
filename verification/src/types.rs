//! The data model of the operator: redirect intents as declared by users,
//! the status block the reconciler writes back, and the error taxonomy.
//!
//! Every executable type has a spec-level view (`...View`) over sequences
//! and plain values; the contracts of the rest of the crate speak of those
//! views.

use vstd::prelude::*;

verus! {

/// The configuration the reconciliation engine works under: the namespace
/// the generated routing objects live in, and the name of this operator's
/// own ingress-accepting service.
#[derive(Clone)]
pub struct Context {
    pub self_namespace: String,
    pub self_service_name: String,
}

#[verifier::ext_equal]
pub struct ContextView {
    pub self_namespace: Seq<char>,
    pub self_service_name: Seq<char>,
}

impl View for Context {
    type V = ContextView;

    open spec fn view(&self) -> ContextView {
        ContextView {
            self_namespace: self.self_namespace@,
            self_service_name: self.self_service_name@,
        }
    }
}

/// An error of the reconciliation engine proper. Each variant wraps the
/// message of the underlying API failure as reported by the embedder.
pub enum Error {
    IngressCreationFailed(String),
    IngressDeletionFailed(String),
    StatusUpdateFailed(String),
}

impl Error {
    /// The normalized error kind used as a metric label.
    pub fn metric_label(&self) -> (r: String)
        ensures
            r@ == self.spec_metric_label(),
    {
        match self {
            Error::IngressCreationFailed(_) => String::from_str("ingresscreationfailed"),
            Error::IngressDeletionFailed(_) => String::from_str("ingressdeletionfailed"),
            Error::StatusUpdateFailed(_) => String::from_str("statusupdatefailed"),
        }
    }

    pub open spec fn spec_metric_label(&self) -> Seq<char> {
        match self {
            Error::IngressCreationFailed(_) => "ingresscreationfailed"@,
            Error::IngressDeletionFailed(_) => "ingressdeletionfailed"@,
            Error::StatusUpdateFailed(_) => "statusupdatefailed"@,
        }
    }
}

/// Destination of a redirect intent.
#[derive(Clone)]
pub struct RedirectTo {
    pub uri: String,
    pub include_request_uri: bool,
}

#[verifier::ext_equal]
pub struct RedirectToView {
    pub uri: Seq<char>,
    pub include_request_uri: bool,
}

impl View for RedirectTo {
    type V = RedirectToView;

    open spec fn view(&self) -> RedirectToView {
        RedirectToView { uri: self.uri@, include_request_uri: self.include_request_uri }
    }
}

/// Transport-security parameters of the generated routing object.
#[derive(Clone)]
pub struct RedirectIngressTLS {
    pub enabled: bool,
    pub secret_name: Option<String>,
}

#[verifier::ext_equal]
pub struct RedirectIngressTLSView {
    pub enabled: bool,
    pub secret_name: Option<Seq<char>>,
}

impl View for RedirectIngressTLS {
    type V = RedirectIngressTLSView;

    open spec fn view(&self) -> RedirectIngressTLSView {
        RedirectIngressTLSView {
            enabled: self.enabled,
            secret_name: self.secret_name.deep_view(),
        }
    }
}

/// How (and whether) a routing object is generated for an intent.
/// Annotations and labels are key/value pairs passed through verbatim.
#[derive(Clone)]
pub struct RedirectIngress {
    pub enabled: bool,
    pub tls: RedirectIngressTLS,
    pub ingress_class_name: Option<String>,
    pub annotations: Option<Vec<(String, String)>>,
    pub labels: Option<Vec<(String, String)>>,
}

#[verifier::ext_equal]
pub struct RedirectIngressView {
    pub enabled: bool,
    pub tls: RedirectIngressTLSView,
    pub ingress_class_name: Option<Seq<char>>,
    pub annotations: Option<Seq<(Seq<char>, Seq<char>)>>,
    pub labels: Option<Seq<(Seq<char>, Seq<char>)>>,
}

impl View for RedirectIngress {
    type V = RedirectIngressView;

    open spec fn view(&self) -> RedirectIngressView {
        RedirectIngressView {
            enabled: self.enabled,
            tls: self.tls@,
            ingress_class_name: self.ingress_class_name.deep_view(),
            annotations: self.annotations.deep_view(),
            labels: self.labels.deep_view(),
        }
    }
}

/// The user-declared shape of a redirect intent: the hosts it claims, the
/// destination, and the routing-object configuration. Hosts are a set: the
/// declared names are pairwise distinct.
#[derive(Clone)]
pub struct RedirectSpec {
    pub hosts: Vec<String>,
    pub to: RedirectTo,
    pub ingress: RedirectIngress,
}

#[verifier::ext_equal]
pub struct RedirectSpecView {
    pub hosts: Seq<Seq<char>>,
    pub to: RedirectToView,
    pub ingress: RedirectIngressView,
}

impl View for RedirectSpec {
    type V = RedirectSpecView;

    open spec fn view(&self) -> RedirectSpecView {
        RedirectSpecView { hosts: self.hosts.deep_view(), to: self.to@, ingress: self.ingress@ }
    }
}

/// The default of the `enabled` and `include_request_uri` flags.
pub fn default_true() -> (r: bool)
    ensures
        r,
{
    true
}

/// The slice of object metadata this operator reads: identity, the
/// deletion tombstone, and the finalizer markers.
#[derive(Clone)]
pub struct RedirectMeta {
    pub name: Option<String>,
    pub namespace: Option<String>,
    pub deletion_timestamp: Option<String>,
    pub finalizers: Vec<String>,
}

#[verifier::ext_equal]
pub struct RedirectMetaView {
    pub name: Option<Seq<char>>,
    pub namespace: Option<Seq<char>>,
    pub deletion_timestamp: Option<Seq<char>>,
    pub finalizers: Seq<Seq<char>>,
}

impl View for RedirectMeta {
    type V = RedirectMetaView;

    open spec fn view(&self) -> RedirectMetaView {
        RedirectMetaView {
            name: self.name.deep_view(),
            namespace: self.namespace.deep_view(),
            deletion_timestamp: self.deletion_timestamp.deep_view(),
            finalizers: self.finalizers.deep_view(),
        }
    }
}

/// A redirect intent as observed from the watch stream.
#[derive(Clone)]
pub struct Redirect {
    pub metadata: RedirectMeta,
    pub spec: RedirectSpec,
    pub status: Option<RedirectStatus>,
}

#[verifier::ext_equal]
pub struct RedirectView {
    pub metadata: RedirectMetaView,
    pub spec: RedirectSpecView,
    pub status: Option<RedirectStatusView>,
}

impl View for Redirect {
    type V = RedirectView;

    open spec fn view(&self) -> RedirectView {
        RedirectView {
            metadata: self.metadata@,
            spec: self.spec@,
            status: match self.status {
                Some(ref s) => Some(s@),
                None => None,
            },
        }
    }
}

impl RedirectView {
    /// Whether the object carries a deletion tombstone.
    pub open spec fn marked_for_deletion(self) -> bool {
        self.metadata.deletion_timestamp is Some
    }

    /// Whether both parts of the identity are present.
    pub open spec fn named(self) -> bool {
        self.metadata.name is Some && self.metadata.namespace is Some
    }
}

impl Redirect {
    /// The object's name, or the empty string when it has none.
    pub fn name_any(&self) -> (r: String)
        ensures
            r@ == self@.spec_name_any(),
    {
        match &self.metadata.name {
            Some(n) => n.clone(),
            None => String::new(),
        }
    }
}

impl RedirectView {
    pub open spec fn spec_name_any(self) -> Seq<char> {
        match self.metadata.name {
            Some(n) => n,
            None => Seq::empty(),
        }
    }
}

/// Status written back by the engine: where the generated routing object
/// lives, or empty references when none is generated.
#[derive(Clone)]
pub struct RedirectStatus {
    pub ingress: RedirectStatusIngress,
}

#[verifier::ext_equal]
pub struct RedirectStatusView {
    pub ingress: RedirectStatusIngressView,
}

impl View for RedirectStatus {
    type V = RedirectStatusView;

    open spec fn view(&self) -> RedirectStatusView {
        RedirectStatusView { ingress: self.ingress@ }
    }
}

impl Default for RedirectStatus {
    /// The empty status: both references blank.
    fn default() -> (r: Self)
        ensures
            r@ == RedirectStatusView::spec_default(),
    {
        RedirectStatus { ingress: RedirectStatusIngress { name: String::new(), namespace: String::new() } }
    }
}

impl RedirectStatusView {
    pub open spec fn spec_default() -> RedirectStatusView {
        RedirectStatusView {
            ingress: RedirectStatusIngressView {
                name: Seq::empty(),
                namespace: Seq::empty(),
            },
        }
    }
}

/// Reference to the generated routing object.
#[derive(Clone)]
pub struct RedirectStatusIngress {
    pub name: String,
    pub namespace: String,
}

#[verifier::ext_equal]
pub struct RedirectStatusIngressView {
    pub name: Seq<char>,
    pub namespace: Seq<char>,
}

impl View for RedirectStatusIngress {
    type V = RedirectStatusIngressView;

    open spec fn view(&self) -> RedirectStatusIngressView {
        RedirectStatusIngressView { name: self.name@, namespace: self.namespace@ }
    }
}

} // verus!
