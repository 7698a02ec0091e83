//! The reconciliation engine: a state machine per intent with two logical
//! states, applying and cleaning up, selected by the deletion tombstone.
//!
//! The engine itself performs no I/O. `reconcile` is a pure function from
//! the observed object to a decision; the embedder executes the decision
//! (persist the finalizer marker, upsert or delete the routing object,
//! patch the status) and reports failures through the error taxonomy.

use vstd::prelude::*;

use crate::ingress::{
    spec_desired_ingress, spec_ingress_key_of, spec_rule_hosts, ingress_for_redirect,
    ingress_name_for_redirect, Ingress, IngressView,
};
use crate::types::{
    Context, ContextView, Error, Redirect, RedirectStatus, RedirectStatusIngress,
    RedirectStatusIngressView, RedirectStatusView, RedirectView,
};

verus! {

/// The group slug this operator uses as its server-side-apply field
/// manager: subsequent reconciliations overwrite only fields it owns.
pub fn redirect_kube_slug() -> (r: String)
    ensures
        r@ == spec_redirect_kube_slug(),
{
    String::from_str("redirect.kube.ibotty.net")
}

pub open spec fn spec_redirect_kube_slug() -> Seq<char> {
    "redirect.kube.ibotty.net"@
}

/// The finalizer marker recorded on an intent while this operator has
/// outstanding cleanup responsibility.
pub fn redirect_kube_finalizer_slug() -> (r: String)
    ensures
        r@ == spec_redirect_kube_finalizer_slug(),
{
    String::from_str("redirect.kube.ibotty.net/cleanup")
}

pub open spec fn spec_redirect_kube_finalizer_slug() -> Seq<char> {
    "redirect.kube.ibotty.net/cleanup"@
}

/// Whether the object carries this operator's finalizer marker.
pub open spec fn spec_has_finalizer(redirect: RedirectView) -> bool {
    redirect.metadata.finalizers.contains(spec_redirect_kube_finalizer_slug())
}

/// Checks for this operator's finalizer marker on the object.
pub fn has_finalizer(redirect: &Redirect) -> (r: bool)
    ensures
        r == spec_has_finalizer(redirect@),
{
    let marker = redirect_kube_finalizer_slug();
    let n = redirect.metadata.finalizers.len();
    for i in 0..n
        invariant
            n == redirect.metadata.finalizers.len(),
            marker@ == spec_redirect_kube_finalizer_slug(),
            forall|j: int|
                0 <= j < i ==> redirect@.metadata.finalizers[j]
                    != spec_redirect_kube_finalizer_slug(),
    {
        if redirect.metadata.finalizers[i].eq(&marker) {
            proof {
                assert(redirect@.metadata.finalizers[i as int]
                    == spec_redirect_kube_finalizer_slug());
            }
            return true;
        }
    }
    false
}

/// What the driver does after a reconciliation attempt: requeue after a
/// fixed delay, or wait for the next watch event.
#[derive(Clone, Copy, Debug, PartialEq, Eq, Structural)]
pub enum Action {
    Requeue(u64),
    AwaitChange,
}

/// The writes owed in the applying state: the routing object to upsert
/// (or the stale one to delete when generation is disabled), and the
/// status to patch back, then a steady-state requeue.
pub struct ApplyPlan {
    pub ingress: Option<Ingress>,
    pub stale_ingress_name: Option<String>,
    pub status: RedirectStatus,
    pub action: Action,
}

#[verifier::ext_equal]
pub struct ApplyPlanView {
    pub ingress: Option<IngressView>,
    pub stale_ingress_name: Option<Seq<char>>,
    pub status: RedirectStatusView,
    pub action: Action,
}

impl View for ApplyPlan {
    type V = ApplyPlanView;

    open spec fn view(&self) -> ApplyPlanView {
        ApplyPlanView {
            ingress: match self.ingress {
                Some(ref i) => Some(i@),
                None => None,
            },
            stale_ingress_name: self.stale_ingress_name.deep_view(),
            status: self.status@,
            action: self.action,
        }
    }
}

/// The writes owed in the cleaning-up state: delete the routing object by
/// its deterministic key (deleting an absent object counts as success),
/// then remove the finalizer marker.
pub struct CleanupPlan {
    pub ingress_name: String,
    pub ingress_namespace: String,
    pub action: Action,
}

#[verifier::ext_equal]
pub struct CleanupPlanView {
    pub ingress_name: Seq<char>,
    pub ingress_namespace: Seq<char>,
    pub action: Action,
}

impl View for CleanupPlan {
    type V = CleanupPlanView;

    open spec fn view(&self) -> CleanupPlanView {
        CleanupPlanView {
            ingress_name: self.ingress_name@,
            ingress_namespace: self.ingress_namespace@,
            action: self.action,
        }
    }
}

/// The decision of one reconciliation attempt.
pub enum Decision {
    /// Persist the finalizer marker first; every other side effect waits
    /// until the marker is durable.
    AddFinalizer,
    /// Converge the routing object and the status.
    RunApply(ApplyPlan),
    /// Delete the routing object, then remove the finalizer marker.
    RunCleanup(CleanupPlan),
    /// Deletion is underway and no cleanup is owed.
    AwaitChange,
}

#[verifier::ext_equal]
pub enum DecisionView {
    AddFinalizer,
    RunApply(ApplyPlanView),
    RunCleanup(CleanupPlanView),
    AwaitChange,
}

impl View for Decision {
    type V = DecisionView;

    open spec fn view(&self) -> DecisionView {
        match self {
            Decision::AddFinalizer => DecisionView::AddFinalizer,
            Decision::RunApply(p) => DecisionView::RunApply(p@),
            Decision::RunCleanup(p) => DecisionView::RunCleanup(p@),
            Decision::AwaitChange => DecisionView::AwaitChange,
        }
    }
}

/// Errors surfaced by the finalizer protocol around the engine's own
/// error taxonomy.
pub enum ReconcileError {
    ApplyFailed(Error),
    CleanupFailed(Error),
    AddFinalizerFailed(String),
    RemoveFinalizerFailed(String),
    UnnamedObject,
    InvalidFinalizer,
}

/// The steady-state drift-correction delay, in seconds: both states
/// requeue after this long regardless of outcome.
pub open spec fn spec_requeue_delay_secs() -> u64 {
    300
}

/// The status owed after a successful apply: the generated object's
/// key and namespace when generation is enabled, empty references
/// otherwise.
pub open spec fn spec_apply_status(ctx: ContextView, redirect: RedirectView) -> RedirectStatusView {
    if redirect.spec.ingress.enabled {
        RedirectStatusView {
            ingress: RedirectStatusIngressView {
                name: spec_ingress_key_of(redirect),
                namespace: ctx.self_namespace,
            },
        }
    } else {
        RedirectStatusView::spec_default()
    }
}

/// The exact plan of the applying state.
pub open spec fn spec_apply_plan(ctx: ContextView, redirect: RedirectView) -> ApplyPlanView {
    ApplyPlanView {
        ingress: if redirect.spec.ingress.enabled {
            Some(spec_desired_ingress(ctx, redirect))
        } else {
            None
        },
        stale_ingress_name: if redirect.spec.ingress.enabled {
            None
        } else {
            Some(spec_ingress_key_of(redirect))
        },
        status: spec_apply_status(ctx, redirect),
        action: Action::Requeue(spec_requeue_delay_secs()),
    }
}

/// The exact plan of the cleaning-up state.
pub open spec fn spec_cleanup_plan(ctx: ContextView, redirect: RedirectView) -> CleanupPlanView {
    CleanupPlanView {
        ingress_name: spec_ingress_key_of(redirect),
        ingress_namespace: ctx.self_namespace,
        action: Action::Requeue(spec_requeue_delay_secs()),
    }
}

/// Computes the applying-state plan: upsert the routing object and report
/// its reference in the status when generation is enabled; otherwise
/// delete the stale object by its deterministic key and report an empty
/// reference.
pub fn apply(redirect: &Redirect, ctx: &Context) -> (p: ApplyPlan)
    requires
        redirect@.named(),
    ensures
        p@ == spec_apply_plan(ctx@, redirect@),
{
    let p = if redirect.spec.ingress.enabled {
        let ingress = ingress_for_redirect(ctx, redirect);
        let status = RedirectStatus {
            ingress: RedirectStatusIngress {
                name: ingress_name_for_redirect(redirect),
                namespace: ctx.self_namespace.clone(),
            },
        };
        ApplyPlan {
            ingress: Some(ingress),
            stale_ingress_name: None,
            status,
            action: Action::Requeue(300),
        }
    } else {
        ApplyPlan {
            ingress: None,
            stale_ingress_name: Some(ingress_name_for_redirect(redirect)),
            status: RedirectStatus::default(),
            action: Action::Requeue(300),
        }
    };
    proof {
        assert(p@ =~~= spec_apply_plan(ctx@, redirect@));
    }
    p
}

/// Computes the cleaning-up plan: the deterministic key of the routing
/// object to delete in the operator's namespace.
pub fn cleanup(redirect: &Redirect, ctx: &Context) -> (p: CleanupPlan)
    requires
        redirect@.named(),
    ensures
        p@ == spec_cleanup_plan(ctx@, redirect@),
{
    let p = CleanupPlan {
        ingress_name: ingress_name_for_redirect(redirect),
        ingress_namespace: ctx.self_namespace.clone(),
        action: Action::Requeue(300),
    };
    proof {
        assert(p@ =~~= spec_cleanup_plan(ctx@, redirect@));
    }
    p
}

/// The decision owed for an observed object, stated over views.
pub open spec fn spec_reconcile(ctx: ContextView, redirect: RedirectView) -> Result<
    DecisionView,
    (),
> {
    if redirect.marked_for_deletion() {
        if !spec_has_finalizer(redirect) {
            Ok(DecisionView::AwaitChange)
        } else if !redirect.named() {
            Err(())
        } else {
            Ok(DecisionView::RunCleanup(spec_cleanup_plan(ctx, redirect)))
        }
    } else {
        if !redirect.named() {
            Err(())
        } else if !spec_has_finalizer(redirect) {
            Ok(DecisionView::AddFinalizer)
        } else {
            Ok(DecisionView::RunApply(spec_apply_plan(ctx, redirect)))
        }
    }
}

/// One step of the cooperative finalizer protocol. An object without a
/// deletion tombstone first gets the marker persisted, then its apply
/// plan; an object with the tombstone gets its cleanup plan while the
/// marker is present and nothing once it is gone. Objects lacking a name
/// or namespace cannot be patched and are reported as unnamed.
pub fn reconcile(redirect: &Redirect, ctx: &Context) -> (r: Result<Decision, ReconcileError>)
    ensures
        match r {
            Ok(d) => spec_reconcile(ctx@, redirect@) == Ok::<DecisionView, ()>(d@),
            Err(e) => spec_reconcile(ctx@, redirect@) == Err::<DecisionView, ()>(())
                && e is UnnamedObject,
        },
{
    let named = redirect.metadata.name.is_some() && redirect.metadata.namespace.is_some();
    if redirect.metadata.deletion_timestamp.is_some() {
        if !has_finalizer(redirect) {
            Ok(Decision::AwaitChange)
        } else if !named {
            Err(ReconcileError::UnnamedObject)
        } else {
            Ok(Decision::RunCleanup(cleanup(redirect, ctx)))
        }
    } else {
        if !named {
            Err(ReconcileError::UnnamedObject)
        } else if !has_finalizer(redirect) {
            Ok(Decision::AddFinalizer)
        } else {
            Ok(Decision::RunApply(apply(redirect, ctx)))
        }
    }
}

/// The driver's policy on a failed attempt: classify the error into its
/// metric label, count it, and retry after a fixed short backoff. No
/// error is fatal to the process; retry is always scheduled.
pub fn error_policy(
    redirect: &Redirect,
    error: &ReconcileError,
    metrics: &mut crate::metrics::Metrics,
) -> (a: Action)
    ensures
        a == Action::Requeue(1),
        final(metrics).reconcile.runs == old(metrics).reconcile.runs,
        crate::metrics::spec_failures_bumped(
            old(metrics).reconcile.spec_failures(),
            final(metrics).reconcile.spec_failures(),
            crate::metrics::ErrorLabelsView {
                instance: redirect@.spec_name_any(),
                error: crate::metrics::spec_error_label(*error),
            },
        ),
{
    metrics.reconcile.set_failure(redirect, error);
    Action::Requeue(1)
}

/// The object as it stands after the engine's status patch: only the
/// status block differs.
pub open spec fn spec_with_status(redirect: RedirectView, status: RedirectStatusView)
    -> RedirectView {
    RedirectView { status: Some(status), ..redirect }
}

/// The object after the finalizer marker is persisted.
pub open spec fn spec_add_finalizer(redirect: RedirectView) -> RedirectView {
    if spec_has_finalizer(redirect) {
        redirect
    } else {
        RedirectView {
            metadata: crate::types::RedirectMetaView {
                finalizers: redirect.metadata.finalizers.push(
                    spec_redirect_kube_finalizer_slug(),
                ),
                ..redirect.metadata
            },
            ..redirect
        }
    }
}

/// The object after the finalizer marker is removed.
pub open spec fn spec_remove_finalizer(redirect: RedirectView) -> RedirectView {
    RedirectView {
        metadata: crate::types::RedirectMetaView {
            finalizers: redirect.metadata.finalizers.filter(
                |f: Seq<char>| f != spec_redirect_kube_finalizer_slug(),
            ),
            ..redirect.metadata
        },
        ..redirect
    }
}

/// The cluster's set of generated routing objects, keyed by name within
/// the operator's namespace.
pub open spec fn spec_upsert(
    cluster: Map<Seq<char>, IngressView>,
    ingress: IngressView,
) -> Map<Seq<char>, IngressView> {
    cluster.insert(ingress.name, ingress)
}

pub open spec fn spec_delete(
    cluster: Map<Seq<char>, IngressView>,
    key: Seq<char>,
) -> Map<Seq<char>, IngressView> {
    cluster.remove(key)
}

/// Reconciliation is idempotent: once an apply has written its status
/// back, reconciling the unchanged object again takes the applying branch
/// again and produces the very same plan, so the second attempt's writes
/// are no-ops of the first.
pub proof fn lemma_apply_idempotent(ctx: ContextView, redirect: RedirectView)
    requires
        redirect.named(),
        !redirect.marked_for_deletion(),
        spec_has_finalizer(redirect),
    ensures
        ({
            let observed = spec_with_status(redirect, spec_apply_plan(ctx, redirect).status);
            &&& spec_reconcile(ctx, redirect) == Ok::<DecisionView, ()>(
                DecisionView::RunApply(spec_apply_plan(ctx, redirect)),
            )
            &&& spec_reconcile(ctx, observed) == spec_reconcile(ctx, redirect)
            &&& spec_apply_plan(ctx, observed) == spec_apply_plan(ctx, redirect)
        }),
{
    let observed = spec_with_status(redirect, spec_apply_plan(ctx, redirect).status);
    assert(spec_apply_plan(ctx, observed) =~~= spec_apply_plan(ctx, redirect));
}

/// The marker is durable before any other side effect: a live object
/// without the marker is owed nothing but the marker itself, and once the
/// marker is persisted the next attempt takes the applying branch. A
/// crash between the two steps is therefore recoverable by re-running.
pub proof fn lemma_add_finalizer_then_apply(ctx: ContextView, redirect: RedirectView)
    requires
        redirect.named(),
        !redirect.marked_for_deletion(),
        !spec_has_finalizer(redirect),
    ensures
        spec_reconcile(ctx, redirect) == Ok::<DecisionView, ()>(DecisionView::AddFinalizer),
        spec_has_finalizer(spec_add_finalizer(redirect)),
        spec_reconcile(ctx, spec_add_finalizer(redirect)) == Ok::<DecisionView, ()>(
            DecisionView::RunApply(spec_apply_plan(ctx, spec_add_finalizer(redirect))),
        ),
{
    let marked = spec_add_finalizer(redirect);
    assert(marked.metadata.finalizers.last() == spec_redirect_kube_finalizer_slug());
    assert(spec_has_finalizer(marked));
}

/// After a successful apply of an intent that wants a routing object,
/// exactly one generated object stands under the intent's deterministic
/// key, its rule hosts are exactly the intent's hosts (no more, no
/// fewer), and no other key is touched.
pub proof fn lemma_apply_establishes_routing(
    ctx: ContextView,
    redirect: RedirectView,
    cluster: Map<Seq<char>, IngressView>,
)
    requires
        redirect.named(),
        redirect.spec.ingress.enabled,
    ensures
        ({
            let key = spec_ingress_key_of(redirect);
            let plan = spec_apply_plan(ctx, redirect);
            let after = spec_upsert(cluster, plan.ingress->0);
            &&& plan.ingress is Some
            &&& plan.ingress->0.name == key
            &&& after.contains_key(key)
            &&& spec_rule_hosts(after[key].rules) == redirect.spec.hosts
            &&& forall|k: Seq<char>|
                k != key ==> (after.contains_key(k) <==> cluster.contains_key(k))
            &&& forall|k: Seq<char>|
                k != key && cluster.contains_key(k) ==> after[k] == cluster[k]
            &&& plan.status.ingress.name == key
            &&& plan.status.ingress.namespace == ctx.self_namespace
        }),
{
    let key = spec_ingress_key_of(redirect);
    let plan = spec_apply_plan(ctx, redirect);
    let after = spec_upsert(cluster, plan.ingress->0);
    assert(spec_rule_hosts(after[key].rules) =~= redirect.spec.hosts);
}

/// After a successful cleanup of an intent marked for deletion, no
/// generated routing object stands under the intent's key, no other key
/// is touched, and the finalizer marker is gone.
pub proof fn lemma_cleanup_clears_routing(
    ctx: ContextView,
    redirect: RedirectView,
    cluster: Map<Seq<char>, IngressView>,
)
    requires
        redirect.named(),
        redirect.marked_for_deletion(),
    ensures
        ({
            let key = spec_ingress_key_of(redirect);
            let plan = spec_cleanup_plan(ctx, redirect);
            let after = spec_delete(cluster, plan.ingress_name);
            &&& plan.ingress_name == key
            &&& !after.contains_key(key)
            &&& forall|k: Seq<char>|
                k != key ==> (after.contains_key(k) <==> cluster.contains_key(k))
            &&& forall|k: Seq<char>|
                k != key && cluster.contains_key(k) ==> after[k] == cluster[k]
            &&& !spec_has_finalizer(spec_remove_finalizer(redirect))
        }),
{
    let slug = spec_redirect_kube_finalizer_slug();
    let kept = redirect.metadata.finalizers.filter(|f: Seq<char>| f != slug);
    assert(!kept.contains(slug)) by {
        lemma_filter_excludes(redirect.metadata.finalizers, slug);
    }
}

/// A filtered sequence holds nothing the filter rejects.
proof fn lemma_filter_excludes(s: Seq<Seq<char>>, slug: Seq<char>)
    ensures
        !s.filter(|f: Seq<char>| f != slug).contains(slug),
    decreases s.len(),
{
    reveal(Seq::filter);
    if s.len() > 0 {
        lemma_filter_excludes(s.drop_last(), slug);
    }
}

} // verus!
