use redirect_operator::controller::{
    apply, cleanup, error_policy, has_finalizer, reconcile, redirect_kube_finalizer_slug,
    redirect_kube_slug, Action, Decision, ReconcileError,
};
use redirect_operator::ingress::{ingress_backend, ingress_for_redirect, ingress_name_for_redirect};
use redirect_operator::lease::{acquire_if_free, renew_if_held, LeaseHandle, LeaseRecord};
use redirect_operator::metrics::{error_label, Metrics, ReconcileMetrics};
use redirect_operator::serve::{normalize_host, redirect, RedirectOutcome, Store};
use redirect_operator::types::{
    default_true, Context, Error, Redirect, RedirectIngress, RedirectIngressTLS, RedirectMeta,
    RedirectSpec, RedirectStatus, RedirectTo,
};

fn ctx() -> Context {
    Context {
        self_namespace: String::from("redirect-operator"),
        self_service_name: String::from("redirect-operator"),
    }
}

fn intent(ns: &str, name: &str, hosts: &[&str]) -> Redirect {
    Redirect {
        metadata: RedirectMeta {
            name: Some(String::from(name)),
            namespace: Some(String::from(ns)),
            deletion_timestamp: None,
            finalizers: vec![],
        },
        spec: RedirectSpec {
            hosts: hosts.iter().map(|h| String::from(*h)).collect(),
            to: RedirectTo { uri: String::from("https://dest/"), include_request_uri: true },
            ingress: RedirectIngress {
                enabled: true,
                tls: RedirectIngressTLS { enabled: false, secret_name: None },
                ingress_class_name: None,
                annotations: None,
                labels: None,
            },
        },
        status: None,
    }
}

fn with_marker(mut r: Redirect) -> Redirect {
    r.metadata.finalizers.push(String::from("redirect.kube.ibotty.net/cleanup"));
    r
}

#[test]
fn slugs_are_fixed() {
    assert_eq!(redirect_kube_slug(), "redirect.kube.ibotty.net");
    assert_eq!(redirect_kube_finalizer_slug(), "redirect.kube.ibotty.net/cleanup");
}

#[test]
fn default_true_is_true() {
    assert!(default_true());
}

#[test]
fn ingress_name_is_namespace_dot_name() {
    let r = intent("prod", "landing", &["a.example"]);
    assert_eq!(ingress_name_for_redirect(&r), "prod.landing");
}

#[test]
fn ingress_backend_points_at_service_on_8080() {
    let b = ingress_backend("redirect-operator");
    assert_eq!(b.service_name, "redirect-operator");
    assert_eq!(b.port, 8080);
}

#[test]
fn derived_ingress_rules_match_hosts_exactly() {
    let r = intent("prod", "landing", &["a.example", "b.example"]);
    let ing = ingress_for_redirect(&ctx(), &r);
    assert_eq!(ing.name, "prod.landing");
    assert_eq!(ing.namespace, "redirect-operator");
    assert_eq!(ing.rules.len(), 2);
    let hosts: Vec<&str> = ing.rules.iter().map(|rule| rule.host.as_str()).collect();
    assert_eq!(hosts, vec!["a.example", "b.example"]);
    for rule in &ing.rules {
        assert_eq!(rule.paths.len(), 1);
        assert_eq!(rule.paths[0].path, "/");
        assert_eq!(rule.paths[0].path_type, "Prefix");
        assert_eq!(rule.paths[0].backend.service_name, "redirect-operator");
        assert_eq!(rule.paths[0].backend.port, 8080);
    }
    assert!(ing.tls.is_none());
}

#[test]
fn derived_ingress_swaps_annotations_and_labels() {
    let mut r = intent("prod", "landing", &["a.example"]);
    r.spec.ingress.annotations =
        Some(vec![(String::from("user-ann"), String::from("v1"))]);
    r.spec.ingress.labels = Some(vec![(String::from("user-label"), String::from("v2"))]);
    let ing = ingress_for_redirect(&ctx(), &r);
    let ann = ing.annotations.expect("annotations");
    let lab = ing.labels.expect("labels");
    assert_eq!(ann, vec![(String::from("user-label"), String::from("v2"))]);
    assert_eq!(lab, vec![(String::from("user-ann"), String::from("v1"))]);
}

#[test]
fn derived_ingress_passes_ingress_class_through() {
    let mut r = intent("prod", "landing", &["a.example"]);
    r.spec.ingress.ingress_class_name = Some(String::from("nginx"));
    let ing = ingress_for_redirect(&ctx(), &r);
    assert_eq!(ing.ingress_class_name.as_deref(), Some("nginx"));
}

#[test]
fn tls_toggle_round_trip() {
    let mut r = intent("prod", "landing", &["a.example"]);
    let before = ingress_for_redirect(&ctx(), &r);
    assert!(before.tls.is_none());

    r.spec.ingress.tls.enabled = true;
    let middle = ingress_for_redirect(&ctx(), &r);
    let tls = middle.tls.expect("tls block present while enabled");
    assert_eq!(tls.hosts, vec![String::from("a.example")]);
    assert_eq!(tls.secret_name, "landing-tls-certs");

    r.spec.ingress.tls.enabled = false;
    let after = ingress_for_redirect(&ctx(), &r);
    assert!(after.tls.is_none());
    assert_eq!(after.name, before.name);
    assert_eq!(after.rules.len(), before.rules.len());
}

#[test]
fn tls_secret_name_is_declared_one_when_present() {
    let mut r = intent("prod", "landing", &["a.example"]);
    r.spec.ingress.tls.enabled = true;
    r.spec.ingress.tls.secret_name = Some(String::from("my-secret"));
    let ing = ingress_for_redirect(&ctx(), &r);
    assert_eq!(ing.tls.expect("tls").secret_name, "my-secret");
}

#[test]
fn apply_enabled_upserts_and_reports_status() {
    let r = with_marker(intent("prod", "landing", &["a.example"]));
    let plan = apply(&r, &ctx());
    let ing = plan.ingress.expect("ingress upsert owed");
    assert_eq!(ing.name, "prod.landing");
    assert!(plan.stale_ingress_name.is_none());
    assert_eq!(plan.status.ingress.name, "prod.landing");
    assert_eq!(plan.status.ingress.namespace, "redirect-operator");
    assert_eq!(plan.action, Action::Requeue(300));
}

#[test]
fn apply_disabled_deletes_stale_object_and_reports_empty_status() {
    let mut r = with_marker(intent("prod", "landing", &["a.example"]));
    r.spec.ingress.enabled = false;
    let plan = apply(&r, &ctx());
    assert!(plan.ingress.is_none());
    assert_eq!(plan.stale_ingress_name.as_deref(), Some("prod.landing"));
    assert_eq!(plan.status.ingress.name, "");
    assert_eq!(plan.status.ingress.namespace, "");
    assert_eq!(plan.action, Action::Requeue(300));
}

#[test]
fn apply_twice_with_no_change_is_idempotent() {
    let mut r = with_marker(intent("prod", "landing", &["a.example", "b.example"]));
    let first = apply(&r, &ctx());
    r.status = Some(RedirectStatus { ingress: first.status.ingress.clone() });
    let second = apply(&r, &ctx());

    let a = first.ingress.expect("first upsert");
    let b = second.ingress.expect("second upsert");
    assert_eq!(a.name, b.name);
    assert_eq!(a.namespace, b.namespace);
    assert_eq!(a.rules.len(), b.rules.len());
    for (ra, rb) in a.rules.iter().zip(b.rules.iter()) {
        assert_eq!(ra.host, rb.host);
    }
    assert!(a.tls.is_none() && b.tls.is_none());
    assert_eq!(first.status.ingress.name, second.status.ingress.name);
    assert_eq!(first.status.ingress.namespace, second.status.ingress.namespace);
    assert_eq!(first.action, second.action);
}

#[test]
fn cleanup_names_the_deterministic_key() {
    let mut r = with_marker(intent("prod", "landing", &["a.example"]));
    r.metadata.deletion_timestamp = Some(String::from("2026-01-01T00:00:00Z"));
    let plan = cleanup(&r, &ctx());
    assert_eq!(plan.ingress_name, "prod.landing");
    assert_eq!(plan.ingress_namespace, "redirect-operator");
    assert_eq!(plan.action, Action::Requeue(300));
}

#[test]
fn reconcile_adds_finalizer_before_any_other_side_effect() {
    let r = intent("prod", "landing", &["a.example"]);
    assert!(!has_finalizer(&r));
    match reconcile(&r, &ctx()) {
        Ok(Decision::AddFinalizer) => {},
        _ => panic!("an unmarked live object must first get the finalizer"),
    }
}

#[test]
fn reconcile_applies_once_marked() {
    let r = with_marker(intent("prod", "landing", &["a.example"]));
    assert!(has_finalizer(&r));
    match reconcile(&r, &ctx()) {
        Ok(Decision::RunApply(plan)) => {
            assert!(plan.ingress.is_some());
        },
        _ => panic!("a marked live object must be applied"),
    }
}

#[test]
fn reconcile_cleans_up_marked_deleted_object() {
    let mut r = with_marker(intent("prod", "landing", &["a.example"]));
    r.metadata.deletion_timestamp = Some(String::from("2026-01-01T00:00:00Z"));
    match reconcile(&r, &ctx()) {
        Ok(Decision::RunCleanup(plan)) => {
            assert_eq!(plan.ingress_name, "prod.landing");
        },
        _ => panic!("a marked deleted object must be cleaned up"),
    }
}

#[test]
fn reconcile_waits_on_unmarked_deleted_object() {
    let mut r = intent("prod", "landing", &["a.example"]);
    r.metadata.deletion_timestamp = Some(String::from("2026-01-01T00:00:00Z"));
    match reconcile(&r, &ctx()) {
        Ok(Decision::AwaitChange) => {},
        _ => panic!("nothing is owed once the marker is gone"),
    }
}

#[test]
fn reconcile_reports_unnamed_objects() {
    let mut r = intent("prod", "landing", &["a.example"]);
    r.metadata.name = None;
    match reconcile(&r, &ctx()) {
        Err(ReconcileError::UnnamedObject) => {},
        _ => panic!("an unnamed object cannot be patched"),
    }
}

#[test]
fn serving_matches_host_and_concatenates_path() {
    let store = Store { items: vec![intent("prod", "landing", &["a.example"])] };
    match redirect(&store, "a.example", "/p") {
        RedirectOutcome::PermanentRedirect(uri) => assert_eq!(uri, "https://dest//p"),
        RedirectOutcome::NotFound => panic!("a.example is declared"),
    }
    match redirect(&store, "b.example", "/p") {
        RedirectOutcome::NotFound => {},
        RedirectOutcome::PermanentRedirect(_) => panic!("b.example is not declared"),
    }
}

#[test]
fn serving_without_request_uri_uses_target_alone() {
    let mut r = intent("prod", "landing", &["a.example"]);
    r.spec.to.include_request_uri = false;
    let store = Store { items: vec![r] };
    match redirect(&store, "a.example", "/deep/path") {
        RedirectOutcome::PermanentRedirect(uri) => assert_eq!(uri, "https://dest/"),
        RedirectOutcome::NotFound => panic!("a.example is declared"),
    }
}

#[test]
fn serving_empty_path_still_inserts_separator() {
    let store = Store { items: vec![intent("prod", "landing", &["a.example"])] };
    match redirect(&store, "a.example", "/") {
        RedirectOutcome::PermanentRedirect(uri) => assert_eq!(uri, "https://dest//"),
        RedirectOutcome::NotFound => panic!("a.example is declared"),
    }
}

#[test]
fn serving_first_match_wins() {
    let first = intent("prod", "one", &["shared.example"]);
    let mut second = intent("prod", "two", &["shared.example"]);
    second.spec.to.uri = String::from("https://other/");
    let store = Store { items: vec![first, second] };
    match redirect(&store, "shared.example", "/x") {
        RedirectOutcome::PermanentRedirect(uri) => assert_eq!(uri, "https://dest//x"),
        RedirectOutcome::NotFound => panic!("shared.example is declared"),
    }
}

#[test]
fn trailing_dot_host_matches() {
    let store = Store { items: vec![intent("prod", "landing", &["a.example"])] };
    match redirect(&store, "a.example.", "/p") {
        RedirectOutcome::PermanentRedirect(uri) => assert_eq!(uri, "https://dest//p"),
        RedirectOutcome::NotFound => panic!("a.example. normalizes to a.example"),
    }
}

#[test]
fn normalize_host_strips_all_trailing_dots() {
    assert_eq!(normalize_host("a.example..."), "a.example");
    assert_eq!(normalize_host("a.example"), "a.example");
    assert_eq!(normalize_host("."), "");
    assert_eq!(normalize_host(""), "");
}

#[test]
fn metric_labels_name_the_error_kind() {
    let e = Error::IngressCreationFailed(String::from("boom"));
    assert_eq!(e.metric_label(), "ingresscreationfailed");
    let e = Error::IngressDeletionFailed(String::from("boom"));
    assert_eq!(e.metric_label(), "ingressdeletionfailed");
    let e = Error::StatusUpdateFailed(String::from("boom"));
    assert_eq!(e.metric_label(), "statusupdatefailed");
}

#[test]
fn finalizer_protocol_errors_have_fixed_labels() {
    assert_eq!(
        error_label(&ReconcileError::AddFinalizerFailed(String::from("x"))),
        "add_finalizer"
    );
    assert_eq!(
        error_label(&ReconcileError::RemoveFinalizerFailed(String::from("x"))),
        "remove_finalizer"
    );
    assert_eq!(error_label(&ReconcileError::UnnamedObject), "unnamed_object");
    assert_eq!(error_label(&ReconcileError::InvalidFinalizer), "invalid_finalizer");
    assert_eq!(
        error_label(&ReconcileError::ApplyFailed(Error::StatusUpdateFailed(String::from("x")))),
        "statusupdatefailed"
    );
    assert_eq!(
        error_label(&ReconcileError::CleanupFailed(Error::IngressDeletionFailed(String::from(
            "x"
        )))),
        "ingressdeletionfailed"
    );
}

#[test]
fn count_and_measure_counts_runs() {
    let mut m = ReconcileMetrics::default();
    assert_eq!(m.runs, 0);
    m.count_and_measure();
    m.count_and_measure();
    assert_eq!(m.runs, 2);
    assert!(m.failures.is_empty());
}

#[test]
fn set_failure_counts_by_intent_and_kind() {
    let mut m = ReconcileMetrics::default();
    let r = intent("prod", "landing", &["a.example"]);
    let e = ReconcileError::ApplyFailed(Error::IngressCreationFailed(String::from("x")));
    m.set_failure(&r, &e);
    m.set_failure(&r, &e);
    assert_eq!(m.failures.len(), 1);
    assert_eq!(m.failures[0].0.instance, "landing");
    assert_eq!(m.failures[0].0.error, "ingresscreationfailed");
    assert_eq!(m.failures[0].1, 2);

    m.set_failure(&r, &ReconcileError::UnnamedObject);
    assert_eq!(m.failures.len(), 2);
    assert_eq!(m.failures[1].0.error, "unnamed_object");
    assert_eq!(m.failures[1].1, 1);
}

#[test]
fn error_policy_requeues_after_one_second_and_counts() {
    let mut m = Metrics::default();
    let r = intent("prod", "landing", &["a.example"]);
    let e = ReconcileError::CleanupFailed(Error::IngressDeletionFailed(String::from("x")));
    let a = error_policy(&r, &e, &mut m);
    assert_eq!(a, Action::Requeue(1));
    assert_eq!(m.reconcile.failures.len(), 1);
    assert_eq!(m.reconcile.runs, 0);
}

#[test]
fn name_any_is_empty_for_unnamed_objects() {
    let mut r = intent("prod", "landing", &["a.example"]);
    r.metadata.name = None;
    assert_eq!(r.name_any(), "");
}

struct Replica {
    handle: LeaseHandle,
}

impl Replica {
    fn step(&mut self, record: &LeaseRecord, now: u64, duration: u64) -> LeaseRecord {
        if self.handle.is_leader() {
            let (next, renewed) = renew_if_held(record, &self.handle.identity, now);
            if renewed {
                self.handle.on_renew_success();
            } else {
                // The backend answered and named another holder: that is an
                // authoritative loss, not a missed renewal, so demote at once.
                self.handle.on_acquire(false);
            }
            next
        } else {
            let (next, acquired) = acquire_if_free(record, &self.handle.identity, now, duration);
            self.handle.on_acquire(acquired);
            next
        }
    }
}

#[test]
fn two_replicas_never_lead_at_once_and_standby_takes_over() {
    let duration: u64 = 10;
    let mut record =
        LeaseRecord { holder: None, renewed_at: 0, lease_duration: duration };
    let mut a = Replica { handle: LeaseHandle::new(String::from("replica-a"), 3) };
    let mut b = Replica { handle: LeaseHandle::new(String::from("replica-b"), 3) };

    // Both replicas poll on a fixed cadence shorter than the lease
    // duration; only one of them can ever believe itself leader.
    let mut now: u64 = 0;
    for _ in 0..5 {
        record = a.step(&record, now, duration);
        record = b.step(&record, now, duration);
        assert!(!(a.handle.is_leader() && b.handle.is_leader()));
        now += 4;
    }
    assert!(a.handle.is_leader());
    assert!(!b.handle.is_leader());

    // The active replica's renewal is blocked for longer than the lease
    // duration; the standby acquires on its next cycle.
    now += duration + 1;
    record = b.step(&record, now, duration);
    assert!(b.handle.is_leader());
    // The stalled replica's next renewal is rejected by the backend, so
    // it demotes itself.
    record = a.step(&record, now, duration);
    assert!(!a.handle.is_leader());
    assert!(!(a.handle.is_leader() && b.handle.is_leader()));
    let _ = record;
}

#[test]
fn renewal_failures_demote_after_bound() {
    let mut h = LeaseHandle::new(String::from("replica-a"), 2);
    h.on_acquire(true);
    assert!(h.is_leader());
    h.on_renew_failure();
    assert!(h.is_leader());
    h.on_renew_failure();
    assert!(!h.is_leader());
}

#[test]
fn lease_is_exclusive_until_expiry() {
    let duration: u64 = 10;
    let free = LeaseRecord { holder: None, renewed_at: 0, lease_duration: duration };
    let (held, ok) = acquire_if_free(&free, &String::from("replica-a"), 0, duration);
    assert!(ok);
    assert_eq!(held.holder.as_deref(), Some("replica-a"));

    // A rival cannot take an unexpired lease, and cannot renew it either.
    let (same, taken) = acquire_if_free(&held, &String::from("replica-b"), 5, duration);
    assert!(!taken);
    assert_eq!(same.holder.as_deref(), Some("replica-a"));
    let (same, renewed) = renew_if_held(&held, &String::from("replica-b"), 5);
    assert!(!renewed);
    assert_eq!(same.holder.as_deref(), Some("replica-a"));

    // Once expired it is free for the taking.
    let (taken_over, ok) = acquire_if_free(&held, &String::from("replica-b"), 10, duration);
    assert!(ok);
    assert_eq!(taken_over.holder.as_deref(), Some("replica-b"));
}

#[test]
fn has_finalizer_sees_only_this_operators_marker() {
    let mut r = intent("prod", "landing", &["a.example"]);
    r.metadata.finalizers.push(String::from("other.example.com/cleanup"));
    assert!(!has_finalizer(&r));
    let r = with_marker(r);
    assert!(has_finalizer(&r));
}
