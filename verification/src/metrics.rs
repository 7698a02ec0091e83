//! Instrumentation for reconciliation outcomes: a monotonic attempt
//! counter and per-(intent, error-kind) failure counters.
//!
//! The counters here are the observational state; the embedder mirrors
//! them into its metrics registry and measures durations itself.
//! Instrumentation never gates correctness: every operation here is total
//! over its stated inputs and mutates nothing but the counters.

use vstd::prelude::*;

use crate::controller::ReconcileError;
use crate::types::Redirect;

verus! {

/// The label set of a failure counter: which intent failed, and the
/// normalized error kind.
pub struct ErrorLabels {
    pub instance: String,
    pub error: String,
}

#[verifier::ext_equal]
pub struct ErrorLabelsView {
    pub instance: Seq<char>,
    pub error: Seq<char>,
}

impl View for ErrorLabels {
    type V = ErrorLabelsView;

    open spec fn view(&self) -> ErrorLabelsView {
        ErrorLabelsView { instance: self.instance@, error: self.error@ }
    }
}

/// The normalized metric label of a finalizer-protocol error: the
/// engine's own errors report their kind, the protocol's four wrappers
/// their fixed names.
pub open spec fn spec_error_label(error: ReconcileError) -> Seq<char> {
    match error {
        ReconcileError::ApplyFailed(e) => e.spec_metric_label(),
        ReconcileError::CleanupFailed(e) => e.spec_metric_label(),
        ReconcileError::AddFinalizerFailed(_) => "add_finalizer"@,
        ReconcileError::RemoveFinalizerFailed(_) => "remove_finalizer"@,
        ReconcileError::UnnamedObject => "unnamed_object"@,
        ReconcileError::InvalidFinalizer => "invalid_finalizer"@,
    }
}

/// Classifies a finalizer-protocol error into its metric label.
pub fn error_label(error: &ReconcileError) -> (r: String)
    ensures
        r@ == spec_error_label(*error),
{
    match error {
        ReconcileError::ApplyFailed(e) => e.metric_label(),
        ReconcileError::CleanupFailed(e) => e.metric_label(),
        ReconcileError::AddFinalizerFailed(_) => String::from_str("add_finalizer"),
        ReconcileError::RemoveFinalizerFailed(_) => String::from_str("remove_finalizer"),
        ReconcileError::UnnamedObject => String::from_str("unnamed_object"),
        ReconcileError::InvalidFinalizer => String::from_str("invalid_finalizer"),
    }
}

/// A counter bumped by one, saturating at its ceiling.
pub open spec fn spec_bump(count: u64) -> u64 {
    if count < u64::MAX {
        (count + 1) as u64
    } else {
        count
    }
}

/// How one `set_failure` call relates the failure counters before and
/// after: the first entry carrying the label is bumped, or a fresh entry
/// at one is appended when no entry carries it; nothing else moves.
pub open spec fn spec_failures_bumped(
    before: Seq<(ErrorLabelsView, u64)>,
    after: Seq<(ErrorLabelsView, u64)>,
    label: ErrorLabelsView,
) -> bool {
    if exists|j: int| 0 <= j < before.len() && before[j].0 == label {
        exists|j: int|
            0 <= j < before.len() && before[j].0 == label && (forall|k: int|
                0 <= k < j ==> before[k].0 != label) && after == before.update(
                j,
                (before[j].0, spec_bump(before[j].1)),
            )
    } else {
        after.len() == before.len() + 1 && after.take(before.len() as int) == before
            && after.last().0 == label && after.last().1 == 1
    }
}

/// Counters for the reconciliation engine: how often it ran, and how
/// often it failed, by intent and error kind. The duration histogram the
/// embedder keeps next to these is measured around each attempt.
pub struct ReconcileMetrics {
    pub runs: u64,
    pub failures: Vec<(ErrorLabels, u64)>,
}

impl ReconcileMetrics {
    /// The failure counters as labeled values.
    pub open spec fn spec_failures(&self) -> Seq<(ErrorLabelsView, u64)> {
        self.failures@.map_values(|e: (ErrorLabels, u64)| (e.0@, e.1))
    }

    /// Counts one reconciliation attempt; the embedder measures its
    /// duration from here to completion.
    pub fn count_and_measure(&mut self)
        ensures
            final(self).runs == spec_bump(old(self).runs),
            final(self).spec_failures() == old(self).spec_failures(),
    {
        if self.runs < u64::MAX {
            self.runs = self.runs + 1;
        }
    }

    /// Counts one failed reconciliation under the intent's name and the
    /// error's normalized kind.
    pub fn set_failure(&mut self, redirect: &Redirect, error: &ReconcileError)
        ensures
            final(self).runs == old(self).runs,
            spec_failures_bumped(
                old(self).spec_failures(),
                final(self).spec_failures(),
                ErrorLabelsView {
                    instance: redirect@.spec_name_any(),
                    error: spec_error_label(*error),
                },
            ),
    {
        let label = ErrorLabels { instance: redirect.name_any(), error: error_label(error) };
        let ghost target = label@;
        let n = self.failures.len();
        for i in 0..n
            invariant
                n == self.failures.len(),
                self.failures == old(self).failures,
                self.runs == old(self).runs,
                target == (ErrorLabelsView {
                    instance: redirect@.spec_name_any(),
                    error: spec_error_label(*error),
                }),
                label@ == target,
                forall|k: int| 0 <= k < i ==> self.spec_failures()[k].0 != target,
        {
            if self.failures[i].0.instance.eq(&label.instance) && self.failures[i].0.error.eq(
                &label.error,
            ) {
                proof {
                    assert(self.spec_failures()[i as int].0 =~= target);
                }
                let count = self.failures[i].1;
                let bumped = if count < u64::MAX {
                    count + 1
                } else {
                    count
                };
                let entry = (
                    ErrorLabels {
                        instance: self.failures[i].0.instance.clone(),
                        error: self.failures[i].0.error.clone(),
                    },
                    bumped,
                );
                proof {
                    assert(entry.0@ =~= self.spec_failures()[i as int].0);
                    assert(entry.1 == spec_bump(self.spec_failures()[i as int].1));
                }
                self.failures.set(i, entry);
                proof {
                    assert(self.spec_failures() =~= old(self).spec_failures().update(
                        i as int,
                        (old(self).spec_failures()[i as int].0, spec_bump(
                            old(self).spec_failures()[i as int].1,
                        )),
                    ));
                }
                return ;
            }
            proof {
                assert(self.spec_failures()[i as int].0 != target);
            }
        }
        self.failures.push((label, 1));
        proof {
            assert(self.spec_failures().take(old(self).spec_failures().len() as int)
                =~= old(self).spec_failures());
        }
    }
}

impl Default for ReconcileMetrics {
    /// Fresh counters: nothing has run, nothing has failed.
    fn default() -> (r: Self)
        ensures
            r.runs == 0,
            r.spec_failures() == Seq::<(ErrorLabelsView, u64)>::empty(),
    {
        let r = ReconcileMetrics { runs: 0, failures: Vec::new() };
        proof {
            assert(r.spec_failures() =~= Seq::<(ErrorLabelsView, u64)>::empty());
        }
        r
    }
}

/// The operator's instrumentation: reconciliation counters. The embedder
/// holds the registry these are exposed through.
pub struct Metrics {
    pub reconcile: ReconcileMetrics,
}

impl Default for Metrics {
    fn default() -> (r: Self)
        ensures
            r.reconcile.runs == 0,
            r.reconcile.spec_failures() == Seq::<(ErrorLabelsView, u64)>::empty(),
    {
        Metrics { reconcile: ReconcileMetrics::default() }
    }
}

} // verus!
