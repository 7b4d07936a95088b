//! What holds of every reconciliation, whatever the resource and whatever the cluster
//! answers.

use crate::controller::{
    after_cleanup, cleanup_spec, confirms_absence, finalizer_index_of, forced_apply,
    observed_status, reconcile_spec, resume_spec, FIELD_MANAGER_NAME, FINALIZER_NAME,
};
use crate::crd::{FooStatus, FooView, API_VERSION, KIND};
use crate::deployment::DeploymentView;
use crate::error::KubeErrorView;
use crate::meta::{distinct_keys, ObjectMetaView};
use crate::protocol::{FinalizerPatchView, Phase, ProgressView, RequestView, ResponseView};
use crate::translate::{desired_deployment, desired_labels};
use vstd::prelude::*;

verus! {

/// How far a reconciliation of `foo` has come once the first `n` of `answers` are in:
/// it begins as [`reconcile_spec`] says, each call that it asks for is answered by the
/// next of `answers`, and once it is over it stays over.
pub open spec fn progress_after(foo: FooView, answers: Seq<ResponseView>, n: nat) -> ProgressView
    decreases n,
{
    if n == 0 {
        reconcile_spec(foo)
    } else {
        match progress_after(foo, answers, (n - 1) as nat) {
            ProgressView::Call { phase, request } => resume_spec(foo, phase, answers[n - 1]),
            over => over,
        }
    }
}

/// Whether `progress` asks for the controller's finalizer to be removed.
pub open spec fn removes_finalizer(progress: ProgressView) -> bool {
    progress matches ProgressView::Call {
        request: RequestView::PatchFinalizers { patch: FinalizerPatchView::Remove { .. }, .. },
        ..
    }
}

/// Whether `progress` asks for the workload of `foo` to be deleted.
pub open spec fn deletes_workload(foo: FooView, progress: ProgressView) -> bool {
    progress matches ProgressView::Call { phase: Phase::CleaningUp, request }
        && request == (RequestView::DeleteDeployment {
        namespace: foo.metadata.namespace->0,
        name: foo.spec.deployment_name,
    })
}

/// Whether `later` is `earlier` after the controller's own writes: nothing but the status
/// and the resource version may differ.
pub open spec fn differs_by_own_writes(earlier: FooView, later: FooView) -> bool {
    later == (FooView {
        status: later.status,
        metadata: ObjectMetaView {
            resource_version: later.metadata.resource_version,
            ..earlier.metadata
        },
        ..earlier
    })
}

/// A call in the cleanup phase is the deletion of the workload, and nothing else.
proof fn cleanup_phase_deletes(foo: FooView, answers: Seq<ResponseView>, n: nat)
    ensures
        progress_after(foo, answers, n) matches ProgressView::Call { phase: Phase::CleaningUp, .. }
            ==> deletes_workload(foo, progress_after(foo, answers, n)),
    decreases n,
{
    if n > 0 {
        cleanup_phase_deletes(foo, answers, (n - 1) as nat);
    }
}

/// The workload is a function of the resource: derived twice from the same resource, it
/// comes out the same.
pub proof fn translation_is_deterministic(foo: FooView, again: FooView)
    requires
        foo == again,
    ensures
        desired_deployment(foo) == desired_deployment(again),
{
}

/// The workload of a resource depends on nothing but the names, the namespace, the UID and
/// the spec of the resource. Neither the status nor the resource version, which change
/// with every reconciliation, nor the finalizers enter into it.
pub proof fn translation_reads_identity_and_spec(foo: FooView, other: FooView)
    requires
        foo.spec == other.spec,
        foo.metadata.name == other.metadata.name,
        foo.metadata.generate_name == other.metadata.generate_name,
        foo.metadata.namespace == other.metadata.namespace,
        foo.metadata.uid == other.metadata.uid,
    ensures
        desired_deployment(foo) == desired_deployment(other),
{
}

/// The selector of a workload selects the pods of its own template, by two labels with
/// different keys, and the workload asks for as many replicas as the resource declares.
pub proof fn workload_selects_its_own_pods(foo: FooView)
    ensures
        desired_deployment(foo).spec->0.selector.match_labels
            == desired_deployment(foo).spec->0.template.metadata->0.labels,
        desired_deployment(foo).spec->0.selector.match_labels == Some(desired_labels(foo)),
        distinct_keys(desired_labels(foo)),
        desired_deployment(foo).replicas() == Some(foo.spec.replicas),
{
    reveal_strlit("app");
    reveal_strlit("controller");
    assert("app"@.len() != "controller"@.len());
}

/// The status follows the declaration. Once the cluster acknowledges the workload in the
/// shape that was asked for, the status reports the replica count that the resource
/// declares; a count that is valid in the declaration is valid in the workload.
pub proof fn status_follows_declaration(foo: FooView)
    ensures
        observed_status(desired_deployment(foo)) == Some(
            FooStatus { available_replicas: foo.spec.replicas },
        ),
        foo.spec.is_valid() ==> desired_deployment(foo).replicas()->0 >= 0,
{
}

/// Reconciling is idempotent. A reconciliation writes nothing to its resource but the
/// status, and with it the resource version. Run again on the resource so changed, and
/// given the same answers, the reconciler asks for exactly the same calls: the same
/// workload is applied, which changes nothing, and the same status is written. When the
/// cluster acknowledges the workload in the shape from which the present status was
/// taken, the status that is written is the status that is there.
pub proof fn reconcile_is_idempotent(
    first: FooView,
    second: FooView,
    answers: Seq<ResponseView>,
    n: nat,
)
    requires
        differs_by_own_writes(first, second),
    ensures
        desired_deployment(second) == desired_deployment(first),
        progress_after(second, answers, n) == progress_after(first, answers, n),
        forall|applied: DeploymentView|
            second.status == observed_status(applied) ==> (#[trigger] resume_spec(
                second,
                Phase::Applying,
                ResponseView::Applied(applied),
            ) matches ProgressView::Call { request: RequestView::ApplyStatus { status, .. }, .. }
                ==> second.status == Some(status)),
    decreases n,
{
    if n > 0 {
        reconcile_is_idempotent(first, second, answers, (n - 1) as nat);
    }
}

/// The finalizer is safe. In every reconciliation, whatever the cluster answers:
/// the removal of the finalizer is asked for only as the next thing after the deletion of
/// the workload was answered, and only if that answer says that the workload is gone,
/// deleted now or absent already. The removal takes out the controller's own finalizer, at
/// the place where the resource holds it.
pub proof fn finalizer_outlives_workload(foo: FooView, answers: Seq<ResponseView>, n: nat)
    ensures
        removes_finalizer(progress_after(foo, answers, n)) ==> {
            &&& n > 0
            &&& deletes_workload(foo, progress_after(foo, answers, (n - 1) as nat))
            &&& confirms_absence(answers[n - 1])
            &&& foo.metadata.is_deleting()
            &&& progress_after(foo, answers, n) matches ProgressView::Call {
                request: RequestView::PatchFinalizers { patch, .. },
                ..
            }
            &&& patch.admits(foo.metadata.finalizer_list())
            &&& patch->Remove_token == FINALIZER_NAME@
        },
    decreases n,
{
    foo.metadata.finalizer_list().index_of_first_ensures(FINALIZER_NAME@);
    if n > 0 {
        let m = (n - 1) as nat;
        cleanup_phase_deletes(foo, answers, m);
        cleanup_began_under_deletion(foo, answers, m);
    }
}

/// The workload is deleted only for a resource that is marked for deletion.
proof fn cleanup_began_under_deletion(foo: FooView, answers: Seq<ResponseView>, n: nat)
    ensures
        progress_after(foo, answers, n) matches ProgressView::Call { phase: Phase::CleaningUp, .. }
            ==> foo.metadata.is_deleting(),
    decreases n,
{
    if n > 0 {
        cleanup_began_under_deletion(foo, answers, (n - 1) as nat);
    }
}

/// Nothing is applied for a resource that could vanish without cleanup. Whenever a
/// reconciliation of `foo` asks for a workload to be applied, `foo` holds the finalizer and
/// is not marked for deletion.
pub proof fn nothing_is_applied_without_finalizer(
    foo: FooView,
    answers: Seq<ResponseView>,
    n: nat,
)
    ensures
        progress_after(foo, answers, n) matches ProgressView::Call {
            request: RequestView::ApplyDeployment { .. },
            ..
        } ==> finalizer_index_of(foo, FINALIZER_NAME@) is Some && !foo.metadata.is_deleting(),
    decreases n,
{
    if n > 0 {
        nothing_is_applied_without_finalizer(foo, answers, (n - 1) as nat);
    }
}

/// A resource that is not marked for deletion and does not hold the finalizer is given
/// it, and nothing else is asked of the cluster for it. The patch fits the finalizers
/// that the resource has, and leaves them as they were with the finalizer added at the end.
pub proof fn finalizer_is_added_first(foo: FooView)
    requires
        !foo.metadata.is_deleting(),
        finalizer_index_of(foo, FINALIZER_NAME@) is None,
        foo.metadata.namespace is Some,
        foo.metadata.name is Some,
    ensures
        reconcile_spec(foo) matches ProgressView::Call {
            phase: Phase::AddingFinalizer,
            request: RequestView::PatchFinalizers { patch, .. },
        } && patch.admits(foo.metadata.finalizer_list()) && patch.result(
            foo.metadata.finalizer_list(),
        ) == foo.metadata.finalizer_list().push(FINALIZER_NAME@),
        forall|answer: ResponseView|
            !(#[trigger] resume_spec(foo, Phase::AddingFinalizer, answer) is Call),
{
    let list = foo.metadata.finalizer_list();
    if list.len() == 0 {
        assert(list.push(FINALIZER_NAME@) =~= seq![FINALIZER_NAME@]);
    }
}

/// Cleanup can always be run again. A resource that is marked for deletion and still
/// holds the finalizer is cleaned up from the start, however often that was tried before;
/// and a deletion that finds no workload goes on exactly as one that deleted it.
pub proof fn cleanup_can_be_rerun(foo: FooView, gone: KubeErrorView)
    requires
        gone.is_not_found(),
    ensures
        foo.metadata.is_deleting() && foo.metadata.namespace is Some && foo.metadata.name is Some
            && finalizer_index_of(foo, FINALIZER_NAME@) is Some ==> reconcile_spec(foo)
            == cleanup_spec(foo) && deletes_workload(foo, reconcile_spec(foo)),
        resume_spec(foo, Phase::CleaningUp, ResponseView::Failed(gone)) == after_cleanup(foo),
        resume_spec(foo, Phase::CleaningUp, ResponseView::Succeeded) == after_cleanup(foo),
{
}

/// Every workload has exactly one owner, its controller. Whenever a reconciliation of
/// `foo` asks for a workload to be applied, that workload carries one owner reference and
/// no more; the reference marks its target as the controller, and its target is `foo`, by
/// type, name and UID.
pub proof fn workload_has_one_controlling_owner(foo: FooView, answers: Seq<ResponseView>, n: nat)
    ensures
        progress_after(foo, answers, n) matches ProgressView::Call {
            request: RequestView::ApplyDeployment { deployment, name, namespace, .. },
            ..
        } ==> {
            &&& deployment == desired_deployment(foo)
            &&& name == foo.spec.deployment_name
            &&& deployment.metadata.name == Some(foo.spec.deployment_name)
            &&& Some(namespace) == foo.metadata.namespace
            &&& deployment.metadata.namespace == foo.metadata.namespace
            &&& deployment.owners().len() == 1
            &&& deployment.owners()[0].is_controller()
            &&& deployment.owners()[0].api_version == API_VERSION@
            &&& deployment.owners()[0].kind == KIND@
            &&& Some(deployment.owners()[0].name) == foo.metadata.name
            &&& Some(deployment.owners()[0].uid) == foo.metadata.uid
        },
    decreases n,
{
    if n > 0 {
        workload_has_one_controlling_owner(foo, answers, (n - 1) as nat);
    }
}

/// The controller's fields always win. Whatever the cluster holds, and whoever changed it,
/// every workload and every status is applied in the controller's own name and forced, so
/// that the cluster ends up with what the resource declares.
pub proof fn applies_are_forced(foo: FooView, answers: Seq<ResponseView>, n: nat)
    ensures
        forced_apply().force,
        forced_apply().field_manager == Some(FIELD_MANAGER_NAME@),
        !forced_apply().dry_run,
        progress_after(foo, answers, n) matches ProgressView::Call {
            request: RequestView::ApplyDeployment { params, .. },
            ..
        } ==> params == forced_apply(),
        progress_after(foo, answers, n) matches ProgressView::Call {
            request: RequestView::ApplyStatus { params, name, namespace, .. },
            ..
        } ==> params == forced_apply() && Some(name) == foo.metadata.name && Some(namespace)
            == foo.metadata.namespace,
    decreases n,
{
    if n > 0 {
        applies_are_forced(foo, answers, (n - 1) as nat);
    }
}

/// The status is derived, never merged. Whenever a reconciliation of `foo` asks for a
/// status to be written, the call before it applied the workload and was answered with
/// the shape that the cluster acknowledged, and the status is the replica count of that
/// shape. The status that `foo` had does not enter into it.
pub proof fn status_is_taken_from_the_acknowledged_shape(
    foo: FooView,
    answers: Seq<ResponseView>,
    n: nat,
)
    ensures
        progress_after(foo, answers, n) matches ProgressView::Call {
            request: RequestView::ApplyStatus { status, .. },
            ..
        } ==> {
            &&& n > 0
            &&& progress_after(foo, answers, (n - 1) as nat) matches ProgressView::Call {
                request: RequestView::ApplyDeployment { .. },
                ..
            }
            &&& answers[n - 1] matches ResponseView::Applied(shape)
            &&& observed_status(shape) == Some(status)
            &&& shape.replicas() == Some(status.available_replicas)
        },
    decreases n,
{
    if n > 0 {
        let m = (n - 1) as nat;
        applying_phase_applies(foo, answers, m);
    }
}

/// A call in the applying phase is the apply of the workload, and nothing else.
proof fn applying_phase_applies(foo: FooView, answers: Seq<ResponseView>, n: nat)
    ensures
        progress_after(foo, answers, n) matches ProgressView::Call { phase: Phase::Applying, .. }
            ==> progress_after(foo, answers, n) matches ProgressView::Call {
            request: RequestView::ApplyDeployment { .. },
            ..
        },
    decreases n,
{
    if n > 0 {
        applying_phase_applies(foo, answers, (n - 1) as nat);
    }
}

/// A reconciliation that succeeds waits for the next change: it never asks to be run
/// again by the clock.
pub proof fn success_awaits_change(foo: FooView, answers: Seq<ResponseView>, n: nat)
    ensures
        progress_after(foo, answers, n) matches ProgressView::Done(action)
            ==> action.requeue_after is None,
    decreases n,
{
    if n > 0 {
        success_awaits_change(foo, answers, (n - 1) as nat);
    }
}

/// Nothing is retried within a reconciliation. When a call fails, the reconciliation ends
/// at once and fails, unless the call was the deletion of a workload that does not exist.
pub proof fn failed_call_ends_the_reconciliation(
    foo: FooView,
    answers: Seq<ResponseView>,
    n: nat,
)
    requires
        n > 0,
        progress_after(foo, answers, (n - 1) as nat) is Call,
        answers[n - 1] is Failed,
    ensures
        progress_after(foo, answers, n) is Failed || (deletes_workload(
            foo,
            progress_after(foo, answers, (n - 1) as nat),
        ) && confirms_absence(answers[n - 1])),
{
    cleanup_phase_deletes(foo, answers, (n - 1) as nat);
}

/// A reconciliation is over after two calls at most.
pub proof fn reconciliation_ends(foo: FooView, answers: Seq<ResponseView>, n: nat)
    requires
        n >= 2,
    ensures
        !(progress_after(foo, answers, n) is Call),
        progress_after(foo, answers, n) == progress_after(foo, answers, 2),
    decreases n,
{
    reveal_with_fuel(progress_after, 3);
    if n > 2 {
        reconciliation_ends(foo, answers, (n - 1) as nat);
    }
}

} // verus!
