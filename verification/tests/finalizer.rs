use sample_controller::controller::{
    reconcile, resume, Event, FinalizerState, FINALIZER_NAME, MISSING_IDENTITY,
    MISSING_NAMESPACE, MISSING_REPLICAS,
};
use sample_controller::crd::{Foo, FooSpec};
use sample_controller::deployment::Deployment;
use sample_controller::error::{BranchError, Error, FinalizerError, KubeError};
use sample_controller::meta::ObjectMeta;
use sample_controller::protocol::{
    Action, FinalizerPatch, PatchParams, Phase, Progress, Request, Response,
};

fn foo_with(finalizers: Option<Vec<&str>>, deleting: bool) -> Foo {
    Foo {
        metadata: ObjectMeta {
            name: Some("example-foo".to_string()),
            namespace: Some("default".to_string()),
            uid: Some("c0ffee-0001".to_string()),
            finalizers: finalizers.map(|list| list.into_iter().map(str::to_string).collect()),
            deletion_timestamp: if deleting {
                Some("2024-05-01T10:00:00Z".to_string())
            } else {
                None
            },
            ..ObjectMeta::default()
        },
        spec: FooSpec { deployment_name: "example-deployment".to_string(), replicas: 2 },
        status: None,
    }
}

fn api_error(code: u16, reason: &str) -> KubeError {
    KubeError::Api { code, reason: reason.to_string(), message: format!("{reason} ({code})") }
}

fn finalizer_failure(error: FinalizerError) -> Progress {
    Progress::Failed(Error::FinalizerError(Box::new(error)))
}

fn unreadable(message: &str) -> BranchError {
    BranchError::SerializationError(message.to_string())
}

#[test]
fn finalizer_state_finds_the_first_place_of_the_finalizer() {
    let foo = foo_with(Some(vec!["other/finalizer", FINALIZER_NAME, FINALIZER_NAME]), false);
    assert_eq!(
        FinalizerState::for_object(&foo, FINALIZER_NAME),
        FinalizerState { finalizer_index: Some(1), is_deleting: false }
    );
    assert_eq!(
        FinalizerState::for_object(&foo, "other/finalizer"),
        FinalizerState { finalizer_index: Some(0), is_deleting: false }
    );
    assert_eq!(
        FinalizerState::for_object(&foo, "sample-controller"),
        FinalizerState { finalizer_index: None, is_deleting: false }
    );
}

#[test]
fn finalizer_state_of_a_resource_without_finalizers() {
    assert_eq!(
        FinalizerState::for_object(&foo_with(None, true), FINALIZER_NAME),
        FinalizerState { finalizer_index: None, is_deleting: true }
    );
    assert_eq!(
        FinalizerState::for_object(&foo_with(Some(vec![]), false), FINALIZER_NAME),
        FinalizerState { finalizer_index: None, is_deleting: false }
    );
}

#[test]
fn finalizer_is_appended_to_the_finalizers_of_others() {
    let foo = foo_with(Some(vec!["other/finalizer"]), false);
    assert_eq!(
        reconcile(&foo),
        Progress::Call {
            phase: Phase::AddingFinalizer,
            request: Request::PatchFinalizers {
                namespace: "default".to_string(),
                name: "example-foo".to_string(),
                params: PatchParams::default(),
                patch: FinalizerPatch::Append {
                    expected: vec!["other/finalizer".to_string()],
                    token: FINALIZER_NAME.to_string(),
                },
            },
        }
    );
}

#[test]
fn finalizer_list_is_created_when_it_is_empty() {
    for finalizers in [None, Some(vec![])] {
        let Progress::Call { request: Request::PatchFinalizers { patch, .. }, .. } =
            reconcile(&foo_with(finalizers, false))
        else {
            panic!("expected the finalizer to be added");
        };
        assert_eq!(patch, FinalizerPatch::Create { token: FINALIZER_NAME.to_string() });
    }
}

#[test]
fn failure_to_add_the_finalizer_ends_the_reconciliation() {
    let foo = foo_with(None, false);
    assert_eq!(
        resume(&foo, Phase::AddingFinalizer, Response::Failed(api_error(409, "Conflict"))),
        finalizer_failure(FinalizerError::AddFinalizer(api_error(409, "Conflict")))
    );
}

#[test]
fn deleted_resource_without_the_finalizer_is_left_alone() {
    assert_eq!(reconcile(&foo_with(None, true)), Progress::Done(Action::await_change()));
    assert_eq!(
        reconcile(&foo_with(Some(vec!["other/finalizer"]), true)),
        Progress::Done(Action::await_change())
    );
}

#[test]
fn cleanup_deletes_the_deployment_that_the_spec_names() {
    let foo = foo_with(Some(vec![FINALIZER_NAME]), true);
    let expected = Progress::Call {
        phase: Phase::CleaningUp,
        request: Request::DeleteDeployment {
            namespace: "default".to_string(),
            name: "example-deployment".to_string(),
        },
    };
    assert_eq!(reconcile(&foo), expected);
    assert_eq!(foo.cleanup(), expected);
    assert_eq!(Event::Cleanup(&foo).begin(), expected);
}

#[test]
fn absent_deployment_counts_as_deleted() {
    let foo = foo_with(Some(vec!["other/finalizer", FINALIZER_NAME]), true);
    let removal = Progress::Call {
        phase: Phase::RemovingFinalizer,
        request: Request::PatchFinalizers {
            namespace: "default".to_string(),
            name: "example-foo".to_string(),
            params: PatchParams::default(),
            patch: FinalizerPatch::Remove { index: 1, token: FINALIZER_NAME.to_string() },
        },
    };
    assert_eq!(
        resume(&foo, Phase::CleaningUp, Response::Failed(api_error(404, "NotFound"))),
        removal
    );
    assert_eq!(resume(&foo, Phase::CleaningUp, Response::Succeeded), removal);
}

#[test]
fn failed_deletion_keeps_the_finalizer() {
    let foo = foo_with(Some(vec![FINALIZER_NAME]), true);
    for error in [
        api_error(403, "Forbidden"),
        api_error(409, "Conflict"),
        api_error(500, "InternalError"),
        KubeError::Transport("timed out".to_string()),
    ] {
        assert_eq!(
            resume(&foo, Phase::CleaningUp, Response::Failed(error.clone())),
            finalizer_failure(FinalizerError::CleanupFailed(BranchError::KubeError(error)))
        );
    }
}

#[test]
fn cleanup_is_started_again_after_a_crash() {
    let foo = foo_with(Some(vec![FINALIZER_NAME]), true);
    let first = reconcile(&foo);
    let second = reconcile(&foo);
    assert_eq!(first, second);
    assert!(matches!(
        second,
        Progress::Call { phase: Phase::CleaningUp, request: Request::DeleteDeployment { .. } }
    ));
}

#[test]
fn failure_to_remove_the_finalizer_ends_the_reconciliation() {
    let foo = foo_with(Some(vec![FINALIZER_NAME]), true);
    assert_eq!(
        resume(&foo, Phase::RemovingFinalizer, Response::Failed(api_error(422, "Invalid"))),
        finalizer_failure(FinalizerError::RemoveFinalizer(api_error(422, "Invalid")))
    );
    assert_eq!(
        resume(&foo, Phase::RemovingFinalizer, Response::Succeeded),
        Progress::Done(Action::await_change())
    );
}

#[test]
fn cleanup_of_a_resource_without_the_finalizer_removes_nothing() {
    let foo = foo_with(None, true);
    assert_eq!(
        resume(&foo, Phase::CleaningUp, Response::Succeeded),
        Progress::Done(Action::await_change())
    );
}

#[test]
fn resource_without_a_namespace_cannot_be_read() {
    let mut foo = foo_with(Some(vec![FINALIZER_NAME]), false);
    foo.metadata.namespace = None;
    assert_eq!(
        reconcile(&foo),
        Progress::Failed(Error::SerializationError("Foo has no namespace".to_string()))
    );
    assert_eq!(
        foo.apply(),
        finalizer_failure(FinalizerError::ApplyFailed(unreadable(MISSING_NAMESPACE)))
    );
    assert_eq!(
        foo.cleanup(),
        finalizer_failure(FinalizerError::CleanupFailed(unreadable(MISSING_NAMESPACE)))
    );
}

#[test]
fn resource_without_a_uid_is_not_applied() {
    let mut foo = foo_with(Some(vec![FINALIZER_NAME]), false);
    foo.metadata.uid = None;
    let expected = finalizer_failure(FinalizerError::ApplyFailed(unreadable(MISSING_IDENTITY)));
    assert_eq!(reconcile(&foo), expected);
    assert_eq!(Event::Apply(&foo).begin(), expected);
    assert_eq!(MISSING_IDENTITY, "Foo has no name or no UID");
}

#[test]
fn resource_without_a_name_cannot_be_patched() {
    let mut adding = foo_with(None, false);
    adding.metadata.name = None;
    assert_eq!(reconcile(&adding), finalizer_failure(FinalizerError::UnnamedObject));
    let mut deleting = foo_with(Some(vec![FINALIZER_NAME]), true);
    deleting.metadata.name = None;
    assert_eq!(reconcile(&deleting), finalizer_failure(FinalizerError::UnnamedObject));
    assert_eq!(
        resume(&deleting, Phase::CleaningUp, Response::Succeeded),
        finalizer_failure(FinalizerError::UnnamedObject)
    );
}

#[test]
fn applied_deployment_without_replicas_cannot_be_read() {
    let foo = foo_with(Some(vec![FINALIZER_NAME]), false);
    let expected = finalizer_failure(FinalizerError::ApplyFailed(unreadable(MISSING_REPLICAS)));
    let mut shape = Deployment::from(&foo);
    shape.spec.as_mut().unwrap().replicas = None;
    assert_eq!(resume(&foo, Phase::Applying, Response::Applied(shape.clone())), expected);
    shape.spec = None;
    assert_eq!(resume(&foo, Phase::Applying, Response::Applied(shape)), expected);
    assert_eq!(resume(&foo, Phase::Applying, Response::Succeeded), expected);
    assert_eq!(MISSING_REPLICAS, "applied Deployment reports no replicas");
}

#[test]
fn status_follows_the_acknowledged_shape() {
    let foo = foo_with(Some(vec![FINALIZER_NAME]), false);
    let mut shape = Deployment::from(&foo);
    shape.spec.as_mut().unwrap().replicas = Some(7);
    let Progress::Call { phase, request: Request::ApplyStatus { name, status, .. } } =
        resume(&foo, Phase::Applying, Response::Applied(shape))
    else {
        panic!("expected the status to be written");
    };
    assert_eq!(phase, Phase::UpdatingStatus);
    assert_eq!(name, "example-foo");
    assert_eq!(status.available_replicas, 7);
}

#[test]
fn failed_apply_ends_the_reconciliation() {
    let foo = foo_with(Some(vec![FINALIZER_NAME]), false);
    let error = KubeError::Transport("connection refused".to_string());
    assert_eq!(
        resume(&foo, Phase::Applying, Response::Failed(error.clone())),
        finalizer_failure(FinalizerError::ApplyFailed(BranchError::KubeError(error)))
    );
    let gone = api_error(404, "NotFound");
    assert_eq!(
        resume(&foo, Phase::Applying, Response::Failed(gone.clone())),
        finalizer_failure(FinalizerError::ApplyFailed(BranchError::KubeError(gone)))
    );
}
