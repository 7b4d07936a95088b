//! The reconciler: what to ask of the cluster for a declared resource, step by step, and
//! what to do when a reconciliation fails.
//!
//! The reconciler makes no call itself. [`reconcile`] looks at a resource and either
//! finishes at once or names the first call to make; [`resume`] takes the answer to a call
//! and either finishes or names the next one. Whoever drives it makes the calls. Nothing
//! is remembered between two reconciliations: each starts from the resource as it is.

use crate::crd::{Foo, FooStatus, FooView};
use crate::deployment::{Deployment, DeploymentView};
use crate::error::{
    BranchError, BranchErrorView, Error, ErrorView, FinalizerError, FinalizerErrorView,
};
use crate::meta::clone_texts;
use crate::protocol::{
    Action, FinalizerPatch, FinalizerPatchView, PatchParams, PatchParamsView, Phase, Progress,
    ProgressView, Request, RequestView, Response, ResponseView,
};
use crate::translate::desired_deployment;
use vstd::prelude::*;
use vstd::string::*;

verus! {

/// In whose name the controller owns the fields that it applies.
pub const FIELD_MANAGER_NAME: &'static str = "sample-controller";

/// The finalizer by which the controller holds back the deletion of a resource until it
/// has cleaned up.
pub const FINALIZER_NAME: &'static str = "sample-controller/finalizer";

/// Seconds to wait after a failed reconciliation before the next attempt.
pub const REQUEUE_SECONDS: u64 = 10;

/// Said of a resource that names no namespace.
pub const MISSING_NAMESPACE: &'static str = "Foo has no namespace";

/// Said of a resource that lacks the name or the UID by which its workload refers to it.
pub const MISSING_IDENTITY: &'static str = "Foo has no name or no UID";

/// Said of an applied workload whose acknowledged shape holds no replica count.
pub const MISSING_REPLICAS: &'static str = "applied Deployment reports no replicas";

/// Where a resource stands in the finalizer protocol.
#[derive(Clone, Copy, Debug, PartialEq, Eq, Structural)]
pub struct FinalizerState {
    /// Where among the finalizers of the resource the controller's own stands, if at all.
    pub finalizer_index: Option<usize>,
    /// Whether the platform has marked the resource for deletion.
    pub is_deleting: bool,
}

/// The first place at which `finalizer_name` stands among the finalizers of `foo`.
pub open spec fn finalizer_index_of(foo: FooView, finalizer_name: Seq<char>) -> Option<int> {
    foo.metadata.finalizer_list().index_of_first(finalizer_name)
}

impl FinalizerState {
    /// The place of the finalizer as a mathematical integer.
    pub open spec fn index(self) -> Option<int> {
        match self.finalizer_index {
            Some(i) => Some(i as int),
            None => None,
        }
    }

    /// Where `foo` stands with respect to the finalizer `finalizer_name`.
    pub fn for_object(foo: &Foo, finalizer_name: &str) -> (state: FinalizerState)
        ensures
            state.index() == finalizer_index_of(foo@, finalizer_name@),
            state.is_deleting == foo@.metadata.is_deleting(),
    {
        let token = String::from_str(finalizer_name);
        let finalizer_index = match &foo.metadata.finalizers {
            Some(list) => position(list, &token),
            None => {
                proof {
                    Seq::<Seq<char>>::empty().index_of_first_ensures(token@);
                }
                None
            },
        };
        FinalizerState { finalizer_index, is_deleting: foo.is_deleting() }
    }
}

/// The first place at which `token` stands in `list`.
fn position(list: &Vec<String>, token: &String) -> (place: Option<usize>)
    ensures
        match place {
            Some(i) => Some(i as int),
            None => None,
        } == list.deep_view().index_of_first(token@),
{
    let ghost texts = list.deep_view();
    let mut i: usize = 0;
    while i < list.len()
        invariant
            i <= list.len(),
            texts == list.deep_view(),
            forall|j: int| 0 <= j < i ==> texts[j] != token@,
        decreases list.len() - i,
    {
        if list[i] == *token {
            proof {
                assert(texts[i as int] == token@);
                texts.index_of_first_ensures(token@);
            }
            return Some(i);
        }
        i += 1;
    }
    proof {
        texts.index_of_first_ensures(token@);
    }
    None
}

/// The parameters of every patch that the controller applies: in its own name, and
/// forced, so that its fields win over anybody else's.
pub open spec fn forced_apply() -> PatchParamsView {
    PatchParamsView::apply(FIELD_MANAGER_NAME@).force()
}

/// The failure of the apply branch.
pub open spec fn apply_failed(error: BranchErrorView) -> ProgressView {
    ProgressView::Failed(ErrorView::FinalizerError(FinalizerErrorView::ApplyFailed(error)))
}

/// The failure of the cleanup branch.
pub open spec fn cleanup_failed(error: BranchErrorView) -> ProgressView {
    ProgressView::Failed(ErrorView::FinalizerError(FinalizerErrorView::CleanupFailed(error)))
}

/// The failure of the finalizer protocol itself.
pub open spec fn protocol_failed(error: FinalizerErrorView) -> ProgressView {
    ProgressView::Failed(ErrorView::FinalizerError(error))
}

/// The end of a reconciliation that has nothing more to do until something changes.
pub open spec fn settled() -> ProgressView {
    ProgressView::Done(Action { requeue_after: None })
}

/// The status that the controller reports once the cluster has acknowledged a workload in
/// the shape `applied`: the replica count of that shape, if it holds one.
pub open spec fn observed_status(applied: DeploymentView) -> Option<FooStatus> {
    match applied.replicas() {
        Some(count) => Some(FooStatus { available_replicas: count }),
        None => None,
    }
}

/// How the apply branch begins: with the forced apply of the workload that `foo` asks
/// for, unless `foo` cannot be read.
pub open spec fn apply_spec(foo: FooView) -> ProgressView {
    if foo.metadata.namespace is None {
        apply_failed(BranchErrorView::SerializationError(MISSING_NAMESPACE@))
    } else if !foo.has_owner_identity() {
        apply_failed(BranchErrorView::SerializationError(MISSING_IDENTITY@))
    } else {
        ProgressView::Call {
            phase: Phase::Applying,
            request: RequestView::ApplyDeployment {
                namespace: foo.metadata.namespace->0,
                name: foo.spec.deployment_name,
                params: forced_apply(),
                deployment: desired_deployment(foo),
            },
        }
    }
}

/// How the cleanup branch begins: with the deletion of the workload of `foo`.
pub open spec fn cleanup_spec(foo: FooView) -> ProgressView {
    if foo.metadata.namespace is None {
        cleanup_failed(BranchErrorView::SerializationError(MISSING_NAMESPACE@))
    } else {
        ProgressView::Call {
            phase: Phase::CleaningUp,
            request: RequestView::DeleteDeployment {
                namespace: foo.metadata.namespace->0,
                name: foo.spec.deployment_name,
            },
        }
    }
}

/// The patch that adds `token` to finalizers that are `present`.
pub open spec fn add_finalizer_patch(present: Seq<Seq<char>>, token: Seq<char>) -> FinalizerPatchView {
    if present.len() == 0 {
        FinalizerPatchView::Create { token }
    } else {
        FinalizerPatchView::Append { expected: present, token }
    }
}

/// How a reconciliation of `foo` begins.
///
/// A resource that holds the finalizer is applied, or, once it is marked for deletion,
/// cleaned up. A resource that does not hold it is given it, and applied when that change
/// comes round; once marked for deletion it is left alone.
pub open spec fn reconcile_spec(foo: FooView) -> ProgressView {
    if foo.metadata.namespace is None {
        ProgressView::Failed(ErrorView::SerializationError(MISSING_NAMESPACE@))
    } else {
        match (finalizer_index_of(foo, FINALIZER_NAME@), foo.metadata.is_deleting()) {
            (Some(_), false) => apply_spec(foo),
            (Some(_), true) => if foo.metadata.name is None {
                protocol_failed(FinalizerErrorView::UnnamedObject)
            } else {
                cleanup_spec(foo)
            },
            (None, false) => if foo.metadata.name is None {
                protocol_failed(FinalizerErrorView::UnnamedObject)
            } else {
                ProgressView::Call {
                    phase: Phase::AddingFinalizer,
                    request: RequestView::PatchFinalizers {
                        namespace: foo.metadata.namespace->0,
                        name: foo.metadata.name->0,
                        params: PatchParamsView::plain(),
                        patch: add_finalizer_patch(
                            foo.metadata.finalizer_list(),
                            FINALIZER_NAME@,
                        ),
                    },
                }
            },
            (None, true) => settled(),
        }
    }
}

/// What follows once the cluster has acknowledged the workload in the shape `applied`:
/// the status of `foo` is written anew from that shape.
pub open spec fn after_apply(foo: FooView, applied: Option<DeploymentView>) -> ProgressView {
    let status = match applied {
        Some(shape) => observed_status(shape),
        None => None,
    };
    if status is None {
        apply_failed(BranchErrorView::SerializationError(MISSING_REPLICAS@))
    } else if foo.metadata.namespace is None {
        apply_failed(BranchErrorView::SerializationError(MISSING_NAMESPACE@))
    } else if foo.metadata.name is None {
        apply_failed(BranchErrorView::SerializationError(MISSING_IDENTITY@))
    } else {
        ProgressView::Call {
            phase: Phase::UpdatingStatus,
            request: RequestView::ApplyStatus {
                namespace: foo.metadata.namespace->0,
                name: foo.metadata.name->0,
                params: forced_apply(),
                status: status->0,
            },
        }
    }
}

/// What follows once the workload of `foo` is gone: the finalizer is removed, if `foo`
/// holds it.
pub open spec fn after_cleanup(foo: FooView) -> ProgressView {
    match finalizer_index_of(foo, FINALIZER_NAME@) {
        None => settled(),
        Some(index) => if foo.metadata.name is None {
            protocol_failed(FinalizerErrorView::UnnamedObject)
        } else if foo.metadata.namespace is None {
            cleanup_failed(BranchErrorView::SerializationError(MISSING_NAMESPACE@))
        } else {
            ProgressView::Call {
                phase: Phase::RemovingFinalizer,
                request: RequestView::PatchFinalizers {
                    namespace: foo.metadata.namespace->0,
                    name: foo.metadata.name->0,
                    params: PatchParamsView::plain(),
                    patch: FinalizerPatchView::Remove { index, token: FINALIZER_NAME@ },
                },
            }
        },
    }
}

/// Whether `response` tells a cleanup that the workload is gone: the deletion went
/// through, or there was nothing to delete.
pub open spec fn confirms_absence(response: ResponseView) -> bool {
    match response {
        ResponseView::Failed(error) => error.is_not_found(),
        _ => true,
    }
}

/// How a reconciliation of `foo` goes on when the call made in `phase` was answered with
/// `response`.
///
/// A failed call ends the reconciliation with that failure, with one exception: a
/// workload that is to be deleted and is not there counts as deleted.
pub open spec fn resume_spec(foo: FooView, phase: Phase, response: ResponseView) -> ProgressView {
    match phase {
        Phase::AddingFinalizer => match response {
            ResponseView::Failed(error) => protocol_failed(FinalizerErrorView::AddFinalizer(error)),
            _ => settled(),
        },
        Phase::Applying => match response {
            ResponseView::Failed(error) => apply_failed(BranchErrorView::KubeError(error)),
            ResponseView::Applied(shape) => after_apply(foo, Some(shape)),
            ResponseView::Succeeded => after_apply(foo, None),
        },
        Phase::UpdatingStatus => match response {
            ResponseView::Failed(error) => apply_failed(BranchErrorView::KubeError(error)),
            _ => settled(),
        },
        Phase::CleaningUp => match response {
            ResponseView::Failed(error) => if error.is_not_found() {
                after_cleanup(foo)
            } else {
                cleanup_failed(BranchErrorView::KubeError(error))
            },
            _ => after_cleanup(foo),
        },
        Phase::RemovingFinalizer => match response {
            ResponseView::Failed(error) => protocol_failed(
                FinalizerErrorView::RemoveFinalizer(error),
            ),
            _ => settled(),
        },
    }
}

/// Ends an apply on a failure.
fn fail_apply(error: BranchError) -> (progress: Progress)
    ensures
        progress@ == apply_failed(error@),
{
    Progress::Failed(Error::FinalizerError(Box::new(FinalizerError::ApplyFailed(error))))
}

/// Ends a cleanup on a failure.
fn fail_cleanup(error: BranchError) -> (progress: Progress)
    ensures
        progress@ == cleanup_failed(error@),
{
    Progress::Failed(Error::FinalizerError(Box::new(FinalizerError::CleanupFailed(error))))
}

/// Ends a reconciliation on a failure of the finalizer protocol.
fn fail_protocol(error: FinalizerError) -> (progress: Progress)
    ensures
        progress@ == protocol_failed(error@),
{
    Progress::Failed(Error::from(Box::new(error)))
}

/// The failure to read a resource, with `message` saying what is missing.
fn unreadable(message: &str) -> (error: BranchError)
    ensures
        error@ == BranchErrorView::SerializationError(message@),
{
    BranchError::SerializationError(String::from_str(message))
}

/// The parameters of every patch that the controller applies.
fn forced_apply_params() -> (params: PatchParams)
    ensures
        params@ == forced_apply(),
{
    PatchParams::apply(FIELD_MANAGER_NAME).force()
}

impl Foo {
    /// Begins the apply branch: asks for the forced apply of the workload that this
    /// resource declares. A resource without a namespace, a name or a UID cannot be
    /// applied, and the branch fails at once.
    pub fn apply(&self) -> (progress: Progress)
        ensures
            progress@ == apply_spec(self@),
    {
        let namespace = match &self.metadata.namespace {
            Some(namespace) => namespace.clone(),
            None => { return fail_apply(unreadable(MISSING_NAMESPACE)); },
        };
        if self.metadata.name.is_none() || self.metadata.uid.is_none() {
            return fail_apply(unreadable(MISSING_IDENTITY));
        }
        Progress::Call {
            phase: Phase::Applying,
            request: Request::ApplyDeployment {
                namespace,
                name: self.spec.deployment_name.clone(),
                params: forced_apply_params(),
                deployment: Deployment::from(self),
            },
        }
    }

    /// Begins the cleanup branch: asks for the deletion of the workload that this
    /// resource declares.
    pub fn cleanup(&self) -> (progress: Progress)
        ensures
            progress@ == cleanup_spec(self@),
    {
        match &self.metadata.namespace {
            Some(namespace) => Progress::Call {
                phase: Phase::CleaningUp,
                request: Request::DeleteDeployment {
                    namespace: namespace.clone(),
                    name: self.spec.deployment_name.clone(),
                },
            },
            None => fail_cleanup(unreadable(MISSING_NAMESPACE)),
        }
    }

    /// Goes on after the workload was applied: asks for the status to be written from
    /// the acknowledged shape.
    fn report(&self, applied: Option<Deployment>) -> (progress: Progress)
        ensures
            progress@ == after_apply(self@, applied.deep_view()),
    {
        let count = match &applied {
            Some(shape) => shape.replicas(),
            None => None,
        };
        let status = match count {
            Some(available_replicas) => FooStatus { available_replicas },
            None => { return fail_apply(unreadable(MISSING_REPLICAS)); },
        };
        let namespace = match &self.metadata.namespace {
            Some(namespace) => namespace.clone(),
            None => { return fail_apply(unreadable(MISSING_NAMESPACE)); },
        };
        let name = match &self.metadata.name {
            Some(name) => name.clone(),
            None => { return fail_apply(unreadable(MISSING_IDENTITY)); },
        };
        Progress::Call {
            phase: Phase::UpdatingStatus,
            request: Request::ApplyStatus { namespace, name, params: forced_apply_params(), status },
        }
    }

    /// Goes on after the workload is gone: asks for the finalizer to be removed, if the
    /// resource holds it.
    fn release(&self) -> (progress: Progress)
        ensures
            progress@ == after_cleanup(self@),
    {
        let index = match FinalizerState::for_object(self, FINALIZER_NAME).finalizer_index {
            Some(index) => index,
            None => { return Progress::Done(Action::await_change()); },
        };
        let name = match &self.metadata.name {
            Some(name) => name.clone(),
            None => { return fail_protocol(FinalizerError::UnnamedObject); },
        };
        let namespace = match &self.metadata.namespace {
            Some(namespace) => namespace.clone(),
            None => { return fail_cleanup(unreadable(MISSING_NAMESPACE)); },
        };
        Progress::Call {
            phase: Phase::RemovingFinalizer,
            request: Request::PatchFinalizers {
                namespace,
                name,
                params: PatchParams::default(),
                patch: FinalizerPatch::Remove { index, token: String::from_str(FINALIZER_NAME) },
            },
        }
    }

    /// Begins the addition of the finalizer to this resource, which has a namespace and
    /// does not hold the finalizer yet.
    fn hold(&self, namespace: String) -> (progress: Progress)
        requires
            self@.metadata.namespace == Some(namespace@),
        ensures
            progress@ == (if self@.metadata.name is None {
                protocol_failed(FinalizerErrorView::UnnamedObject)
            } else {
                ProgressView::Call {
                    phase: Phase::AddingFinalizer,
                    request: RequestView::PatchFinalizers {
                        namespace: namespace@,
                        name: self@.metadata.name->0,
                        params: PatchParamsView::plain(),
                        patch: add_finalizer_patch(
                            self@.metadata.finalizer_list(),
                            FINALIZER_NAME@,
                        ),
                    },
                }
            }),
    {
        let name = match &self.metadata.name {
            Some(name) => name.clone(),
            None => { return fail_protocol(FinalizerError::UnnamedObject); },
        };
        let token = String::from_str(FINALIZER_NAME);
        let patch = match &self.metadata.finalizers {
            Some(list) => if list.len() == 0 {
                FinalizerPatch::Create { token }
            } else {
                FinalizerPatch::Append { expected: clone_texts(list), token }
            },
            None => FinalizerPatch::Create { token },
        };
        Progress::Call {
            phase: Phase::AddingFinalizer,
            request: Request::PatchFinalizers { namespace, name, params: PatchParams::default(), patch },
        }
    }
}

/// What is to be done for a resource that holds the finalizer.
#[derive(Clone, Copy, Debug)]
pub enum Event<'a> {
    /// The workload is to be brought in line with the resource.
    Apply(&'a Foo),
    /// The resource is being deleted, and its workload is to go first.
    Cleanup(&'a Foo),
}

impl<'a> Event<'a> {
    /// How the branch that the event stands for begins.
    pub open spec fn begin_spec(self) -> ProgressView {
        match self {
            Event::Apply(foo) => apply_spec(foo@),
            Event::Cleanup(foo) => cleanup_spec(foo@),
        }
    }

    /// Begins the branch that the event stands for.
    pub fn begin(self) -> (progress: Progress)
        ensures
            progress@ == self.begin_spec(),
    {
        match self {
            Event::Apply(foo) => foo.apply(),
            Event::Cleanup(foo) => foo.cleanup(),
        }
    }
}

/// Begins a reconciliation of `foo`: finishes at once, or names the first call to make.
///
/// Which branch is taken depends on `foo` alone: on whether it holds the controller's
/// finalizer and on whether it is marked for deletion.
pub fn reconcile(foo: &Foo) -> (progress: Progress)
    ensures
        progress@ == reconcile_spec(foo@),
{
    let namespace = match &foo.metadata.namespace {
        Some(namespace) => namespace.clone(),
        None => {
            return Progress::Failed(
                Error::SerializationError(String::from_str(MISSING_NAMESPACE)),
            );
        },
    };
    let state = FinalizerState::for_object(foo, FINALIZER_NAME);
    match (state.finalizer_index, state.is_deleting) {
        (Some(_), false) => Event::Apply(foo).begin(),
        (Some(_), true) => if foo.metadata.name.is_none() {
            fail_protocol(FinalizerError::UnnamedObject)
        } else {
            Event::Cleanup(foo).begin()
        },
        (None, false) => foo.hold(namespace),
        (None, true) => Progress::Done(Action::await_change()),
    }
}

/// Goes on with a reconciliation of `foo` after the call made in `phase` was answered
/// with `response`: finishes, or names the next call to make.
///
/// Nothing is retried here. A failed call ends the reconciliation with that failure; only
/// a workload that was to be deleted and does not exist counts as deleted.
pub fn resume(foo: &Foo, phase: Phase, response: Response) -> (progress: Progress)
    ensures
        progress@ == resume_spec(foo@, phase, response@),
{
    match phase {
        Phase::AddingFinalizer => match response {
            Response::Failed(error) => fail_protocol(FinalizerError::AddFinalizer(error)),
            _ => Progress::Done(Action::await_change()),
        },
        Phase::Applying => match response {
            Response::Failed(error) => fail_apply(BranchError::KubeError(error)),
            Response::Applied(shape) => foo.report(Some(shape)),
            Response::Succeeded => foo.report(None),
        },
        Phase::UpdatingStatus => match response {
            Response::Failed(error) => fail_apply(BranchError::KubeError(error)),
            _ => Progress::Done(Action::await_change()),
        },
        Phase::CleaningUp => match response {
            Response::Failed(error) => if error.is_not_found() {
                foo.release()
            } else {
                fail_cleanup(BranchError::KubeError(error))
            },
            _ => foo.release(),
        },
        Phase::RemovingFinalizer => match response {
            Response::Failed(error) => fail_protocol(FinalizerError::RemoveFinalizer(error)),
            _ => Progress::Done(Action::await_change()),
        },
    }
}

/// What to do about a failed reconciliation of `object`: try again after a fixed delay,
/// whatever the failure was.
pub fn error_policy(object: &Foo, error: &Error) -> (action: Action)
    ensures
        action == (Action { requeue_after: Some(REQUEUE_SECONDS) }),
{
    Action::requeue(REQUEUE_SECONDS)
}

} // verus!
