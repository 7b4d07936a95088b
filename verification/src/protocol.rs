//! What passes between the reconciler and whoever talks to the cluster for it: the calls
//! that the reconciler asks for, the answers it is given, and what it says in the end.

use crate::crd::FooStatus;
use crate::deployment::{Deployment, DeploymentView};
use crate::error::{Error, ErrorView, KubeError, KubeErrorView};
use vstd::prelude::*;
use vstd::string::*;

verus! {

/// When to reconcile a resource next, if nothing about it changes before.
#[derive(Clone, Copy, Debug, PartialEq, Eq, Structural)]
pub struct Action {
    /// Seconds to wait before the next attempt; `None` waits for the next change.
    pub requeue_after: Option<u64>,
}

impl Action {
    /// Reconcile again `seconds` from now.
    pub fn requeue(seconds: u64) -> (action: Action)
        ensures
            action == (Action { requeue_after: Some(seconds) }),
    {
        Action { requeue_after: Some(seconds) }
    }

    /// Do nothing until the resource, or something it owns, changes.
    pub fn await_change() -> (action: Action)
        ensures
            action == (Action { requeue_after: None }),
    {
        Action { requeue_after: None }
    }
}

/// How a patch is to be made.
#[derive(Clone, Debug, PartialEq, Eq)]
pub struct PatchParams {
    pub dry_run: bool,
    /// Whether the fields of the patch win over those that another manager owns.
    pub force: bool,
    /// In whose name the fields of the patch are owned.
    pub field_manager: Option<String>,
}

/// The mathematical value of a [`PatchParams`].
pub struct PatchParamsView {
    pub dry_run: bool,
    pub force: bool,
    pub field_manager: Option<Seq<char>>,
}

impl DeepView for PatchParams {
    type V = PatchParamsView;

    open spec fn deep_view(&self) -> PatchParamsView {
        PatchParamsView {
            dry_run: self.dry_run,
            force: self.force,
            field_manager: self.field_manager.deep_view(),
        }
    }
}

impl View for PatchParams {
    type V = PatchParamsView;

    open spec fn view(&self) -> PatchParamsView {
        self.deep_view()
    }
}

impl PatchParamsView {
    /// Parameters of a plain patch.
    pub open spec fn plain() -> PatchParamsView {
        PatchParamsView { dry_run: false, force: false, field_manager: None }
    }

    /// Parameters of a server-side apply in the name of `manager`.
    pub open spec fn apply(manager: Seq<char>) -> PatchParamsView {
        PatchParamsView { field_manager: Some(manager), ..PatchParamsView::plain() }
    }

    /// The same parameters, with the patch forced through on conflicts.
    pub open spec fn force(self) -> PatchParamsView {
        PatchParamsView { force: true, ..self }
    }
}

impl Default for PatchParams {
    fn default() -> (params: PatchParams)
        ensures
            params@ == PatchParamsView::plain(),
    {
        PatchParams { dry_run: false, force: false, field_manager: None }
    }
}

impl PatchParams {
    /// Parameters of a server-side apply in the name of `manager`.
    pub fn apply(manager: &str) -> (params: PatchParams)
        ensures
            params@ == PatchParamsView::apply(manager@),
    {
        PatchParams { dry_run: false, force: false, field_manager: Some(String::from_str(manager)) }
    }

    /// The same parameters, with the patch forced through on conflicts.
    pub fn force(self) -> (params: PatchParams)
        ensures
            params@ == self@.force(),
    {
        PatchParams { dry_run: self.dry_run, force: true, field_manager: self.field_manager }
    }
}

/// A guarded change to the finalizers of a resource. Each change first tests what it
/// relies on, so that it fails rather than undo somebody else's concurrent change.
#[derive(Clone, Debug, PartialEq, Eq)]
pub enum FinalizerPatch {
    /// Test that the resource has no finalizers; make the list, holding `token` alone.
    Create { token: String },
    /// Test that the finalizers are `expected`; add `token` at the end.
    Append { expected: Vec<String>, token: String },
    /// Test that the finalizer at `index` is `token`; remove it.
    Remove { index: usize, token: String },
}

/// The mathematical value of a [`FinalizerPatch`].
pub enum FinalizerPatchView {
    Create { token: Seq<char> },
    Append { expected: Seq<Seq<char>>, token: Seq<char> },
    Remove { index: int, token: Seq<char> },
}

impl DeepView for FinalizerPatch {
    type V = FinalizerPatchView;

    open spec fn deep_view(&self) -> FinalizerPatchView {
        match self {
            FinalizerPatch::Create { token } => FinalizerPatchView::Create { token: token@ },
            FinalizerPatch::Append { expected, token } => FinalizerPatchView::Append {
                expected: expected.deep_view(),
                token: token@,
            },
            FinalizerPatch::Remove { index, token } => FinalizerPatchView::Remove {
                index: *index as int,
                token: token@,
            },
        }
    }
}

impl View for FinalizerPatch {
    type V = FinalizerPatchView;

    open spec fn view(&self) -> FinalizerPatchView {
        self.deep_view()
    }
}

impl FinalizerPatchView {
    /// The finalizers after the patch, on a resource whose finalizers are `before` and
    /// pass the test of the patch.
    pub open spec fn result(self, before: Seq<Seq<char>>) -> Seq<Seq<char>> {
        match self {
            FinalizerPatchView::Create { token } => seq![token],
            FinalizerPatchView::Append { expected, token } => before.push(token),
            FinalizerPatchView::Remove { index, token } => before.remove(index),
        }
    }

    /// Whether a resource whose finalizers are `before` passes the test of the patch.
    pub open spec fn admits(self, before: Seq<Seq<char>>) -> bool {
        match self {
            FinalizerPatchView::Create { token } => before.len() == 0,
            FinalizerPatchView::Append { expected, token } => before == expected,
            FinalizerPatchView::Remove { index, token } => 0 <= index < before.len()
                && before[index] == token,
        }
    }
}

/// A call to the cluster API that the reconciler asks for. Every call is made in one
/// namespace and names one resource.
#[derive(Clone, Debug, PartialEq, Eq)]
pub enum Request {
    /// Change the finalizers of the declared resource `name`.
    PatchFinalizers { namespace: String, name: String, params: PatchParams, patch: FinalizerPatch },
    /// Create the workload `name`, or bring it to the shape of `deployment`.
    ApplyDeployment { namespace: String, name: String, params: PatchParams, deployment: Deployment },
    /// Write `status` as the status of the declared resource `name`.
    ApplyStatus { namespace: String, name: String, params: PatchParams, status: FooStatus },
    /// Delete the workload `name`.
    DeleteDeployment { namespace: String, name: String },
}

/// The mathematical value of a [`Request`].
pub enum RequestView {
    PatchFinalizers {
        namespace: Seq<char>,
        name: Seq<char>,
        params: PatchParamsView,
        patch: FinalizerPatchView,
    },
    ApplyDeployment {
        namespace: Seq<char>,
        name: Seq<char>,
        params: PatchParamsView,
        deployment: DeploymentView,
    },
    ApplyStatus { namespace: Seq<char>, name: Seq<char>, params: PatchParamsView, status: FooStatus },
    DeleteDeployment { namespace: Seq<char>, name: Seq<char> },
}

impl DeepView for Request {
    type V = RequestView;

    open spec fn deep_view(&self) -> RequestView {
        match self {
            Request::PatchFinalizers { namespace, name, params, patch } => {
                RequestView::PatchFinalizers {
                    namespace: namespace@,
                    name: name@,
                    params: params@,
                    patch: patch@,
                }
            },
            Request::ApplyDeployment { namespace, name, params, deployment } => {
                RequestView::ApplyDeployment {
                    namespace: namespace@,
                    name: name@,
                    params: params@,
                    deployment: deployment@,
                }
            },
            Request::ApplyStatus { namespace, name, params, status } => RequestView::ApplyStatus {
                namespace: namespace@,
                name: name@,
                params: params@,
                status: *status,
            },
            Request::DeleteDeployment { namespace, name } => RequestView::DeleteDeployment {
                namespace: namespace@,
                name: name@,
            },
        }
    }
}

impl View for Request {
    type V = RequestView;

    open spec fn view(&self) -> RequestView {
        self.deep_view()
    }
}

/// What the cluster answered to a [`Request`].
#[derive(Clone, Debug, PartialEq, Eq)]
pub enum Response {
    /// The call succeeded, and the cluster now holds the workload in this shape.
    Applied(Deployment),
    /// The call succeeded; the reconciler reads nothing of the answer.
    Succeeded,
    /// The call failed.
    Failed(KubeError),
}

/// The mathematical value of a [`Response`].
pub enum ResponseView {
    Applied(DeploymentView),
    Succeeded,
    Failed(KubeErrorView),
}

impl DeepView for Response {
    type V = ResponseView;

    open spec fn deep_view(&self) -> ResponseView {
        match self {
            Response::Applied(deployment) => ResponseView::Applied(deployment@),
            Response::Succeeded => ResponseView::Succeeded,
            Response::Failed(error) => ResponseView::Failed(error@),
        }
    }
}

impl View for Response {
    type V = ResponseView;

    open spec fn view(&self) -> ResponseView {
        self.deep_view()
    }
}

/// Which call a reconciliation is waiting for.
#[derive(Clone, Copy, Debug, PartialEq, Eq, Structural)]
pub enum Phase {
    /// The finalizer is being added.
    AddingFinalizer,
    /// The workload is being applied.
    Applying,
    /// The observed status is being written.
    UpdatingStatus,
    /// The workload is being deleted.
    CleaningUp,
    /// The finalizer is being removed.
    RemovingFinalizer,
}

/// How far a reconciliation has come.
#[derive(Clone, Debug, PartialEq, Eq)]
pub enum Progress {
    /// `request` is to be made, and its answer handed back together with `phase`.
    Call { phase: Phase, request: Request },
    /// The reconciliation succeeded, and says when to run next.
    Done(Action),
    /// The reconciliation failed.
    Failed(Error),
}

/// The mathematical value of a [`Progress`].
pub enum ProgressView {
    Call { phase: Phase, request: RequestView },
    Done(Action),
    Failed(ErrorView),
}

impl DeepView for Progress {
    type V = ProgressView;

    open spec fn deep_view(&self) -> ProgressView {
        match self {
            Progress::Call { phase, request } => ProgressView::Call {
                phase: *phase,
                request: request@,
            },
            Progress::Done(action) => ProgressView::Done(*action),
            Progress::Failed(error) => ProgressView::Failed(error@),
        }
    }
}

impl View for Progress {
    type V = ProgressView;

    open spec fn view(&self) -> ProgressView {
        self.deep_view()
    }
}

} // verus!
