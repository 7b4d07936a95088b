//! Why a reconciliation failed.

use vstd::prelude::*;

verus! {

/// HTTP status of a resource that does not exist.
pub const NOT_FOUND: u16 = 404;

/// HTTP status of a write that lost against a concurrent writer.
pub const CONFLICT: u16 = 409;

/// HTTP status of a request that the caller may not make.
pub const FORBIDDEN: u16 = 403;

/// A failed call to the cluster API.
#[derive(Clone, Debug, PartialEq, Eq)]
pub enum KubeError {
    /// The API server answered with an error status.
    Api { code: u16, reason: String, message: String },
    /// No answer could be had or read: the transport failed, timed out, or the answer was
    /// not understood.
    Transport(String),
}

/// The mathematical value of a [`KubeError`].
pub enum KubeErrorView {
    Api { code: u16, reason: Seq<char>, message: Seq<char> },
    Transport(Seq<char>),
}

impl DeepView for KubeError {
    type V = KubeErrorView;

    open spec fn deep_view(&self) -> KubeErrorView {
        match self {
            KubeError::Api { code, reason, message } => KubeErrorView::Api {
                code: *code,
                reason: reason@,
                message: message@,
            },
            KubeError::Transport(message) => KubeErrorView::Transport(message@),
        }
    }
}

impl View for KubeError {
    type V = KubeErrorView;

    open spec fn view(&self) -> KubeErrorView {
        self.deep_view()
    }
}

impl KubeErrorView {
    /// Whether the API server answered with status `code`.
    pub open spec fn has_code(self, code: u16) -> bool {
        self matches KubeErrorView::Api { code: c, .. } && c == code
    }

    /// Whether the API server said that the resource does not exist.
    pub open spec fn is_not_found(self) -> bool {
        self.has_code(NOT_FOUND)
    }

    /// Whether the API server rejected a write that raced with another writer.
    pub open spec fn is_conflict(self) -> bool {
        self.has_code(CONFLICT)
    }

    /// Whether the API server refused the request for want of permission.
    pub open spec fn is_forbidden(self) -> bool {
        self.has_code(FORBIDDEN)
    }
}

impl KubeError {
    /// Whether the API server said that the resource does not exist.
    pub fn is_not_found(&self) -> (absent: bool)
        ensures
            absent == self@.is_not_found(),
    {
        match self {
            KubeError::Api { code, .. } => *code == NOT_FOUND,
            KubeError::Transport(_) => false,
        }
    }

    /// Whether the API server rejected a write that raced with another writer.
    pub fn is_conflict(&self) -> (conflict: bool)
        ensures
            conflict == self@.is_conflict(),
    {
        match self {
            KubeError::Api { code, .. } => *code == CONFLICT,
            KubeError::Transport(_) => false,
        }
    }

    /// Whether the API server refused the request for want of permission.
    pub fn is_forbidden(&self) -> (forbidden: bool)
        ensures
            forbidden == self@.is_forbidden(),
    {
        match self {
            KubeError::Api { code, .. } => *code == FORBIDDEN,
            KubeError::Transport(_) => false,
        }
    }
}

/// Why the work of a branch, apply or cleanup, failed.
#[derive(Clone, Debug, PartialEq, Eq)]
pub enum BranchError {
    /// A resource came in a shape that the controller cannot read.
    SerializationError(String),
    /// A call to the cluster API failed.
    KubeError(KubeError),
}

/// The mathematical value of a [`BranchError`].
pub enum BranchErrorView {
    SerializationError(Seq<char>),
    KubeError(KubeErrorView),
}

impl DeepView for BranchError {
    type V = BranchErrorView;

    open spec fn deep_view(&self) -> BranchErrorView {
        match self {
            BranchError::SerializationError(message) => BranchErrorView::SerializationError(
                message@,
            ),
            BranchError::KubeError(e) => BranchErrorView::KubeError(e@),
        }
    }
}

impl View for BranchError {
    type V = BranchErrorView;

    open spec fn view(&self) -> BranchErrorView {
        self.deep_view()
    }
}

/// A failure of the finalizer protocol: of the work it guards, or of its own bookkeeping.
#[derive(Clone, Debug, PartialEq, Eq)]
pub enum FinalizerError {
    /// Bringing the managed resource in line with the declared one failed.
    ApplyFailed(BranchError),
    /// Removing the managed resource failed; the finalizer stays.
    CleanupFailed(BranchError),
    /// The finalizer could not be added.
    AddFinalizer(KubeError),
    /// The finalizer could not be removed.
    RemoveFinalizer(KubeError),
    /// The resource to patch has no name.
    UnnamedObject,
    /// The position of the finalizer could not be addressed.
    InvalidFinalizer,
}

/// The mathematical value of a [`FinalizerError`].
pub enum FinalizerErrorView {
    ApplyFailed(BranchErrorView),
    CleanupFailed(BranchErrorView),
    AddFinalizer(KubeErrorView),
    RemoveFinalizer(KubeErrorView),
    UnnamedObject,
    InvalidFinalizer,
}

impl DeepView for FinalizerError {
    type V = FinalizerErrorView;

    open spec fn deep_view(&self) -> FinalizerErrorView {
        match self {
            FinalizerError::ApplyFailed(e) => FinalizerErrorView::ApplyFailed(e@),
            FinalizerError::CleanupFailed(e) => FinalizerErrorView::CleanupFailed(e@),
            FinalizerError::AddFinalizer(e) => FinalizerErrorView::AddFinalizer(e@),
            FinalizerError::RemoveFinalizer(e) => FinalizerErrorView::RemoveFinalizer(e@),
            FinalizerError::UnnamedObject => FinalizerErrorView::UnnamedObject,
            FinalizerError::InvalidFinalizer => FinalizerErrorView::InvalidFinalizer,
        }
    }
}

impl View for FinalizerError {
    type V = FinalizerErrorView;

    open spec fn view(&self) -> FinalizerErrorView {
        self.deep_view()
    }
}

/// A failed reconciliation.
#[derive(Clone, Debug, PartialEq, Eq)]
pub enum Error {
    /// A resource came in a shape that the controller cannot read.
    SerializationError(String),
    /// A call to the cluster API failed.
    KubeError(KubeError),
    /// The finalizer protocol failed.
    FinalizerError(Box<FinalizerError>),
}

/// The mathematical value of an [`Error`].
pub enum ErrorView {
    SerializationError(Seq<char>),
    KubeError(KubeErrorView),
    FinalizerError(FinalizerErrorView),
}

impl DeepView for Error {
    type V = ErrorView;

    open spec fn deep_view(&self) -> ErrorView {
        match self {
            Error::SerializationError(message) => ErrorView::SerializationError(message@),
            Error::KubeError(e) => ErrorView::KubeError(e@),
            Error::FinalizerError(e) => ErrorView::FinalizerError(e@),
        }
    }
}

impl View for Error {
    type V = ErrorView;

    open spec fn view(&self) -> ErrorView {
        self.deep_view()
    }
}

impl From<KubeError> for Error {
    fn from(error: KubeError) -> (wrapped: Error) {
        Error::KubeError(error)
    }
}

impl vstd::std_specs::convert::FromSpecImpl<KubeError> for Error {
    open spec fn obeys_from_spec() -> bool {
        true
    }

    open spec fn from_spec(error: KubeError) -> Error {
        Error::KubeError(error)
    }
}

impl From<Box<FinalizerError>> for Error {
    fn from(error: Box<FinalizerError>) -> (wrapped: Error) {
        Error::FinalizerError(error)
    }
}

impl vstd::std_specs::convert::FromSpecImpl<Box<FinalizerError>> for Error {
    open spec fn obeys_from_spec() -> bool {
        true
    }

    open spec fn from_spec(error: Box<FinalizerError>) -> Error {
        Error::FinalizerError(error)
    }
}

} // verus!
