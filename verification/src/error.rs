//! What can go wrong in the worker.

use crate::text::copy_string;
use vstd::prelude::*;

verus! {

/// An error, as plain mathematical values.
pub enum WorkerErrorView {
    UnknownInstallation(Seq<char>),
    UnsupportedOperation,
    UnknownTask(Seq<char>),
    NotCancellable(Seq<char>),
    RegistryFull,
    Spawn(Seq<char>),
    DryRunRuntimeNotFound(Seq<char>),
    OperationFailed(Seq<char>),
}

/// An error of the worker. The first five reject a request before any work
/// is done for it; the others tell how work that was begun has failed.
#[derive(Debug)]
pub enum WorkerError {
    /// The request names an installation that the worker does not know.
    UnknownInstallation(String),
    /// The request asks for an operation that the worker does not run.
    UnsupportedOperation,
    /// The request names a task that the registry does not hold.
    UnknownTask(String),
    /// The request asks to cancel a task that cannot be cancelled.
    NotCancellable(String),
    /// The registry has given out every identifier it can form.
    RegistryFull,
    /// The external operation could not be started.
    Spawn(String),
    /// The runtime that a sideloaded package needs is not in the
    /// installation; the error carries the runtime.
    DryRunRuntimeNotFound(String),
    /// The external operation ended in failure.
    OperationFailed(String),
}

impl View for WorkerError {
    type V = WorkerErrorView;

    open spec fn view(&self) -> WorkerErrorView {
        match self {
            WorkerError::UnknownInstallation(id) => WorkerErrorView::UnknownInstallation(id@),
            WorkerError::UnsupportedOperation => WorkerErrorView::UnsupportedOperation,
            WorkerError::UnknownTask(uuid) => WorkerErrorView::UnknownTask(uuid@),
            WorkerError::NotCancellable(uuid) => WorkerErrorView::NotCancellable(uuid@),
            WorkerError::RegistryFull => WorkerErrorView::RegistryFull,
            WorkerError::Spawn(detail) => WorkerErrorView::Spawn(detail@),
            WorkerError::DryRunRuntimeNotFound(runtime) => WorkerErrorView::DryRunRuntimeNotFound(
                runtime@,
            ),
            WorkerError::OperationFailed(detail) => WorkerErrorView::OperationFailed(detail@),
        }
    }
}

impl Clone for WorkerError {
    fn clone(&self) -> (copy: WorkerError)
        ensures
            copy@ == self@,
    {
        match self {
            WorkerError::UnknownInstallation(id) => WorkerError::UnknownInstallation(
                copy_string(id),
            ),
            WorkerError::UnsupportedOperation => WorkerError::UnsupportedOperation,
            WorkerError::UnknownTask(uuid) => WorkerError::UnknownTask(copy_string(uuid)),
            WorkerError::NotCancellable(uuid) => WorkerError::NotCancellable(copy_string(uuid)),
            WorkerError::RegistryFull => WorkerError::RegistryFull,
            WorkerError::Spawn(detail) => WorkerError::Spawn(copy_string(detail)),
            WorkerError::DryRunRuntimeNotFound(runtime) => WorkerError::DryRunRuntimeNotFound(
                copy_string(runtime),
            ),
            WorkerError::OperationFailed(detail) => WorkerError::OperationFailed(
                copy_string(detail),
            ),
        }
    }
}

/// The view of an error that may be missing.
pub open spec fn error_view(error: Option<WorkerError>) -> Option<WorkerErrorView> {
    match error {
        Some(e) => Some(e@),
        None => None,
    }
}

impl WorkerErrorView {
    /// Whether the error rejects a request before a task exists for it.
    pub open spec fn rejects_request(self) -> bool {
        self is UnknownInstallation || self is UnsupportedOperation || self is UnknownTask
            || self is NotCancellable || self is RegistryFull
    }
}

impl WorkerError {
    /// Whether the error rejects a request before a task exists for it.
    pub fn is_request_error(&self) -> (rejects: bool)
        ensures
            rejects == self@.rejects_request(),
    {
        match self {
            WorkerError::UnknownInstallation(_)
            | WorkerError::UnsupportedOperation
            | WorkerError::UnknownTask(_)
            | WorkerError::NotCancellable(_)
            | WorkerError::RegistryFull => true,
            _ => false,
        }
    }

    /// The text that the error carries: the installation, the task, the
    /// runtime, or the detail of the failure; empty where it carries none.
    pub fn message(&self) -> (text: String)
        ensures
            text@ == match self@ {
                WorkerErrorView::UnknownInstallation(id) => id,
                WorkerErrorView::UnknownTask(uuid) => uuid,
                WorkerErrorView::NotCancellable(uuid) => uuid,
                WorkerErrorView::Spawn(detail) => detail,
                WorkerErrorView::DryRunRuntimeNotFound(runtime) => runtime,
                WorkerErrorView::OperationFailed(detail) => detail,
                _ => Seq::<char>::empty(),
            },
    {
        match self {
            WorkerError::UnknownInstallation(id) => copy_string(id),
            WorkerError::UnknownTask(uuid) => copy_string(uuid),
            WorkerError::NotCancellable(uuid) => copy_string(uuid),
            WorkerError::Spawn(detail) => copy_string(detail),
            WorkerError::DryRunRuntimeNotFound(runtime) => copy_string(runtime),
            WorkerError::OperationFailed(detail) => copy_string(detail),
            _ => String::new(),
        }
    }
}

} // verus!
