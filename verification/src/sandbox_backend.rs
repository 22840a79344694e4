//! The backend that runs package operations outside the sandbox. It knows
//! the installations, owns the registry of tasks, accepts and refuses
//! transactions, and takes in what happens to their operations.

use crate::command_line::flatpak_args;
use crate::dry_run::{evaluate, outcome_view, DryRunResult, SideloadFile};
use crate::error::{WorkerError, WorkerErrorView};
use crate::executor::{notification_view, ExecutorStep, RunnerEvent};
use crate::installation::{
    find_installation, infos, installation_position, lemma_installation_position,
    InstallationInfo, InstallationInfoView, InstallationState,
};
use crate::registry::{RegistryView, TaskRegistry};
use crate::task::{
    FlatpakTask, FlatpakTaskKind, FlatpakTaskView, TaskKind, TaskKindView, TaskRecord,
    TaskRecordView,
};
use crate::task_status::SkTaskStatus;
use crate::text::{copy_string, texts};
use crate::transaction_backend::{BackendMessage, StartedTransaction, TransactionBackend};
use vstd::prelude::*;

verus! {

/// The backend as plain mathematical values: the installations it knows,
/// in the order in which it came to know them, and its registry of tasks.
pub struct BackendView {
    pub installations: Seq<InstallationInfoView>,
    pub registry: RegistryView,
}

impl BackendView {
    /// The backend that knows no installation and holds no task.
    pub open spec fn empty() -> BackendView {
        BackendView { installations: Seq::empty(), registry: RegistryView::empty() }
    }

    /// Whether the backend knows an installation with the identifier `id`.
    pub open spec fn knows_installation(self, id: Seq<char>) -> bool {
        installation_position(self.installations, id, 0) is Some
    }

    /// Why the backend refuses `transaction`, if it does: first for an
    /// installation that it does not know, then for an operation without a
    /// kind, and last for want of an identifier for the task.
    pub open spec fn refusal(self, transaction: FlatpakTaskView) -> Option<WorkerErrorView> {
        if !self.knows_installation(transaction.installation_id) {
            Some(WorkerErrorView::UnknownInstallation(transaction.installation_id))
        } else if transaction.kind == FlatpakTaskKind::Unset {
            Some(WorkerErrorView::UnsupportedOperation)
        } else if self.registry.issued >= u64::MAX {
            Some(WorkerErrorView::RegistryFull)
        } else {
            None
        }
    }

    /// The backend after it has accepted `transaction`: a task that can be
    /// cancelled has been created for it and is in preparation.
    pub open spec fn started(self, transaction: FlatpakTaskView) -> BackendView {
        BackendView {
            registry: self.registry.created(true, TaskKindView::Flatpak(transaction)).prepared(
                self.registry.next_uuid(),
            ),
            ..self
        }
    }
}

/// The backend that hands package operations to the host's package manager.
/// It knows the installations that operations may work on, and it owns the
/// registry of the tasks it has accepted.
pub struct SandboxBackend {
    installations: Vec<InstallationInfo>,
    registry: TaskRegistry,
}

impl View for SandboxBackend {
    type V = BackendView;

    closed spec fn view(&self) -> BackendView {
        BackendView { installations: infos(self.installations@), registry: self.registry@ }
    }
}

/// What the backend announces once a task stands as `record` says: that a
/// package has been installed after an installation or an update is done,
/// that one has been removed after a removal is done, and nothing before
/// the task is done or after it has failed or been cancelled.
pub open spec fn announcement(record: TaskRecordView) -> Option<BackendMessage> {
    if record.status == SkTaskStatus::Done {
        match record.task.kind {
            TaskKindView::Flatpak(task) => match task.kind {
                FlatpakTaskKind::Uninstall => Some(BackendMessage::Removed),
                FlatpakTaskKind::Unset => None,
                _ => Some(BackendMessage::Installed),
            },
            TaskKindView::Appstream(_) => None,
        }
    } else {
        None
    }
}

impl TransactionBackend for SandboxBackend {
    fn new() -> (backend: SandboxBackend)
        ensures
            backend@ == BackendView::empty(),
            backend@.registry.wf(),
    {
        let backend = SandboxBackend { installations: Vec::new(), registry: TaskRegistry::new() };
        assert(backend@.installations =~= Seq::<InstallationInfoView>::empty());
        backend
    }

    /// Accepts a transaction: creates a task for it that can be cancelled,
    /// puts the task into preparation, and words the command line of the
    /// operation. A transaction on an installation that the backend does
    /// not know, one without a kind, and one for which no identifier is
    /// left, is refused before any task exists for it, and the backend
    /// stays as it is.
    fn add_package_transaction(&mut self, transaction: FlatpakTask) -> (outcome: Result<
        StartedTransaction,
        WorkerError,
    >)
        ensures
            match outcome {
                Ok(started) => {
                    &&& old(self)@.refusal(transaction@) is None
                    &&& started.task@ == old(self)@.registry.next_task(
                        true,
                        TaskKindView::Flatpak(transaction@),
                    )
                    &&& texts(started.args@) == flatpak_args(transaction@)
                    &&& final(self)@ == old(self)@.started(transaction@)
                    &&& final(self)@.registry.wf()
                },
                Err(error) => old(self)@.refusal(transaction@) == Some(error@) && final(self)@
                    == old(self)@,
            },
    {
        if find_installation(&self.installations, transaction.installation_id.as_str()).is_none() {
            return Err(WorkerError::UnknownInstallation(transaction.installation_id));
        }
        if let FlatpakTaskKind::Unset = transaction.kind {
            return Err(WorkerError::UnsupportedOperation);
        }
        let args = Self::get_flatpak_args(&transaction);
        match self.registry.create(true, TaskKind::Flatpak(Box::new(transaction))) {
            Some(task) => {
                self.registry.prepare(task.uuid.as_str());
                Ok(StartedTransaction { task, args })
            },
            None => Err(WorkerError::RegistryFull),
        }
    }

    /// Asks the transaction of the task `uuid` to stop. The request is
    /// taken down for a task that can be cancelled and has not completed,
    /// and the executor answers it at the next line of output. For a task
    /// that has completed nothing changes, and asking again changes
    /// nothing more. A request for a task that cannot be cancelled is
    /// refused, as is one for a task that the backend does not hold.
    fn cancel_package_transaction(&mut self, uuid: &str) -> (outcome: Result<(), WorkerError>)
        ensures
            final(self)@ == (BackendView {
                registry: old(self)@.registry.cancelled(uuid@),
                ..old(self)@
            }),
            final(self)@.registry.wf(),
            match outcome {
                Ok(_) => old(self)@.registry.tasks.contains_key(uuid@) && old(
                    self,
                )@.registry.tasks[uuid@].task.cancellable,
                Err(error) => error@ == (if old(self)@.registry.tasks.contains_key(uuid@) {
                    WorkerErrorView::NotCancellable(uuid@)
                } else {
                    WorkerErrorView::UnknownTask(uuid@)
                }) && !(old(self)@.registry.tasks.contains_key(uuid@) && old(
                    self,
                )@.registry.tasks[uuid@].task.cancellable),
            },
    {
        self.registry.cancel(uuid)
    }
}

impl SandboxBackend {
    /// A backend without installations that takes over `registry` with the
    /// tasks it holds.
    pub fn with_registry(registry: TaskRegistry) -> (backend: SandboxBackend)
        ensures
            backend@ == (BackendView { installations: Seq::empty(), registry: registry@ }),
    {
        let backend = SandboxBackend { installations: Vec::new(), registry };
        assert(backend@.installations =~= Seq::<InstallationInfoView>::empty());
        backend
    }

    /// Makes an installation known to the backend, unless it knows one
    /// with the same identifier already.
    pub fn add_installation(&mut self, info: InstallationInfo) -> (added: bool)
        ensures
            added == !old(self)@.knows_installation(info@.id),
            final(self)@ == (BackendView {
                installations: if added {
                    old(self)@.installations.push(info@)
                } else {
                    old(self)@.installations
                },
                ..old(self)@
            }),
    {
        if find_installation(&self.installations, info.id.as_str()).is_some() {
            return false;
        }
        self.installations.push(info);
        assert(infos(self.installations@) =~= infos(old(self).installations@).push(info@));
        true
    }

    /// The installations that the backend knows.
    pub fn installations(&self) -> (list: Vec<InstallationInfo>)
        ensures
            infos(list@) == self@.installations,
    {
        let mut list: Vec<InstallationInfo> = Vec::new();
        let mut i: usize = 0;
        while i < self.installations.len()
            invariant
                i <= self.installations.len(),
                list@.len() == i,
                forall|j: int| 0 <= j < i ==> list@[j]@ == self.installations@[j]@,
            decreases self.installations.len() - i,
        {
            list.push(self.installations[i].clone());
            i += 1;
        }
        assert(infos(list@) =~= infos(self.installations@));
        list
    }

    /// The installation with the identifier `id`, if the backend knows it.
    pub fn installation_by_id(&self, id: &str) -> (found: Option<InstallationInfo>)
        ensures
            match found {
                Some(info) => installation_position(self@.installations, id@, 0) matches Some(at)
                    && info@ == self@.installations[at],
                None => !self@.knows_installation(id@),
            },
    {
        match find_installation(&self.installations, id) {
            Some(at) => {
                proof {
                    lemma_installation_position(self@.installations, id@, 0);
                }
                Some(self.installations[at].clone())
            },
            None => None,
        }
    }

    /// A copy of what the registry holds of the task `uuid`.
    pub fn task(&self, uuid: &str) -> (found: Option<TaskRecord>)
        ensures
            match found {
                Some(record) => self@.registry.tasks.contains_key(uuid@) && record@
                    == self@.registry.tasks[uuid@],
                None => !self@.registry.tasks.contains_key(uuid@),
            },
            self@.registry.wf(),
    {
        self.registry.lookup(uuid)
    }

    /// Hands an event of the operation to the task `uuid`. The task goes
    /// on as the executor says, and the outcome tells what to do with the
    /// operation and what to send out. Without such a task there is no
    /// outcome, and the backend stays as it is.
    pub fn handle_event(&mut self, uuid: &str, event: RunnerEvent) -> (outcome: Option<
        ExecutorStep,
    >)
        ensures
            final(self)@ == (BackendView {
                registry: old(self)@.registry.advanced(uuid@, event@),
                ..old(self)@
            }),
            final(self)@.registry.wf(),
            match outcome {
                Some(step) => {
                    &&& old(self)@.registry.tasks.contains_key(uuid@)
                    &&& step.action == old(self)@.registry.tasks[uuid@].action_after(event@)
                    &&& notification_view(step.notification) == old(
                        self,
                    )@.registry.tasks[uuid@].notification_after(event@)
                },
                None => !old(self)@.registry.tasks.contains_key(uuid@),
            },
    {
        self.registry.drive(uuid, event)
    }

    /// Drops the task `uuid` if it has completed.
    pub fn remove_if_terminal(&mut self, uuid: &str) -> (removed: bool)
        ensures
            removed == (old(self)@.registry.tasks.contains_key(uuid@) && old(
                self,
            )@.registry.tasks[uuid@].status.completed()),
            final(self)@ == (BackendView {
                registry: old(self)@.registry.evicted(uuid@),
                ..old(self)@
            }),
            final(self)@.registry.wf(),
    {
        self.registry.remove_if_terminal(uuid)
    }

    /// Previews what installing `file` into `installation` would do. The
    /// preview is refused for an installation that the backend does not
    /// know. Nothing is changed, and no task is created.
    pub fn dry_run(&self, file: &SideloadFile, installation: &InstallationState) -> (outcome:
        Result<DryRunResult, WorkerError>)
        ensures
            outcome_view(outcome) == (if self@.knows_installation(installation@.info.id) {
                file@.preview(installation@)
            } else {
                Err(WorkerErrorView::UnknownInstallation(installation@.info.id))
            }),
    {
        if find_installation(&self.installations, installation.info.id.as_str()).is_none() {
            return Err(WorkerError::UnknownInstallation(copy_string(&installation.info.id)));
        }
        evaluate(file, installation)
    }

    /// What the backend announces for a task that stands as `record` says.
    pub fn backend_message(record: &TaskRecord) -> (message: Option<BackendMessage>)
        ensures
            message == announcement(record@),
    {
        match record.status {
            SkTaskStatus::Done => match &record.task.kind {
                TaskKind::Flatpak(task) => match task.kind {
                    FlatpakTaskKind::Uninstall => Some(BackendMessage::Removed),
                    FlatpakTaskKind::Unset => None,
                    _ => Some(BackendMessage::Installed),
                },
                TaskKind::Appstream(_) => None,
            },
            _ => None,
        }
    }
}

} // verus!
