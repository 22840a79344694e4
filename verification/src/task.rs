//! Tasks: the addressable units of work, and the requests they carry.

use crate::error::{error_view, WorkerError, WorkerErrorView};
use crate::task_status::SkTaskStatus;
use crate::text::copy_string;
use crate::transaction_state::{
    stage_of, SoukTransactionState, TransactionStateView, FULL_PERCENTAGE,
};
use vstd::prelude::*;

verus! {

/// What a package operation does.
#[derive(Copy, Debug, Clone, Eq, PartialEq, Structural)]
pub enum FlatpakTaskKind {
    /// Install a ref from a configured remote.
    Install,
    /// Install what a reference file names.
    InstallRefFile,
    /// Install a bundle file.
    InstallBundleFile,
    /// Remove an installed ref.
    Uninstall,
    /// Update an installed ref.
    Update,
    /// No operation: a request of this kind is never run.
    Unset,
}

/// A package operation, as plain mathematical values.
pub struct FlatpakTaskView {
    pub kind: FlatpakTaskKind,
    pub installation_id: Seq<char>,
    pub ref_: Seq<char>,
    pub remote: Seq<char>,
    pub path: Seq<char>,
    pub no_update: bool,
}

/// A request for one package operation on one installation. Which of
/// `ref_`, `remote` and `path` matter depends on the kind; the others are
/// empty.
#[derive(Debug)]
pub struct FlatpakTask {
    pub kind: FlatpakTaskKind,
    /// The installation that the operation works on.
    pub installation_id: String,
    /// The ref to install, remove or update.
    pub ref_: String,
    /// The remote that an `Install` takes the ref from.
    pub remote: String,
    /// The bundle or reference file.
    pub path: String,
    /// Leave an installed copy alone rather than updating it.
    pub no_update: bool,
}

impl View for FlatpakTask {
    type V = FlatpakTaskView;

    open spec fn view(&self) -> FlatpakTaskView {
        FlatpakTaskView {
            kind: self.kind,
            installation_id: self.installation_id@,
            ref_: self.ref_@,
            remote: self.remote@,
            path: self.path@,
            no_update: self.no_update,
        }
    }
}

impl Clone for FlatpakTask {
    fn clone(&self) -> (copy: FlatpakTask)
        ensures
            copy@ == self@,
    {
        FlatpakTask {
            kind: self.kind,
            installation_id: copy_string(&self.installation_id),
            ref_: copy_string(&self.ref_),
            remote: copy_string(&self.remote),
            path: copy_string(&self.path),
            no_update: self.no_update,
        }
    }
}

impl FlatpakTask {
    /// The request to install `ref_` from the remote `remote`.
    pub fn install(ref_: String, remote: String, installation_id: String, no_update: bool) -> (task:
        FlatpakTask)
        ensures
            task@ == (FlatpakTaskView {
                kind: FlatpakTaskKind::Install,
                installation_id: installation_id@,
                ref_: ref_@,
                remote: remote@,
                path: Seq::empty(),
                no_update,
            }),
    {
        FlatpakTask {
            kind: FlatpakTaskKind::Install,
            installation_id,
            ref_,
            remote,
            path: String::new(),
            no_update,
        }
    }

    /// The request to install the bundle file at `path`.
    pub fn install_bundle(path: String, installation_id: String, no_update: bool) -> (task:
        FlatpakTask)
        ensures
            task@ == (FlatpakTaskView {
                kind: FlatpakTaskKind::InstallBundleFile,
                installation_id: installation_id@,
                ref_: Seq::empty(),
                remote: Seq::empty(),
                path: path@,
                no_update,
            }),
    {
        FlatpakTask {
            kind: FlatpakTaskKind::InstallBundleFile,
            installation_id,
            ref_: String::new(),
            remote: String::new(),
            path,
            no_update,
        }
    }

    /// The request to install what the reference file at `path` names.
    pub fn install_ref(path: String, installation_id: String, no_update: bool) -> (task:
        FlatpakTask)
        ensures
            task@ == (FlatpakTaskView {
                kind: FlatpakTaskKind::InstallRefFile,
                installation_id: installation_id@,
                ref_: Seq::empty(),
                remote: Seq::empty(),
                path: path@,
                no_update,
            }),
    {
        FlatpakTask {
            kind: FlatpakTaskKind::InstallRefFile,
            installation_id,
            ref_: String::new(),
            remote: String::new(),
            path,
            no_update,
        }
    }

    /// The request to remove `ref_`.
    pub fn uninstall(ref_: String, installation_id: String) -> (task: FlatpakTask)
        ensures
            task@ == (FlatpakTaskView {
                kind: FlatpakTaskKind::Uninstall,
                installation_id: installation_id@,
                ref_: ref_@,
                remote: Seq::empty(),
                path: Seq::empty(),
                no_update: false,
            }),
    {
        FlatpakTask {
            kind: FlatpakTaskKind::Uninstall,
            installation_id,
            ref_,
            remote: String::new(),
            path: String::new(),
            no_update: false,
        }
    }

    /// The request to update `ref_`.
    pub fn update(ref_: String, installation_id: String) -> (task: FlatpakTask)
        ensures
            task@ == (FlatpakTaskView {
                kind: FlatpakTaskKind::Update,
                installation_id: installation_id@,
                ref_: ref_@,
                remote: Seq::empty(),
                path: Seq::empty(),
                no_update: false,
            }),
    {
        FlatpakTask {
            kind: FlatpakTaskKind::Update,
            installation_id,
            ref_,
            remote: String::new(),
            path: String::new(),
            no_update: false,
        }
    }
}

/// What a metadata operation does.
#[derive(Copy, Debug, Clone, Eq, PartialEq, Structural)]
pub enum AppstreamTaskKind {
    Ensure,
    Update,
    Unset,
}

/// A request to refresh package metadata. The engine does not run it.
#[derive(Copy, Debug, Clone, Eq, PartialEq, Structural)]
pub struct AppstreamTask {
    pub kind: AppstreamTaskKind,
}

/// The data of a task, as plain mathematical values.
pub enum TaskKindView {
    Flatpak(FlatpakTaskView),
    Appstream(AppstreamTask),
}

/// The data of a task.
#[derive(Debug)]
pub enum TaskKind {
    Flatpak(Box<FlatpakTask>),
    Appstream(Box<AppstreamTask>),
}

impl View for TaskKind {
    type V = TaskKindView;

    open spec fn view(&self) -> TaskKindView {
        match self {
            TaskKind::Flatpak(task) => TaskKindView::Flatpak(task@),
            TaskKind::Appstream(task) => TaskKindView::Appstream(**task),
        }
    }
}

impl Clone for TaskKind {
    fn clone(&self) -> (copy: TaskKind)
        ensures
            copy@ == self@,
    {
        match self {
            TaskKind::Flatpak(task) => TaskKind::Flatpak(Box::new((**task).clone())),
            TaskKind::Appstream(task) => TaskKind::Appstream(Box::new(**task)),
        }
    }
}

/// A task, as plain mathematical values.
pub struct TaskView {
    pub uuid: Seq<char>,
    pub cancellable: bool,
    pub kind: TaskKindView,
}

/// One unit of work. The identifier is given when the task is created and
/// never changes; so is the `cancellable` flag.
#[derive(Debug)]
pub struct Task {
    /// The identifier by which the task is addressed, for example when it
    /// is to be cancelled.
    pub uuid: String,
    /// Whether the task can be cancelled.
    pub cancellable: bool,
    /// The actual task data.
    pub kind: TaskKind,
}

impl View for Task {
    type V = TaskView;

    open spec fn view(&self) -> TaskView {
        TaskView { uuid: self.uuid@, cancellable: self.cancellable, kind: self.kind@ }
    }
}

impl Clone for Task {
    fn clone(&self) -> (copy: Task)
        ensures
            copy@ == self@,
    {
        Task {
            uuid: copy_string(&self.uuid),
            cancellable: self.cancellable,
            kind: self.kind.clone(),
        }
    }
}

/// What the registry holds of a task, as plain mathematical values.
pub struct TaskRecordView {
    pub task: TaskView,
    pub status: SkTaskStatus,
    pub progress: TransactionStateView,
    pub cancel_requested: bool,
    pub failure: Option<WorkerErrorView>,
}

impl TaskRecordView {
    /// The latest percentage is within the whole, and the snapshot is in
    /// the stage that goes with the status. Only a task that can be
    /// cancelled has been asked to stop. A task that is done stands at the
    /// whole, and a task has failed exactly if an error is on record.
    pub open spec fn wf(self) -> bool {
        &&& self.progress.wf()
        &&& self.progress.mode == stage_of(self.status)
        &&& self.cancel_requested ==> self.task.cancellable
        &&& self.status == SkTaskStatus::Done ==> self.progress.percentage == Some(
            FULL_PERCENTAGE,
        )
        &&& self.failure is Some <==> self.status == SkTaskStatus::Error
    }

    /// The record of a task that has just been created: pending, nothing
    /// reported yet, not asked to stop.
    pub open spec fn created(task: TaskView) -> TaskRecordView {
        TaskRecordView {
            task,
            status: SkTaskStatus::Pending,
            progress: TransactionStateView::initial(),
            cancel_requested: false,
            failure: None,
        }
    }

    /// The record once work on the task has begun: a pending task is in
    /// preparation, any other stays where it is.
    pub open spec fn prepared(self) -> TaskRecordView {
        if self.status == SkTaskStatus::Pending {
            TaskRecordView { status: SkTaskStatus::Preparing, ..self }
        } else {
            self
        }
    }

    /// The record once the task has been asked to stop. The request is
    /// taken down only for a task that can be cancelled and is still
    /// active; any other record stays as it is.
    pub open spec fn cancelled(self) -> TaskRecordView {
        if self.task.cancellable && !self.status.completed() {
            TaskRecordView { cancel_requested: true, ..self }
        } else {
            self
        }
    }
}

/// What the registry holds of a task: the task, where it stands, the latest
/// progress snapshot, whether it has been asked to stop, and why it has
/// failed if it has.
#[derive(Debug)]
pub struct TaskRecord {
    pub task: Task,
    pub status: SkTaskStatus,
    pub progress: SoukTransactionState,
    pub cancel_requested: bool,
    pub failure: Option<WorkerError>,
}

impl View for TaskRecord {
    type V = TaskRecordView;

    open spec fn view(&self) -> TaskRecordView {
        TaskRecordView {
            task: self.task@,
            status: self.status,
            progress: self.progress@,
            cancel_requested: self.cancel_requested,
            failure: error_view(self.failure),
        }
    }
}

impl Clone for TaskRecord {
    fn clone(&self) -> (copy: TaskRecord)
        ensures
            copy@ == self@,
    {
        TaskRecord {
            task: self.task.clone(),
            status: self.status,
            progress: self.progress.clone(),
            cancel_requested: self.cancel_requested,
            failure: match &self.failure {
                Some(error) => Some(error.clone()),
                None => None,
            },
        }
    }
}

} // verus!
