//! The executor of a transaction: what a task does with each thing that
//! happens to the external operation behind it. The caller starts the
//! operation, reads its output and reports what happened; the functions
//! here decide how the task goes on.

use crate::error::{error_view, WorkerError, WorkerErrorView};
use crate::progress_parser::parsed_line;
use crate::sandbox_backend::SandboxBackend;
use crate::task::{FlatpakTaskKind, TaskKind, TaskKindView, TaskRecord, TaskRecordView};
use crate::task_status::SkTaskStatus;
use crate::text::copy_string;
use crate::transaction_state::{
    SoukTransactionMode, SoukTransactionState, TransactionStateView, FULL_PERCENTAGE,
};
use vstd::prelude::*;

verus! {

/// Something that happened to an operation, as plain mathematical values.
pub enum RunnerEventView {
    Spawned,
    SpawnFailed(Seq<char>),
    Line(Seq<char>),
    Exited { success: bool, detail: Seq<char> },
}

/// Something that happened to the external operation of a task.
#[derive(Debug)]
pub enum RunnerEvent {
    /// The operation has been started.
    Spawned,
    /// The operation could not be started; the text says why.
    SpawnFailed(String),
    /// The operation has printed a line.
    Line(String),
    /// The output has ended and the operation has exited, with success or
    /// without; the text describes a failure.
    Exited { success: bool, detail: String },
}

impl View for RunnerEvent {
    type V = RunnerEventView;

    open spec fn view(&self) -> RunnerEventView {
        match self {
            RunnerEvent::Spawned => RunnerEventView::Spawned,
            RunnerEvent::SpawnFailed(detail) => RunnerEventView::SpawnFailed(detail@),
            RunnerEvent::Line(line) => RunnerEventView::Line(line@),
            RunnerEvent::Exited { success, detail } => RunnerEventView::Exited {
                success: *success,
                detail: detail@,
            },
        }
    }
}

impl Clone for RunnerEvent {
    fn clone(&self) -> (copy: RunnerEvent)
        ensures
            copy@ == self@,
    {
        match self {
            RunnerEvent::Spawned => RunnerEvent::Spawned,
            RunnerEvent::SpawnFailed(detail) => RunnerEvent::SpawnFailed(copy_string(detail)),
            RunnerEvent::Line(line) => RunnerEvent::Line(copy_string(line)),
            RunnerEvent::Exited { success, detail } => RunnerEvent::Exited {
                success: *success,
                detail: copy_string(detail),
            },
        }
    }
}

impl RunnerEventView {
    /// Whether the event is the last that an operation gives rise to.
    pub open spec fn ends_operation(self) -> bool {
        self is SpawnFailed || self is Exited
    }
}

/// What the caller does with the operation after an event.
#[derive(Copy, Debug, Clone, Eq, PartialEq, Structural)]
pub enum RunnerAction {
    /// Read the next line of output.
    ReadLine,
    /// Kill the operation and read no further.
    Terminate,
    /// Nothing is left to do.
    Stop,
}

/// A notification, as plain mathematical values.
pub struct TaskNotificationView {
    pub uuid: Seq<char>,
    pub status: SkTaskStatus,
    pub state: TransactionStateView,
    pub error: Option<WorkerErrorView>,
}

/// What is sent to those who follow a task: where the task stands now, its
/// latest snapshot, and the error if the task has failed. A notification
/// with a completed status is the last one of its task.
#[derive(Debug)]
pub struct TaskNotification {
    pub uuid: String,
    pub status: SkTaskStatus,
    pub state: SoukTransactionState,
    pub error: Option<WorkerError>,
}

impl View for TaskNotification {
    type V = TaskNotificationView;

    open spec fn view(&self) -> TaskNotificationView {
        TaskNotificationView {
            uuid: self.uuid@,
            status: self.status,
            state: self.state@,
            error: error_view(self.error),
        }
    }
}

/// The outcome of one event: what to do with the operation, and what to
/// send out.
#[derive(Debug)]
pub struct ExecutorStep {
    pub action: RunnerAction,
    pub notification: Option<TaskNotification>,
}

/// The notification of an outcome, as plain mathematical values.
pub open spec fn notification_view(notification: Option<TaskNotification>) -> Option<
    TaskNotificationView,
> {
    match notification {
        Some(n) => Some(n@),
        None => None,
    }
}

/// The status of a task while its operation runs; none for a task whose
/// kind has no operation.
pub open spec fn running_status(kind: TaskKindView) -> Option<SkTaskStatus> {
    match kind {
        TaskKindView::Flatpak(task) => match task.kind {
            FlatpakTaskKind::Install => Some(SkTaskStatus::Installing),
            FlatpakTaskKind::InstallRefFile => Some(SkTaskStatus::Installing),
            FlatpakTaskKind::InstallBundleFile => Some(SkTaskStatus::InstallingBundle),
            FlatpakTaskKind::Uninstall => Some(SkTaskStatus::Uninstalling),
            FlatpakTaskKind::Update => Some(SkTaskStatus::Updating),
            FlatpakTaskKind::Unset => None,
        },
        TaskKindView::Appstream(_) => None,
    }
}

impl TransactionStateView {
    /// The snapshot that follows this one when a line of output has been
    /// read as `read`: the stage, message and download rate of `read`, and
    /// its percentage if it has one, else the percentage held so far.
    pub open spec fn followed_by(self, read: TransactionStateView) -> TransactionStateView {
        TransactionStateView {
            message: read.message,
            percentage: if read.percentage is Some {
                read.percentage
            } else {
                self.percentage
            },
            mode: read.mode,
            operation_index: self.operation_index,
            operation_count: self.operation_count,
            download_rate: read.download_rate,
        }
    }

    /// The snapshot that closes this one in the stage `mode` with the
    /// message `message`; the percentage held so far stays.
    pub open spec fn closed_with(self, mode: SoukTransactionMode, message: Seq<char>)
        -> TransactionStateView {
        TransactionStateView { message, mode, ..self }
    }
}

impl TaskRecordView {
    /// The record of the task once it has failed with `error`: the text of
    /// the error is the message of the last snapshot.
    pub open spec fn failed(self, error: WorkerErrorView, detail: Seq<char>) -> TaskRecordView {
        TaskRecordView {
            status: SkTaskStatus::Error,
            progress: self.progress.closed_with(SoukTransactionMode::Error, detail),
            failure: Some(error),
            ..self
        }
    }

    /// The record of the task once it has been cancelled.
    pub open spec fn stopped(self) -> TaskRecordView {
        TaskRecordView {
            status: SkTaskStatus::Cancelled,
            progress: self.progress.closed_with(SoukTransactionMode::Cancelled, Seq::empty()),
            ..self
        }
    }

    /// The record of the task once it is done: at the whole, with nothing
    /// more to say.
    pub open spec fn finished(self) -> TaskRecordView {
        TaskRecordView {
            status: SkTaskStatus::Done,
            progress: TransactionStateView {
                message: Seq::empty(),
                percentage: Some(FULL_PERCENTAGE),
                mode: SoukTransactionMode::Finished,
                download_rate: None,
                ..self.progress
            },
            ..self
        }
    }

    /// The record after `event`. A completed record never changes. An
    /// active task whose kind has no operation fails as unsupported,
    /// whatever the event. For any other active task:
    /// - a started operation puts the task into its running status;
    /// - an operation that could not be started fails the task, with the
    ///   reason as the message;
    /// - a line of output cancels the task if it has been asked to stop,
    ///   and else becomes the task's latest snapshot;
    /// - the end of the operation completes the task: done, at the whole,
    ///   after a success; cancelled after a failure that followed a request
    ///   to stop; failed, with the detail as the message, after any other
    ///   failure.
    pub open spec fn advanced(self, event: RunnerEventView) -> TaskRecordView {
        if self.status.completed() {
            self
        } else {
            match running_status(self.task.kind) {
                None => self.failed(WorkerErrorView::UnsupportedOperation, Seq::empty()),
                Some(running) => match event {
                    RunnerEventView::Spawned => TaskRecordView {
                        status: running,
                        progress: self.progress.closed_with(
                            SoukTransactionMode::Running,
                            self.progress.message,
                        ),
                        ..self
                    },
                    RunnerEventView::SpawnFailed(detail) => self.failed(
                        WorkerErrorView::Spawn(detail),
                        detail,
                    ),
                    RunnerEventView::Line(line) => if self.cancel_requested {
                        self.stopped()
                    } else {
                        TaskRecordView {
                            status: running,
                            progress: self.progress.followed_by(parsed_line(line)),
                            ..self
                        }
                    },
                    RunnerEventView::Exited { success, detail } => if success {
                        self.finished()
                    } else if self.cancel_requested {
                        self.stopped()
                    } else {
                        self.failed(WorkerErrorView::OperationFailed(detail), detail)
                    },
                },
            }
        }
    }

    /// What the caller does with the operation after `event`: it reads on
    /// while the task runs, kills the operation when a line finds the task
    /// asked to stop or a running operation turns out to belong to a task
    /// without one, and is done in every other case.
    pub open spec fn action_after(self, event: RunnerEventView) -> RunnerAction {
        if self.status.completed() {
            RunnerAction::Stop
        } else if running_status(self.task.kind) is None {
            if event.ends_operation() {
                RunnerAction::Stop
            } else {
                RunnerAction::Terminate
            }
        } else {
            match event {
                RunnerEventView::Spawned => RunnerAction::ReadLine,
                RunnerEventView::Line(_) => if self.cancel_requested {
                    RunnerAction::Terminate
                } else {
                    RunnerAction::ReadLine
                },
                _ => RunnerAction::Stop,
            }
        }
    }

    /// What this record tells those who follow the task.
    pub open spec fn notification(self) -> TaskNotificationView {
        TaskNotificationView {
            uuid: self.task.uuid,
            status: self.status,
            state: self.progress,
            error: self.failure,
        }
    }

    /// What is sent out after `event`: the new state of an active task,
    /// and nothing for a task that had completed before.
    pub open spec fn notification_after(self, event: RunnerEventView) -> Option<
        TaskNotificationView,
    > {
        if self.status.completed() {
            None
        } else {
            Some(self.advanced(event).notification())
        }
    }
}

/// The status of a task of the kind `kind` while its operation runs.
pub fn running_status_of(kind: &TaskKind) -> (status: Option<SkTaskStatus>)
    ensures
        status == running_status(kind@),
{
    match kind {
        TaskKind::Flatpak(task) => match task.kind {
            FlatpakTaskKind::Install => Some(SkTaskStatus::Installing),
            FlatpakTaskKind::InstallRefFile => Some(SkTaskStatus::Installing),
            FlatpakTaskKind::InstallBundleFile => Some(SkTaskStatus::InstallingBundle),
            FlatpakTaskKind::Uninstall => Some(SkTaskStatus::Uninstalling),
            FlatpakTaskKind::Update => Some(SkTaskStatus::Updating),
            FlatpakTaskKind::Unset => None,
        },
        TaskKind::Appstream(_) => None,
    }
}

/// Puts a record into the state of a failed task.
fn fail(record: &mut TaskRecord, error: WorkerError, detail: String)
    ensures
        final(record)@ == old(record)@.failed(error@, detail@),
{
    record.status = SkTaskStatus::Error;
    record.progress.mode = SoukTransactionMode::Error;
    record.progress.message = detail;
    record.failure = Some(error);
}

/// Puts a record into the state of a cancelled task.
fn stop(record: &mut TaskRecord)
    ensures
        final(record)@ == old(record)@.stopped(),
{
    record.status = SkTaskStatus::Cancelled;
    record.progress.mode = SoukTransactionMode::Cancelled;
    record.progress.message = String::new();
}

/// Takes one event into a record. The record changes as `advanced` says;
/// the outcome tells the caller what to do with the operation and what to
/// send out.
pub fn advance(record: &mut TaskRecord, event: RunnerEvent) -> (step: ExecutorStep)
    requires
        old(record)@.wf(),
    ensures
        final(record)@ == old(record)@.advanced(event@),
        final(record)@.wf(),
        step.action == old(record)@.action_after(event@),
        notification_view(step.notification) == old(record)@.notification_after(event@),
{
    if record.status.is_completed() {
        return ExecutorStep { action: RunnerAction::Stop, notification: None };
    }
    let action = match running_status_of(&record.task.kind) {
        None => {
            let ends = match event {
                RunnerEvent::SpawnFailed(_) => true,
                RunnerEvent::Exited { .. } => true,
                _ => false,
            };
            fail(record, WorkerError::UnsupportedOperation, String::new());
            if ends {
                RunnerAction::Stop
            } else {
                RunnerAction::Terminate
            }
        },
        Some(running) => match event {
            RunnerEvent::Spawned => {
                record.status = running;
                record.progress.mode = SoukTransactionMode::Running;
                RunnerAction::ReadLine
            },
            RunnerEvent::SpawnFailed(detail) => {
                let error = WorkerError::Spawn(copy_string(&detail));
                fail(record, error, detail);
                RunnerAction::Stop
            },
            RunnerEvent::Line(line) => {
                if record.cancel_requested {
                    stop(record);
                    RunnerAction::Terminate
                } else {
                    let read = SandboxBackend::parse_line(line);
                    record.status = running;
                    record.progress.mode = read.mode;
                    record.progress.message = read.message;
                    record.progress.download_rate = read.download_rate;
                    if read.percentage.is_some() {
                        record.progress.percentage = read.percentage;
                    }
                    RunnerAction::ReadLine
                }
            },
            RunnerEvent::Exited { success, detail } => {
                if success {
                    record.status = SkTaskStatus::Done;
                    record.progress.mode = SoukTransactionMode::Finished;
                    record.progress.message = String::new();
                    record.progress.percentage = Some(FULL_PERCENTAGE);
                    record.progress.download_rate = None;
                } else if record.cancel_requested {
                    stop(record);
                } else {
                    let error = WorkerError::OperationFailed(copy_string(&detail));
                    fail(record, error, detail);
                }
                RunnerAction::Stop
            },
        },
    };
    let notification = TaskNotification {
        uuid: copy_string(&record.task.uuid),
        status: record.status,
        state: record.progress.clone(),
        error: match &record.failure {
            Some(error) => Some(error.clone()),
            None => None,
        },
    };
    ExecutorStep { action, notification: Some(notification) }
}

/// One thing that can happen to a task: the beginning of work on it, a
/// request to stop it, or an event of its operation.
pub enum TaskInput {
    Prepare,
    Cancel,
    Event(RunnerEventView),
}

impl TaskRecordView {
    /// The record after `input`.
    pub open spec fn fed(self, input: TaskInput) -> TaskRecordView {
        match input {
            TaskInput::Prepare => self.prepared(),
            TaskInput::Cancel => self.cancelled(),
            TaskInput::Event(event) => self.advanced(event),
        }
    }

    /// What is sent out after `input`. Only an event of the operation
    /// sends anything: a request to stop is answered at the next line of
    /// output.
    pub open spec fn sent(self, input: TaskInput) -> Option<TaskNotificationView> {
        match input {
            TaskInput::Event(event) => self.notification_after(event),
            _ => None,
        }
    }

    /// The record after all of `inputs`, taken in their order.
    pub open spec fn after(self, inputs: Seq<TaskInput>) -> TaskRecordView
        decreases inputs.len(),
    {
        if inputs.len() == 0 {
            self
        } else {
            self.after(inputs.drop_last()).fed(inputs.last())
        }
    }

    /// Everything that is sent out while `inputs` are taken, in the order
    /// in which it is sent.
    pub open spec fn notifications(self, inputs: Seq<TaskInput>) -> Seq<TaskNotificationView>
        decreases inputs.len(),
    {
        if inputs.len() == 0 {
            Seq::empty()
        } else {
            let earlier = self.notifications(inputs.drop_last());
            match self.after(inputs.drop_last()).sent(inputs.last()) {
                Some(notification) => earlier.push(notification),
                None => earlier,
            }
        }
    }
}

/// Once a task has completed, nothing moves it and nothing more is sent:
/// neither an event nor a request to stop changes the record, and no
/// notification follows.
pub proof fn lemma_completed_task_is_final(record: TaskRecordView, input: TaskInput)
    requires
        record.status.completed(),
    ensures
        record.fed(input) == record,
        record.sent(input) is None,
{
}

/// Whatever happens to a task, the task itself stays the same: its
/// identifier, its `cancellable` flag and its request. A well-formed record
/// stays well-formed.
pub proof fn lemma_task_is_stable(record: TaskRecordView, input: TaskInput)
    ensures
        record.fed(input).task == record.task,
        record.wf() ==> record.fed(input).wf(),
{
}

/// A request to stop a task that cannot be cancelled, or one that has
/// completed, changes nothing; and asking twice is asking once.
pub proof fn lemma_cancel_is_idempotent(record: TaskRecordView)
    ensures
        !record.task.cancellable ==> record.cancelled() == record,
        record.status.completed() ==> record.cancelled() == record,
        record.cancelled().cancelled() == record.cancelled(),
{
}

/// At most one notification of a task carries a completed status, and none
/// follows it. It has been sent exactly when the task has completed.
pub proof fn lemma_one_completion(record: TaskRecordView, inputs: Seq<TaskInput>)
    requires
        !record.status.completed(),
    ensures
        forall|i: int|
            0 <= i < record.notifications(inputs).len() && (
            #[trigger] record.notifications(inputs)[i]).status.completed() ==> i
                == record.notifications(inputs).len() - 1,
        record.after(inputs).status.completed() <==> record.notifications(inputs).len() > 0
            && record.notifications(inputs).last().status.completed(),
    decreases inputs.len(),
{
    if inputs.len() > 0 {
        let earlier = inputs.drop_last();
        lemma_one_completion(record, earlier);
        let before = record.after(earlier);
        let sent_before = record.notifications(earlier);
        let sent = record.notifications(inputs);
        if before.status.completed() {
            lemma_completed_task_is_final(before, inputs.last());
            assert(sent == sent_before);
        } else {
            match before.sent(inputs.last()) {
                Some(notification) => {
                    assert(sent == sent_before.push(notification));
                    assert forall|i: int|
                        0 <= i < sent.len() && (#[trigger] sent[i]).status.completed() implies i
                        == sent.len() - 1 by {
                        if i < sent_before.len() {
                            assert(sent[i] == sent_before[i]);
                        }
                    }
                },
                None => {
                    assert(sent == sent_before);
                },
            }
        }
    }
}

/// The end of the operation completes the task: once the inputs hold an
/// event that ends the operation, the task has completed, whatever else
/// has happened before or after.
pub proof fn lemma_operation_end_completes(
    record: TaskRecordView,
    inputs: Seq<TaskInput>,
    at: int,
)
    requires
        0 <= at < inputs.len(),
        inputs[at] matches TaskInput::Event(event) && event.ends_operation(),
    ensures
        record.after(inputs).status.completed(),
    decreases inputs.len(),
{
    let earlier = inputs.drop_last();
    let before = record.after(earlier);
    if at < inputs.len() - 1 {
        assert(earlier[at] == inputs[at]);
        lemma_operation_end_completes(record, earlier, at);
        lemma_completed_task_is_final(before, inputs.last());
    }
}

/// Every task that runs to the end of its operation sends exactly one
/// notification with a completed status, as the last of all.
pub proof fn lemma_exactly_one_completion(
    record: TaskRecordView,
    inputs: Seq<TaskInput>,
    at: int,
)
    requires
        !record.status.completed(),
        0 <= at < inputs.len(),
        inputs[at] matches TaskInput::Event(event) && event.ends_operation(),
    ensures
        record.notifications(inputs).len() > 0,
        record.notifications(inputs).last().status.completed(),
        forall|i: int|
            0 <= i < record.notifications(inputs).len() - 1 ==> !(
            #[trigger] record.notifications(inputs)[i]).status.completed(),
{
    lemma_one_completion(record, inputs);
    lemma_operation_end_completes(record, inputs, at);
}

/// The caller reads on exactly as long as the task is active: after an
/// event that leaves the task active it is told to read the next line, and
/// after an event that completes the task, or finds it completed, it is
/// told to stop or to kill the operation.
pub proof fn lemma_reading_stops_at_completion(record: TaskRecordView, event: RunnerEventView)
    ensures
        record.action_after(event) == RunnerAction::ReadLine <==> !record.advanced(
            event,
        ).status.completed(),
        record.action_after(event) == RunnerAction::Terminate ==> !event.ends_operation(),
{
}

/// The events of a script as inputs of a task.
pub open spec fn inputs_of(events: Seq<RunnerEvent>) -> Seq<TaskInput> {
    Seq::new(events.len(), |i: int| TaskInput::Event(events[i]@))
}

/// The views of a list of notifications.
pub open spec fn notification_views(sent: Seq<TaskNotification>) -> Seq<TaskNotificationView> {
    Seq::new(sent.len(), |i: int| sent[i]@)
}

/// Takes a script of events into a record, one after the other, as an
/// operation would give rise to them, and gathers what is sent out.
pub fn replay(record: &mut TaskRecord, events: &Vec<RunnerEvent>) -> (sent: Vec<TaskNotification>)
    requires
        old(record)@.wf(),
    ensures
        final(record)@ == old(record)@.after(inputs_of(events@)),
        final(record)@.wf(),
        notification_views(sent@) == old(record)@.notifications(inputs_of(events@)),
{
    let ghost start = record@;
    let ghost inputs = inputs_of(events@);
    let mut sent: Vec<TaskNotification> = Vec::new();
    let mut i: usize = 0;
    assert(inputs.take(0) =~= Seq::<TaskInput>::empty());
    assert(notification_views(sent@) =~= Seq::<TaskNotificationView>::empty());
    while i < events.len()
        invariant
            i <= events.len(),
            inputs == inputs_of(events@),
            record@ == start.after(inputs.take(i as int)),
            record@.wf(),
            notification_views(sent@) == start.notifications(inputs.take(i as int)),
        decreases events.len() - i,
    {
        let ghost before = record@;
        let ghost sent_before = notification_views(sent@);
        let step = advance(record, events[i].clone());
        proof {
            assert(inputs.take(i + 1).drop_last() =~= inputs.take(i as int));
            assert(inputs.take(i + 1).last() == TaskInput::Event(events@[i as int]@));
        }
        match step.notification {
            Some(notification) => {
                sent.push(notification);
                assert(notification_views(sent@) =~= sent_before.push(notification@));
            },
            None => {},
        }
        i += 1;
    }
    assert(inputs.take(events.len() as int) =~= inputs);
    sent
}

} // verus!
