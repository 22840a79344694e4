//! The registry of tasks: the one table of the tasks that are under way or
//! have lately completed, and the only place where a task is created,
//! changed or dropped.

use crate::error::{WorkerError, WorkerErrorView};
use crate::executor::{
    advance, lemma_task_is_stable, notification_view, ExecutorStep, RunnerEvent, RunnerEventView,
    TaskInput,
};
use crate::task::{Task, TaskKind, TaskKindView, TaskRecord, TaskRecordView, TaskView};
use crate::task_status::SkTaskStatus;
use crate::text::{
    decimal_string, decimal_text, decimal_value, is_plain_numeral, lemma_decimal_text_injective,
    lemma_decimal_text_value, lemma_plain_numeral_text, plain_decimal_of,
};
use crate::transaction_state::SoukTransactionState;
use std::collections::HashMap;
use vstd::prelude::*;
use vstd::string::*;

verus! {

broadcast use vstd::std_specs::hash::group_hash_axioms;

/// The registry as plain mathematical values: how many identifiers it has
/// given out, and the records it holds, each under its identifier.
pub struct RegistryView {
    pub issued: nat,
    pub tasks: Map<Seq<char>, TaskRecordView>,
}

impl RegistryView {
    /// Every record is well-formed and lies under the identifier of its
    /// task, and every identifier in use is the numeral of a number below
    /// the count of identifiers given out.
    pub open spec fn wf(self) -> bool {
        forall|uuid: Seq<char>| #[trigger]
            self.tasks.contains_key(uuid) ==> {
                &&& self.tasks[uuid].task.uuid == uuid
                &&& self.tasks[uuid].wf()
                &&& exists|k: nat| k < self.issued && uuid == #[trigger] decimal_text(k)
            }
    }

    /// The empty registry.
    pub open spec fn empty() -> RegistryView {
        RegistryView { issued: 0, tasks: Map::empty() }
    }

    /// The identifier that the next task gets.
    pub open spec fn next_uuid(self) -> Seq<char> {
        decimal_text(self.issued)
    }

    /// The task that is created next.
    pub open spec fn next_task(self, cancellable: bool, kind: TaskKindView) -> TaskView {
        TaskView { uuid: self.next_uuid(), cancellable, kind }
    }

    /// The registry after a task has been created.
    pub open spec fn created(self, cancellable: bool, kind: TaskKindView) -> RegistryView {
        RegistryView {
            issued: self.issued + 1,
            tasks: self.tasks.insert(
                self.next_uuid(),
                TaskRecordView::created(self.next_task(cancellable, kind)),
            ),
        }
    }

    /// The registry with `record` in the place of what it held under
    /// `uuid`.
    pub open spec fn with_record(self, uuid: Seq<char>, record: TaskRecordView) -> RegistryView {
        RegistryView { tasks: self.tasks.insert(uuid, record), ..self }
    }

    /// The registry after work on the task `uuid` has begun.
    pub open spec fn prepared(self, uuid: Seq<char>) -> RegistryView {
        if self.tasks.contains_key(uuid) {
            self.with_record(uuid, self.tasks[uuid].prepared())
        } else {
            self
        }
    }

    /// The registry after the task `uuid` has taken in `event`.
    pub open spec fn advanced(self, uuid: Seq<char>, event: RunnerEventView) -> RegistryView {
        if self.tasks.contains_key(uuid) {
            self.with_record(uuid, self.tasks[uuid].advanced(event))
        } else {
            self
        }
    }

    /// The registry after the task `uuid` has been asked to stop.
    pub open spec fn cancelled(self, uuid: Seq<char>) -> RegistryView {
        if self.tasks.contains_key(uuid) {
            self.with_record(uuid, self.tasks[uuid].cancelled())
        } else {
            self
        }
    }

    /// The registry after the task `uuid` has been dropped, which happens
    /// only to a task that has completed.
    pub open spec fn evicted(self, uuid: Seq<char>) -> RegistryView {
        if self.tasks.contains_key(uuid) && self.tasks[uuid].status.completed() {
            RegistryView { tasks: self.tasks.remove(uuid), ..self }
        } else {
            self
        }
    }
}

/// The number under which the registry keeps the task `uuid`.
spec fn serial_of(uuid: Seq<char>) -> Option<u64> {
    if is_plain_numeral(uuid) && decimal_value(uuid) <= u64::MAX {
        Some(decimal_value(uuid) as u64)
    } else {
        None
    }
}

/// An identifier has the serial `k` exactly if it is the numeral of `k`.
proof fn lemma_serial_of(uuid: Seq<char>, k: u64)
    ensures
        serial_of(uuid) == Some(k) <==> uuid == decimal_text(k as nat),
{
    lemma_decimal_text_value(k as nat);
    if is_plain_numeral(uuid) {
        lemma_plain_numeral_text(uuid);
    }
}

/// The table of tasks. Identifiers are the numerals of a running count, so
/// that no two tasks ever share one.
pub struct TaskRegistry {
    next: u64,
    tasks: HashMap<u64, TaskRecord>,
}

impl View for TaskRegistry {
    type V = RegistryView;

    closed spec fn view(&self) -> RegistryView {
        RegistryView {
            issued: self.next as nat,
            tasks: Map::new(
                |uuid: Seq<char>|
                    serial_of(uuid) is Some && self.tasks@.contains_key(serial_of(uuid)->0),
                |uuid: Seq<char>| self.tasks@[serial_of(uuid)->0]@,
            ),
        }
    }
}

impl TaskRegistry {
    #[verifier::type_invariant]
    spec fn inv(self) -> bool {
        forall|k: u64| #[trigger]
            self.tasks@.contains_key(k) ==> {
                &&& k < self.next
                &&& self.tasks@[k].task.uuid@ == decimal_text(k as nat)
                &&& self.tasks@[k]@.wf()
            }
    }

    /// The view of a registry that keeps its invariant is well-formed.
    proof fn lemma_view_wf(self)
        requires
            self.inv(),
        ensures
            self@.wf(),
    {
        assert forall|uuid: Seq<char>| #[trigger] self@.tasks.contains_key(uuid) implies {
            &&& self@.tasks[uuid].task.uuid == uuid
            &&& self@.tasks[uuid].wf()
            &&& exists|k: nat| k < self@.issued && uuid == #[trigger] decimal_text(k)
        } by {
            let k = serial_of(uuid)->0;
            lemma_serial_of(uuid, k);
            assert(self.tasks@.contains_key(k));
            assert(uuid == decimal_text(k as nat));
        }
    }

    /// A registry without tasks.
    pub fn new() -> (registry: TaskRegistry)
        ensures
            registry@ == RegistryView::empty(),
            registry@.wf(),
    {
        let registry = TaskRegistry { next: 0, tasks: HashMap::new() };
        assert(registry@.tasks =~= Map::<Seq<char>, TaskRecordView>::empty());
        registry
    }

    /// A registry without tasks that goes on counting where another has
    /// stopped: it has `issued` identifiers behind it and gives none of
    /// them out again.
    pub fn resuming(issued: u64) -> (registry: TaskRegistry)
        ensures
            registry@ == (RegistryView { issued: issued as nat, tasks: Map::empty() }),
            registry@.wf(),
    {
        let registry = TaskRegistry { next: issued, tasks: HashMap::new() };
        assert(registry@.tasks =~= Map::<Seq<char>, TaskRecordView>::empty());
        registry
    }

    /// Creates a task and registers it, pending. The task gets an
    /// identifier that no task in the registry has, and that none has had
    /// before. Only a registry that has given out every identifier that it
    /// can form creates nothing, and stays as it is.
    pub fn create(&mut self, cancellable: bool, kind: TaskKind) -> (created: Option<Task>)
        ensures
            match created {
                Some(task) => {
                    &&& old(self)@.issued < u64::MAX
                    &&& task@ == old(self)@.next_task(cancellable, kind@)
                    &&& !old(self)@.tasks.contains_key(task@.uuid)
                    &&& final(self)@ == old(self)@.created(cancellable, kind@)
                },
                None => old(self)@.issued >= u64::MAX && final(self)@ == old(self)@,
            },
            final(self)@.wf(),
    {
        proof {
            use_type_invariant(&*self);
            self.lemma_view_wf();
        }
        if self.next == u64::MAX {
            return None;
        }
        let serial = self.next;
        let task = Task { uuid: decimal_string(serial), cancellable, kind };
        let handed_out = task.clone();
        let record = TaskRecord {
            task,
            status: SkTaskStatus::Pending,
            progress: SoukTransactionState::new(),
            cancel_requested: false,
            failure: None,
        };
        let ghost before = *self;
        let mut tasks = HashMap::new();
        std::mem::swap(&mut tasks, &mut self.tasks);
        tasks.insert(serial, record);
        self.next = serial + 1;
        self.tasks = tasks;
        proof {
            let uuid = decimal_text(serial as nat);
            lemma_serial_of(uuid, serial);
            assert(!before@.tasks.contains_key(uuid));
            assert(self@.tasks =~= before@.created(cancellable, kind@).tasks) by {
                assert forall|other: Seq<char>|
                    self@.tasks.contains_key(other) <==> before@.created(
                        cancellable,
                        kind@,
                    ).tasks.contains_key(other) by {
                    if serial_of(other) is Some {
                        lemma_serial_of(other, serial);
                    }
                }
                assert forall|other: Seq<char>| #[trigger]
                    self@.tasks.contains_key(other) implies self@.tasks[other] == before@.created(
                    cancellable,
                    kind@,
                ).tasks[other] by {
                    lemma_serial_of(other, serial);
                }
            }
            use_type_invariant(&*self);
            self.lemma_view_wf();
        }
        Some(handed_out)
    }

    /// Looks a task up. The result is a copy of what the registry holds
    /// under `uuid`, and nothing if it holds no such task.
    pub fn lookup(&self, uuid: &str) -> (found: Option<TaskRecord>)
        ensures
            match found {
                Some(record) => self@.tasks.contains_key(uuid@) && record@ == self@.tasks[uuid@],
                None => !self@.tasks.contains_key(uuid@),
            },
            self@.wf(),
    {
        proof {
            use_type_invariant(self);
            self.lemma_view_wf();
        }
        match plain_decimal_of(uuid) {
            Some(serial) => {
                proof {
                    lemma_serial_of(uuid@, serial);
                }
                match self.tasks.get(&serial) {
                    Some(record) => Some(record.clone()),
                    None => None,
                }
            },
            None => {
                proof {
                    if serial_of(uuid@) is Some {
                        lemma_serial_of(uuid@, serial_of(uuid@)->0);
                    }
                }
                None
            },
        }
    }

    /// The number under which the registry keeps the task `uuid`, if it
    /// holds such a task.
    fn serial(&self, uuid: &str) -> (found: Option<u64>)
        ensures
            match found {
                Some(serial) => {
                    &&& uuid@ == decimal_text(serial as nat)
                    &&& serial_of(uuid@) == Some(serial)
                    &&& self.tasks@.contains_key(serial)
                    &&& self@.tasks.contains_key(uuid@)
                    &&& self@.tasks[uuid@] == self.tasks@[serial]@
                },
                None => !self@.tasks.contains_key(uuid@),
            },
    {
        match plain_decimal_of(uuid) {
            Some(serial) => {
                proof {
                    lemma_serial_of(uuid@, serial);
                }
                if self.tasks.contains_key(&serial) {
                    Some(serial)
                } else {
                    None
                }
            },
            None => {
                proof {
                    if serial_of(uuid@) is Some {
                        lemma_serial_of(uuid@, serial_of(uuid@)->0);
                    }
                }
                None
            },
        }
    }

    /// Takes the record under `serial` out of the table, to be put back by
    /// `store`.
    fn take(&mut self, serial: u64) -> (record: TaskRecord)
        requires
            old(self).tasks@.contains_key(serial),
        ensures
            record == old(self).tasks@[serial],
            record.task.uuid@ == decimal_text(serial as nat),
            record@.wf(),
            serial < old(self).next,
            final(self).next == old(self).next,
            final(self).tasks@ == old(self).tasks@.remove(serial),
    {
        proof {
            use_type_invariant(&*self);
        }
        let mut tasks = HashMap::new();
        std::mem::swap(&mut tasks, &mut self.tasks);
        let taken = tasks.remove(&serial);
        self.tasks = tasks;
        taken.unwrap()
    }

    /// Puts `record` into the table under `serial`.
    fn store(&mut self, serial: u64, record: TaskRecord)
        requires
            serial < old(self).next,
            record.task.uuid@ == decimal_text(serial as nat),
            record@.wf(),
        ensures
            final(self).next == old(self).next,
            final(self).tasks@ == old(self).tasks@.insert(serial, record),
    {
        proof {
            use_type_invariant(&*self);
        }
        let mut tasks = HashMap::new();
        std::mem::swap(&mut tasks, &mut self.tasks);
        tasks.insert(serial, record);
        self.tasks = tasks;
    }

    /// What putting a changed record back does to the view.
    proof fn lemma_replaced(before: TaskRegistry, after: TaskRegistry, serial: u64, record: TaskRecord)
        requires
            before.tasks@.contains_key(serial),
            after.next == before.next,
            after.tasks@ == before.tasks@.remove(serial).insert(serial, record),
        ensures
            after@ == before@.with_record(decimal_text(serial as nat), record@),
    {
        let uuid = decimal_text(serial as nat);
        lemma_serial_of(uuid, serial);
        assert(after@.tasks =~= before@.tasks.insert(uuid, record@)) by {
            assert forall|other: Seq<char>|
                after@.tasks.contains_key(other) <==> before@.tasks.insert(
                    uuid,
                    record@,
                ).contains_key(other) by {
                if serial_of(other) is Some {
                    lemma_serial_of(other, serial);
                }
            }
            assert forall|other: Seq<char>| #[trigger]
                after@.tasks.contains_key(other) implies after@.tasks[other] == before@.tasks.insert(
                uuid,
                record@,
            )[other] by {
                lemma_serial_of(other, serial);
            }
        }
    }

    /// Begins work on a task: a pending task goes into preparation. Any
    /// other task, and a registry without the task, stays as it is.
    pub fn prepare(&mut self, uuid: &str) -> (known: bool)
        ensures
            known == old(self)@.tasks.contains_key(uuid@),
            final(self)@ == old(self)@.prepared(uuid@),
            final(self)@.wf(),
    {
        let ghost before = *self;
        let known = match self.serial(uuid) {
            Some(serial) => {
                let mut record = self.take(serial);
                if let SkTaskStatus::Pending = record.status {
                    record.status = SkTaskStatus::Preparing;
                }
                let ghost stored = record;
                self.store(serial, record);
                proof {
                    Self::lemma_replaced(before, *self, serial, stored);
                }
                true
            },
            None => false,
        };
        proof {
            use_type_invariant(&*self);
            self.lemma_view_wf();
        }
        known
    }

    /// Asks a task to stop. The request is taken down for a task that can
    /// be cancelled and has not completed; the executor answers it at the
    /// next line of output. A task that has completed stays as it is, and
    /// asking again changes nothing more. A task that cannot be cancelled
    /// is left alone and the request refused, as is a request for a task
    /// that the registry does not hold.
    pub fn cancel(&mut self, uuid: &str) -> (outcome: Result<(), WorkerError>)
        ensures
            final(self)@ == old(self)@.cancelled(uuid@),
            final(self)@.wf(),
            match outcome {
                Ok(_) => old(self)@.tasks.contains_key(uuid@) && old(
                    self,
                )@.tasks[uuid@].task.cancellable,
                Err(error) => error@ == (if old(self)@.tasks.contains_key(uuid@) {
                    WorkerErrorView::NotCancellable(uuid@)
                } else {
                    WorkerErrorView::UnknownTask(uuid@)
                }) && !(old(self)@.tasks.contains_key(uuid@) && old(
                    self,
                )@.tasks[uuid@].task.cancellable),
            },
    {
        let ghost before = *self;
        let outcome = match self.serial(uuid) {
            Some(serial) => {
                let mut record = self.take(serial);
                let cancellable = record.task.cancellable;
                if cancellable && !record.status.is_completed() {
                    record.cancel_requested = true;
                }
                let ghost stored = record;
                self.store(serial, record);
                proof {
                    Self::lemma_replaced(before, *self, serial, stored);
                }
                if cancellable {
                    Ok(())
                } else {
                    Err(WorkerError::NotCancellable(String::from_str(uuid)))
                }
            },
            None => Err(WorkerError::UnknownTask(String::from_str(uuid))),
        };
        proof {
            use_type_invariant(&*self);
            self.lemma_view_wf();
        }
        outcome
    }

    /// Drops a task that has completed. A task that is still active stays,
    /// as does everything else.
    pub fn remove_if_terminal(&mut self, uuid: &str) -> (removed: bool)
        ensures
            removed == (old(self)@.tasks.contains_key(uuid@) && old(
                self,
            )@.tasks[uuid@].status.completed()),
            final(self)@ == old(self)@.evicted(uuid@),
            final(self)@.wf(),
    {
        let ghost before = *self;
        let removed = match self.serial(uuid) {
            Some(serial) => {
                let record = self.take(serial);
                if record.status.is_completed() {
                    proof {
                        lemma_serial_of(uuid@, serial);
                        assert(self@.tasks =~= before@.tasks.remove(uuid@)) by {
                            assert forall|other: Seq<char>|
                                self@.tasks.contains_key(other) <==> before@.tasks.remove(
                                    uuid@,
                                ).contains_key(other) by {
                                if serial_of(other) is Some {
                                    lemma_serial_of(other, serial);
                                }
                            }
                        }
                    }
                    true
                } else {
                    let ghost stored = record;
                    self.store(serial, record);
                    proof {
                        Self::lemma_replaced(before, *self, serial, stored);
                        assert(self@.tasks =~= before@.tasks);
                    }
                    false
                }
            },
            None => false,
        };
        proof {
            use_type_invariant(&*self);
            self.lemma_view_wf();
        }
        removed
    }

    /// Hands an event of the operation to the task `uuid`. The task's
    /// record goes on as the executor says, and the outcome tells what to
    /// do with the operation and what to send out. Without such a task
    /// there is no outcome, and the registry stays as it is.
    pub fn drive(&mut self, uuid: &str, event: RunnerEvent) -> (outcome: Option<ExecutorStep>)
        ensures
            final(self)@ == old(self)@.advanced(uuid@, event@),
            final(self)@.wf(),
            match outcome {
                Some(step) => {
                    &&& old(self)@.tasks.contains_key(uuid@)
                    &&& step.action == old(self)@.tasks[uuid@].action_after(event@)
                    &&& notification_view(step.notification) == old(
                        self,
                    )@.tasks[uuid@].notification_after(event@)
                },
                None => !old(self)@.tasks.contains_key(uuid@),
            },
    {
        let ghost before = *self;
        let outcome = match self.serial(uuid) {
            Some(serial) => {
                let mut record = self.take(serial);
                let step = advance(&mut record, event);
                let ghost stored = record;
                self.store(serial, record);
                proof {
                    Self::lemma_replaced(before, *self, serial, stored);
                }
                Some(step)
            },
            None => None,
        };
        proof {
            use_type_invariant(&*self);
            self.lemma_view_wf();
        }
        outcome
    }
}

/// One thing that is done to the registry.
pub enum RegistryOp {
    Create { cancellable: bool, kind: TaskKindView },
    Prepare(Seq<char>),
    Cancel(Seq<char>),
    Advance(Seq<char>, RunnerEventView),
    Evict(Seq<char>),
}

impl RegistryOp {
    /// The task that the operation is about; a creation is about none that
    /// exists.
    pub open spec fn target(self) -> Option<Seq<char>> {
        match self {
            RegistryOp::Create { .. } => None,
            RegistryOp::Prepare(uuid) => Some(uuid),
            RegistryOp::Cancel(uuid) => Some(uuid),
            RegistryOp::Advance(uuid, _) => Some(uuid),
            RegistryOp::Evict(uuid) => Some(uuid),
        }
    }
}

impl RegistryView {
    /// The registry after `op`.
    pub open spec fn applied(self, op: RegistryOp) -> RegistryView {
        match op {
            RegistryOp::Create { cancellable, kind } => self.created(cancellable, kind),
            RegistryOp::Prepare(uuid) => self.prepared(uuid),
            RegistryOp::Cancel(uuid) => self.cancelled(uuid),
            RegistryOp::Advance(uuid, event) => self.advanced(uuid, event),
            RegistryOp::Evict(uuid) => self.evicted(uuid),
        }
    }

    /// The registry after all of `ops`, in their order.
    pub open spec fn after(self, ops: Seq<RegistryOp>) -> RegistryView
        decreases ops.len(),
    {
        if ops.len() == 0 {
            self
        } else {
            self.after(ops.drop_last()).applied(ops.last())
        }
    }
}

/// Creating a task keeps the registry well-formed. The new task lies under
/// an identifier that was not in use, and every other task is untouched.
pub proof fn lemma_created_is_fresh(registry: RegistryView, cancellable: bool, kind: TaskKindView)
    requires
        registry.wf(),
    ensures
        !registry.tasks.contains_key(registry.next_uuid()),
        registry.created(cancellable, kind).wf(),
        registry.created(cancellable, kind).tasks.contains_key(registry.next_uuid()),
        forall|uuid: Seq<char>| #[trigger]
            registry.tasks.contains_key(uuid) ==> registry.created(
                cancellable,
                kind,
            ).tasks.contains_key(uuid) && registry.created(cancellable, kind).tasks[uuid]
                == registry.tasks[uuid],
{
    let uuid = registry.next_uuid();
    if registry.tasks.contains_key(uuid) {
        let k = choose|k: nat| k < registry.issued && uuid == #[trigger] decimal_text(k);
        lemma_decimal_text_injective(k, registry.issued);
    }
    let after = registry.created(cancellable, kind);
    assert forall|other: Seq<char>| #[trigger] after.tasks.contains_key(other) implies {
        &&& after.tasks[other].task.uuid == other
        &&& after.tasks[other].wf()
        &&& exists|k: nat| k < after.issued && other == #[trigger] decimal_text(k)
    } by {
        if other == uuid {
            assert(registry.issued < after.issued && other == decimal_text(registry.issued));
        } else {
            assert(registry.tasks.contains_key(other));
            let k = choose|k: nat| k < registry.issued && other == #[trigger] decimal_text(k);
            assert(k < after.issued && other == decimal_text(k));
        }
    }
}

/// Whatever is done to a well-formed registry, it stays well-formed, and
/// it never takes back an identifier that it has given out.
pub proof fn lemma_registry_stays_wf(registry: RegistryView, op: RegistryOp)
    requires
        registry.wf(),
    ensures
        registry.applied(op).wf(),
        registry.applied(op).issued >= registry.issued,
        op is Create ==> registry.applied(op).issued == registry.issued + 1,
{
    let after = registry.applied(op);
    match op {
        RegistryOp::Create { cancellable, kind } => {
            lemma_created_is_fresh(registry, cancellable, kind);
        },
        _ => {
            let uuid = op.target()->0;
            assert forall|other: Seq<char>| #[trigger] after.tasks.contains_key(other) implies {
                &&& after.tasks[other].task.uuid == other
                &&& after.tasks[other].wf()
                &&& exists|k: nat| k < after.issued && other == #[trigger] decimal_text(k)
            } by {
                assert(registry.tasks.contains_key(other));
                let k = choose|k: nat| k < registry.issued && other == #[trigger] decimal_text(k);
                assert(k < after.issued && other == decimal_text(k));
                if other == uuid {
                    match op {
                        RegistryOp::Advance(_, event) => {
                            lemma_task_is_stable(registry.tasks[uuid], TaskInput::Event(event));
                        },
                        _ => {},
                    }
                }
            }
        },
    }
}

/// What is done to one task leaves every other task as it is. Only a task
/// that has completed ever leaves the registry.
pub proof fn lemma_tasks_are_independent(registry: RegistryView, op: RegistryOp, other: Seq<char>)
    requires
        registry.wf(),
        registry.tasks.contains_key(other),
        op.target() != Some(other),
    ensures
        registry.applied(op).tasks.contains_key(other),
        registry.applied(op).tasks[other] == registry.tasks[other],
{
    if let RegistryOp::Create { cancellable, kind } = op {
        lemma_created_is_fresh(registry, cancellable, kind);
    }
}

/// What the operations `ops` on the registry are to the task `uuid`: the
/// inputs of that task, in their order.
pub open spec fn inputs_for(ops: Seq<RegistryOp>, uuid: Seq<char>) -> Seq<TaskInput>
    decreases ops.len(),
{
    if ops.len() == 0 {
        Seq::empty()
    } else {
        let earlier = inputs_for(ops.drop_last(), uuid);
        match ops.last() {
            RegistryOp::Prepare(target) => if target == uuid {
                earlier.push(TaskInput::Prepare)
            } else {
                earlier
            },
            RegistryOp::Cancel(target) => if target == uuid {
                earlier.push(TaskInput::Cancel)
            } else {
                earlier
            },
            RegistryOp::Advance(target, event) => if target == uuid {
                earlier.push(TaskInput::Event(event))
            } else {
                earlier
            },
            _ => earlier,
        }
    }
}

/// Every task goes its own way. However the operations on the tasks of a
/// registry follow each other, a task that is not dropped stands in the end
/// where its own inputs alone have brought it: what is created, and what
/// is done to other tasks, makes no difference to it.
pub proof fn lemma_task_goes_its_own_way(
    registry: RegistryView,
    ops: Seq<RegistryOp>,
    uuid: Seq<char>,
)
    requires
        registry.wf(),
        registry.tasks.contains_key(uuid),
        forall|i: int| 0 <= i < ops.len() ==> ops[i] != RegistryOp::Evict(uuid),
    ensures
        registry.after(ops).tasks.contains_key(uuid),
        registry.after(ops).tasks[uuid] == registry.tasks[uuid].after(inputs_for(ops, uuid)),
    decreases ops.len(),
{
    if ops.len() > 0 {
        let earlier = ops.drop_last();
        let last = ops.last();
        let before = registry.after(earlier);
        let record = registry.tasks[uuid];
        let inputs = inputs_for(earlier, uuid);
        assert(forall|i: int| 0 <= i < earlier.len() ==> earlier[i] == ops[i]);
        lemma_task_goes_its_own_way(registry, earlier, uuid);
        lemma_issued_never_falls(registry, earlier, 0);
        if last.target() == Some(uuid) {
            let input = match last {
                RegistryOp::Prepare(_) => TaskInput::Prepare,
                RegistryOp::Cancel(_) => TaskInput::Cancel,
                RegistryOp::Advance(_, event) => TaskInput::Event(event),
                _ => arbitrary(),
            };
            assert(last != RegistryOp::Evict(uuid));
            assert(inputs.push(input).drop_last() =~= inputs);
            assert(inputs.push(input).last() == input);
        } else {
            lemma_tasks_are_independent(before, last, uuid);
        }
    }
}

/// The count of identifiers given out never falls.
pub proof fn lemma_issued_never_falls(registry: RegistryView, ops: Seq<RegistryOp>, upto: int)
    requires
        registry.wf(),
        0 <= upto <= ops.len(),
    ensures
        registry.after(ops).wf(),
        registry.after(ops.take(upto)).issued <= registry.after(ops).issued,
    decreases ops.len(),
{
    if ops.len() == 0 {
        assert(ops.take(upto) =~= ops);
    } else {
        let earlier = ops.drop_last();
        if upto == ops.len() {
            assert(ops.take(upto) =~= ops);
            lemma_issued_never_falls(registry, earlier, 0);
        } else {
            assert(earlier.take(upto) =~= ops.take(upto));
            lemma_issued_never_falls(registry, earlier, upto);
        }
        lemma_registry_stays_wf(registry.after(earlier), ops.last());
    }
}

/// No identifier is given out twice. Of the tasks created in the course of
/// any operations on the registry, no two have the same identifier,
/// whatever is created, cancelled, driven or dropped in between; and none
/// has the identifier of a task that the registry held at the start.
pub proof fn lemma_uuids_never_reused(
    registry: RegistryView,
    ops: Seq<RegistryOp>,
    first: int,
    second: int,
)
    requires
        registry.wf(),
        0 <= first < second < ops.len(),
        ops[first] is Create,
        ops[second] is Create,
    ensures
        registry.after(ops.take(first)).next_uuid() != registry.after(
            ops.take(second),
        ).next_uuid(),
        !registry.tasks.contains_key(registry.after(ops.take(first)).next_uuid()),
        !registry.tasks.contains_key(registry.after(ops.take(second)).next_uuid()),
{
    let before_first = registry.after(ops.take(first));
    let after_first = registry.after(ops.take(first + 1));
    let before_second = registry.after(ops.take(second));
    assert(ops.take(first + 1).drop_last() =~= ops.take(first));
    assert(ops.take(first + 1).last() == ops[first]);
    lemma_issued_never_falls(registry, ops.take(first), 0);
    assert(ops.take(first).take(0) =~= Seq::<RegistryOp>::empty());
    lemma_registry_stays_wf(before_first, ops[first]);
    assert(after_first.issued == before_first.issued + 1);
    assert(ops.take(second).take(first + 1) =~= ops.take(first + 1));
    lemma_issued_never_falls(registry, ops.take(second), first + 1);
    let a = before_first.issued;
    let b = before_second.issued;
    assert(registry.issued <= a < b);
    if decimal_text(a) == decimal_text(b) {
        lemma_decimal_text_injective(a, b);
    }
    if registry.tasks.contains_key(decimal_text(a)) {
        let k = choose|k: nat| k < registry.issued && decimal_text(a) == #[trigger] decimal_text(k);
        lemma_decimal_text_injective(k, a);
    }
    if registry.tasks.contains_key(decimal_text(b)) {
        let k = choose|k: nat| k < registry.issued && decimal_text(b) == #[trigger] decimal_text(k);
        lemma_decimal_text_injective(k, b);
    }
}

/// Asking a task to stop changes nothing if the task cannot be cancelled
/// or has completed, and asking twice is the same as asking once.
pub proof fn lemma_cancel_twice(registry: RegistryView, uuid: Seq<char>)
    ensures
        registry.tasks.contains_key(uuid) && (!registry.tasks[uuid].task.cancellable
            || registry.tasks[uuid].status.completed()) ==> registry.cancelled(uuid) == registry,
        !registry.tasks.contains_key(uuid) ==> registry.cancelled(uuid) == registry,
        registry.cancelled(uuid).cancelled(uuid) == registry.cancelled(uuid),
{
    if registry.tasks.contains_key(uuid) {
        let once = registry.cancelled(uuid);
        assert(once.tasks.contains_key(uuid));
        assert(once.tasks[uuid] == registry.tasks[uuid].cancelled());
        assert(once.cancelled(uuid).tasks =~= once.tasks);
        if !registry.tasks[uuid].task.cancellable || registry.tasks[uuid].status.completed() {
            assert(once.tasks =~= registry.tasks);
        }
    }
}

/// A task that is dropped has completed; a task that has not completed is
/// never dropped.
pub proof fn lemma_evicted_only_completed(registry: RegistryView, uuid: Seq<char>)
    ensures
        registry.tasks.contains_key(uuid) && !registry.tasks[uuid].status.completed()
            ==> registry.evicted(uuid) == registry,
        forall|other: Seq<char>|
            other != uuid && #[trigger] registry.tasks.contains_key(other) ==> registry.evicted(
                uuid,
            ).tasks.contains_key(other) && registry.evicted(uuid).tasks[other]
                == registry.tasks[other],
{
}

} // verus!
