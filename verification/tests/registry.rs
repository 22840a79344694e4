use souk::error::WorkerError;
use souk::executor::{RunnerAction, RunnerEvent};
use souk::registry::TaskRegistry;
use souk::task::{AppstreamTask, AppstreamTaskKind, FlatpakTask, FlatpakTaskKind, TaskKind};
use souk::task_status::SkTaskStatus;
use souk::transaction_state::SoukTransactionMode;
use std::collections::HashSet;

fn install() -> TaskKind {
    TaskKind::Flatpak(Box::new(FlatpakTask {
        kind: FlatpakTaskKind::Install,
        installation_id: "default".to_string(),
        ref_: "org.gnome.Maps".to_string(),
        remote: "flathub".to_string(),
        path: String::new(),
        no_update: false,
    }))
}

fn metadata() -> TaskKind {
    TaskKind::Appstream(Box::new(AppstreamTask { kind: AppstreamTaskKind::Update }))
}

#[test]
fn a_created_task_is_pending_and_registered() {
    let mut registry = TaskRegistry::new();
    let task = registry.create(true, install()).unwrap();
    assert_eq!(task.uuid, "0");
    assert!(task.cancellable);
    let record = registry.lookup(&task.uuid).unwrap();
    assert_eq!(record.task.uuid, task.uuid);
    assert!(record.task.cancellable);
    assert_eq!(record.status, SkTaskStatus::Pending);
    assert!(!record.cancel_requested);
    assert_eq!(record.progress.get_message(), "");
    assert_eq!(record.progress.get_percentage(), None);
    assert_eq!(record.progress.get_mode(), SoukTransactionMode::Waiting);
    assert!(record.failure.is_none());
    match record.task.kind {
        TaskKind::Flatpak(request) => {
            assert_eq!(request.kind, FlatpakTaskKind::Install);
            assert_eq!(request.ref_, "org.gnome.Maps");
            assert_eq!(request.remote, "flathub");
            assert_eq!(request.installation_id, "default");
        }
        TaskKind::Appstream(_) => panic!("the task was created for a package operation"),
    }
}

#[test]
fn the_cancellable_flag_is_fixed_at_creation() {
    let mut registry = TaskRegistry::new();
    let fixed = registry.create(false, metadata()).unwrap();
    assert!(!fixed.cancellable);
    assert!(!registry.lookup(&fixed.uuid).unwrap().task.cancellable);
}

#[test]
fn identifiers_count_up() {
    let mut registry = TaskRegistry::new();
    assert_eq!(registry.create(true, install()).unwrap().uuid, "0");
    assert_eq!(registry.create(false, metadata()).unwrap().uuid, "1");
    assert_eq!(registry.create(true, install()).unwrap().uuid, "2");
}

#[test]
fn ten_thousand_tasks_get_ten_thousand_identifiers() {
    let mut registry = TaskRegistry::new();
    let mut seen = HashSet::new();
    for _ in 0..10_000 {
        let task = registry.create(true, install()).unwrap();
        assert!(seen.insert(task.uuid));
    }
    assert_eq!(seen.len(), 10_000);
}

#[test]
fn an_identifier_is_not_given_out_again_after_its_task_is_dropped() {
    let mut registry = TaskRegistry::new();
    let first = registry.create(true, install()).unwrap();
    registry.drive(&first.uuid, RunnerEvent::Exited { success: true, detail: String::new() });
    assert!(registry.remove_if_terminal(&first.uuid));
    let second = registry.create(true, install()).unwrap();
    assert_ne!(first.uuid, second.uuid);
}

#[test]
fn a_registry_gives_out_no_more_identifiers_than_it_can_form() {
    let mut registry = TaskRegistry::resuming(u64::MAX - 1);
    let last = registry.create(true, install()).unwrap();
    assert_eq!(last.uuid, "18446744073709551614");
    assert!(registry.create(true, install()).is_none());
    assert!(registry.create(false, metadata()).is_none());
    assert!(registry.lookup("18446744073709551614").is_some());
    assert!(registry.lookup("18446744073709551615").is_none());
}

#[test]
fn a_resuming_registry_counts_on() {
    let mut registry = TaskRegistry::resuming(41);
    assert!(registry.lookup("40").is_none());
    assert_eq!(registry.create(true, install()).unwrap().uuid, "41");
    assert_eq!(registry.create(true, install()).unwrap().uuid, "42");
}

#[test]
fn an_unknown_task_is_not_found() {
    let mut registry = TaskRegistry::new();
    registry.create(true, install()).unwrap();
    assert!(registry.lookup("1").is_none());
    assert!(registry.lookup("").is_none());
    assert!(registry.lookup("00").is_none());
    assert!(registry.lookup("zero").is_none());
    assert!(registry.lookup("18446744073709551616").is_none());
    assert!(registry.lookup("0").is_some());
}

#[test]
fn a_request_to_stop_is_taken_down() {
    let mut registry = TaskRegistry::new();
    let task = registry.create(true, install()).unwrap();
    assert!(registry.cancel(&task.uuid).is_ok());
    let record = registry.lookup(&task.uuid).unwrap();
    assert!(record.cancel_requested);
    assert_eq!(record.status, SkTaskStatus::Pending);
}

#[test]
fn cancelling_twice_is_cancelling_once() {
    let mut registry = TaskRegistry::new();
    let task = registry.create(true, install()).unwrap();
    assert!(registry.cancel(&task.uuid).is_ok());
    let once = registry.lookup(&task.uuid).unwrap();
    assert!(registry.cancel(&task.uuid).is_ok());
    let twice = registry.lookup(&task.uuid).unwrap();
    assert_eq!(once.cancel_requested, twice.cancel_requested);
    assert_eq!(once.status, twice.status);
    assert_eq!(once.progress.get_message(), twice.progress.get_message());
    assert_eq!(once.progress.get_percentage(), twice.progress.get_percentage());
}

#[test]
fn a_task_that_cannot_be_cancelled_refuses() {
    let mut registry = TaskRegistry::new();
    let task = registry.create(false, metadata()).unwrap();
    match registry.cancel(&task.uuid) {
        Err(WorkerError::NotCancellable(uuid)) => assert_eq!(uuid, task.uuid),
        other => panic!("{:?}", other),
    }
    let record = registry.lookup(&task.uuid).unwrap();
    assert!(!record.cancel_requested);
    assert_eq!(record.status, SkTaskStatus::Pending);
}

#[test]
fn cancelling_an_unknown_task_is_an_error() {
    let mut registry = TaskRegistry::new();
    match registry.cancel("17") {
        Err(WorkerError::UnknownTask(uuid)) => assert_eq!(uuid, "17"),
        other => panic!("{:?}", other),
    }
}

#[test]
fn cancelling_a_completed_task_changes_nothing() {
    let mut registry = TaskRegistry::new();
    let task = registry.create(true, install()).unwrap();
    registry.drive(&task.uuid, RunnerEvent::Exited { success: true, detail: String::new() });
    assert!(registry.cancel(&task.uuid).is_ok());
    let record = registry.lookup(&task.uuid).unwrap();
    assert_eq!(record.status, SkTaskStatus::Done);
    assert!(!record.cancel_requested);
    assert!(registry.cancel(&task.uuid).is_ok());
    let record = registry.lookup(&task.uuid).unwrap();
    assert_eq!(record.status, SkTaskStatus::Done);
    assert!(!record.cancel_requested);
}

#[test]
fn only_a_completed_task_is_dropped() {
    let mut registry = TaskRegistry::new();
    let task = registry.create(true, install()).unwrap();
    assert!(!registry.remove_if_terminal(&task.uuid));
    assert!(registry.lookup(&task.uuid).is_some());
    registry.drive(&task.uuid, RunnerEvent::Spawned);
    assert!(!registry.remove_if_terminal(&task.uuid));
    registry.drive(&task.uuid, RunnerEvent::Exited { success: false, detail: "exit 1".into() });
    assert!(registry.remove_if_terminal(&task.uuid));
    assert!(registry.lookup(&task.uuid).is_none());
    assert!(!registry.remove_if_terminal(&task.uuid));
    assert!(!registry.remove_if_terminal("nothing"));
}

#[test]
fn dropping_one_task_leaves_the_others() {
    let mut registry = TaskRegistry::new();
    let first = registry.create(true, install()).unwrap();
    let second = registry.create(true, install()).unwrap();
    registry.drive(&first.uuid, RunnerEvent::SpawnFailed("no such file".into()));
    assert!(registry.remove_if_terminal(&first.uuid));
    let record = registry.lookup(&second.uuid).unwrap();
    assert_eq!(record.status, SkTaskStatus::Pending);
}

#[test]
fn preparing_moves_a_pending_task_only() {
    let mut registry = TaskRegistry::new();
    let task = registry.create(true, install()).unwrap();
    assert!(registry.prepare(&task.uuid));
    assert_eq!(registry.lookup(&task.uuid).unwrap().status, SkTaskStatus::Preparing);
    registry.drive(&task.uuid, RunnerEvent::Spawned);
    assert!(registry.prepare(&task.uuid));
    assert_eq!(registry.lookup(&task.uuid).unwrap().status, SkTaskStatus::Installing);
    assert!(!registry.prepare("5"));
}

#[test]
fn a_task_without_an_operation_fails_when_driven() {
    let mut registry = TaskRegistry::new();
    let task = registry.create(false, metadata()).unwrap();
    let step = registry.drive(&task.uuid, RunnerEvent::Spawned).unwrap();
    assert_eq!(step.action, RunnerAction::Terminate);
    let record = registry.lookup(&task.uuid).unwrap();
    assert_eq!(record.status, SkTaskStatus::Error);
    assert!(matches!(record.failure, Some(WorkerError::UnsupportedOperation)));
}

#[test]
fn events_for_an_unknown_task_have_no_outcome() {
    let mut registry = TaskRegistry::new();
    assert!(registry.drive("0", RunnerEvent::Spawned).is_none());
    let task = registry.create(true, install()).unwrap();
    let step = registry.drive(&task.uuid, RunnerEvent::Spawned).unwrap();
    assert_eq!(step.action, RunnerAction::ReadLine);
}

#[test]
fn two_tasks_on_one_installation_go_their_own_ways() {
    let mut registry = TaskRegistry::new();
    let first = registry.create(true, install()).unwrap();
    let second = registry.create(true, install()).unwrap();
    registry.drive(&first.uuid, RunnerEvent::Spawned);
    registry.drive(&second.uuid, RunnerEvent::Spawned);
    registry.drive(&first.uuid, RunnerEvent::Line("10%".into()));
    registry.drive(&second.uuid, RunnerEvent::Line("90%".into()));
    registry.cancel(&second.uuid).unwrap();
    registry.drive(&second.uuid, RunnerEvent::Line("95%".into()));
    let first = registry.lookup(&first.uuid).unwrap();
    let second = registry.lookup(&second.uuid).unwrap();
    assert_eq!(first.status, SkTaskStatus::Installing);
    assert_eq!(first.progress.get_percentage(), Some(10));
    assert!(!first.cancel_requested);
    assert_eq!(second.status, SkTaskStatus::Cancelled);
    assert_eq!(second.progress.get_percentage(), Some(90));
}
