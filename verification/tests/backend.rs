use souk::dry_run::{SideloadFile, SideloadKind, SideloadPackage};
use souk::error::WorkerError;
use souk::executor::{RunnerAction, RunnerEvent};
use souk::installation::{InstallationInfo, InstallationState, InstalledPackage};
use souk::registry::TaskRegistry;
use souk::sandbox_backend::SandboxBackend;
use souk::task::{FlatpakTask, FlatpakTaskKind, Task, TaskKind, TaskRecord};
use souk::task_status::SkTaskStatus;
use souk::transaction_backend::{BackendMessage, TransactionBackend};
use souk::transaction_state::SoukTransactionState;

fn info(id: &str, is_user: bool) -> InstallationInfo {
    InstallationInfo { id: id.to_string(), title: id.to_uppercase(), is_user }
}

fn backend() -> SandboxBackend {
    let mut backend = SandboxBackend::new();
    assert!(backend.add_installation(info("default", false)));
    assert!(backend.add_installation(info("user", true)));
    backend
}

fn install(installation_id: &str) -> FlatpakTask {
    FlatpakTask {
        kind: FlatpakTaskKind::Install,
        installation_id: installation_id.to_string(),
        ref_: "org.gnome.Maps".to_string(),
        remote: "flathub".to_string(),
        path: String::new(),
        no_update: true,
    }
}

#[test]
fn an_accepted_transaction_has_a_task_in_preparation() {
    let mut backend = backend();
    let started = backend.add_package_transaction(install("default")).unwrap();
    assert!(started.task.cancellable);
    assert_eq!(
        started.args,
        vec!["--host", "flatpak", "install", "--system", "flathub", "org.gnome.Maps", "-y"]
    );
    let record = backend.task(&started.task.uuid).unwrap();
    assert_eq!(record.status, SkTaskStatus::Preparing);
    assert!(!record.cancel_requested);
    assert_eq!(record.task.uuid, started.task.uuid);
}

#[test]
fn an_unknown_installation_is_refused_before_a_task_exists() {
    let mut backend = backend();
    match backend.add_package_transaction(install("elsewhere")) {
        Err(WorkerError::UnknownInstallation(id)) => assert_eq!(id, "elsewhere"),
        other => panic!("{:?}", other),
    }
    assert!(backend.task("0").is_none());
    let started = backend.add_package_transaction(install("user")).unwrap();
    assert_eq!(started.task.uuid, "0");
}

#[test]
fn an_operation_without_a_kind_is_refused() {
    let mut backend = backend();
    let mut request = install("default");
    request.kind = FlatpakTaskKind::Unset;
    match backend.add_package_transaction(request) {
        Err(WorkerError::UnsupportedOperation) => (),
        other => panic!("{:?}", other),
    }
    assert!(backend.task("0").is_none());
}

#[test]
fn a_backend_out_of_identifiers_refuses() {
    let mut backend = SandboxBackend::with_registry(TaskRegistry::resuming(u64::MAX));
    assert!(backend.add_installation(info("default", false)));
    match backend.add_package_transaction(install("default")) {
        Err(WorkerError::RegistryFull) => (),
        other => panic!("{:?}", other),
    }
    match backend.add_package_transaction(install("nowhere")) {
        Err(WorkerError::UnknownInstallation(id)) => assert_eq!(id, "nowhere"),
        other => panic!("{:?}", other),
    }
}

#[test]
fn a_backend_takes_over_the_tasks_of_its_registry() {
    let mut registry = TaskRegistry::new();
    let task = registry
        .create(true, TaskKind::Flatpak(Box::new(install("default"))))
        .unwrap();
    let mut backend = SandboxBackend::with_registry(registry);
    assert!(backend.installations().is_empty());
    assert_eq!(backend.task(&task.uuid).unwrap().status, SkTaskStatus::Pending);
    let step = backend.handle_event(&task.uuid, RunnerEvent::Spawned).unwrap();
    assert_eq!(step.action, RunnerAction::ReadLine);
}

#[test]
fn a_backend_without_installations_refuses_everything() {
    let mut backend = SandboxBackend::new();
    assert!(backend.installations().is_empty());
    assert!(backend.add_package_transaction(install("default")).is_err());
}

#[test]
fn two_transactions_get_two_tasks() {
    let mut backend = backend();
    let first = backend.add_package_transaction(install("default")).unwrap();
    let second = backend.add_package_transaction(install("default")).unwrap();
    assert_ne!(first.task.uuid, second.task.uuid);
    assert!(backend.task(&first.task.uuid).is_some());
    assert!(backend.task(&second.task.uuid).is_some());
}

#[test]
fn a_transaction_runs_to_done() {
    let mut backend = backend();
    let uuid = backend.add_package_transaction(install("default")).unwrap().task.uuid;
    let step = backend.handle_event(&uuid, RunnerEvent::Spawned).unwrap();
    assert_eq!(step.action, RunnerAction::ReadLine);
    let step = backend.handle_event(&uuid, RunnerEvent::Line("Installing 42%".into())).unwrap();
    assert_eq!(step.action, RunnerAction::ReadLine);
    assert_eq!(step.notification.unwrap().state.get_percentage(), Some(42));
    let step = backend
        .handle_event(&uuid, RunnerEvent::Exited { success: true, detail: String::new() })
        .unwrap();
    assert_eq!(step.action, RunnerAction::Stop);
    let last = step.notification.unwrap();
    assert_eq!(last.uuid, uuid);
    assert_eq!(last.status, SkTaskStatus::Done);
    assert_eq!(last.state.get_percentage(), Some(100));
    let record = backend.task(&uuid).unwrap();
    assert_eq!(SandboxBackend::backend_message(&record), Some(BackendMessage::Installed));
    assert!(backend.remove_if_terminal(&uuid));
    assert!(backend.task(&uuid).is_none());
}

#[test]
fn a_cancelled_transaction_is_terminated_and_never_done() {
    let mut backend = backend();
    let uuid = backend.add_package_transaction(install("default")).unwrap().task.uuid;
    backend.handle_event(&uuid, RunnerEvent::Spawned);
    backend.handle_event(&uuid, RunnerEvent::Line("10%".into()));
    assert!(backend.cancel_package_transaction(&uuid).is_ok());
    assert_eq!(backend.task(&uuid).unwrap().status, SkTaskStatus::Installing);
    let step = backend.handle_event(&uuid, RunnerEvent::Line("20%".into())).unwrap();
    assert_eq!(step.action, RunnerAction::Terminate);
    assert_eq!(step.notification.unwrap().status, SkTaskStatus::Cancelled);
    let step = backend
        .handle_event(&uuid, RunnerEvent::Exited { success: false, detail: "killed".into() })
        .unwrap();
    assert_eq!(step.action, RunnerAction::Stop);
    assert!(step.notification.is_none());
    let step = backend
        .handle_event(&uuid, RunnerEvent::Exited { success: true, detail: String::new() })
        .unwrap();
    assert!(step.notification.is_none());
    let record = backend.task(&uuid).unwrap();
    assert_eq!(record.status, SkTaskStatus::Cancelled);
    assert_eq!(record.progress.get_percentage(), Some(10));
    assert_eq!(SandboxBackend::backend_message(&record), None);
}

#[test]
fn a_spawn_failure_leaves_no_task_active() {
    let mut backend = backend();
    let uuid = backend.add_package_transaction(install("default")).unwrap().task.uuid;
    let step = backend
        .handle_event(&uuid, RunnerEvent::SpawnFailed("permission denied".into()))
        .unwrap();
    assert_eq!(step.action, RunnerAction::Stop);
    let record = backend.task(&uuid).unwrap();
    assert_eq!(record.status, SkTaskStatus::Error);
    assert!(record.status.is_completed());
    assert_eq!(record.progress.get_message(), "permission denied");
    match record.failure {
        Some(WorkerError::Spawn(detail)) => assert_eq!(detail, "permission denied"),
        other => panic!("{:?}", other),
    }
}

#[test]
fn a_failed_operation_is_on_record() {
    let mut backend = backend();
    let uuid = backend.add_package_transaction(install("default")).unwrap().task.uuid;
    backend.handle_event(&uuid, RunnerEvent::Spawned);
    let step = backend
        .handle_event(&uuid, RunnerEvent::Exited { success: false, detail: "exit status 1".into() })
        .unwrap();
    match step.notification.unwrap().error {
        Some(WorkerError::OperationFailed(detail)) => assert_eq!(detail, "exit status 1"),
        other => panic!("{:?}", other),
    }
    match backend.task(&uuid).unwrap().failure {
        Some(WorkerError::OperationFailed(detail)) => assert_eq!(detail, "exit status 1"),
        other => panic!("{:?}", other),
    }
}

#[test]
fn cancelling_what_is_not_there_is_an_error() {
    let mut backend = backend();
    match backend.cancel_package_transaction("3") {
        Err(WorkerError::UnknownTask(uuid)) => assert_eq!(uuid, "3"),
        other => panic!("{:?}", other),
    }
    assert!(backend.handle_event("3", RunnerEvent::Spawned).is_none());
    assert!(!backend.remove_if_terminal("3"));
}

#[test]
fn cancelling_a_completed_transaction_is_accepted_and_changes_nothing() {
    let mut backend = backend();
    let uuid = backend.add_package_transaction(install("default")).unwrap().task.uuid;
    backend.handle_event(&uuid, RunnerEvent::Exited { success: false, detail: "no".into() });
    assert!(backend.cancel_package_transaction(&uuid).is_ok());
    assert!(backend.cancel_package_transaction(&uuid).is_ok());
    let record = backend.task(&uuid).unwrap();
    assert_eq!(record.status, SkTaskStatus::Error);
    assert!(!record.cancel_requested);
    assert_eq!(record.progress.get_message(), "no");
}

#[test]
fn installations_are_known_by_their_identifier() {
    let mut backend = backend();
    assert!(!backend.add_installation(info("user", false)));
    let list = backend.installations();
    assert_eq!(list.len(), 2);
    assert_eq!(list[0].id, "default");
    assert_eq!(list[1].id, "user");
    assert!(list[1].is_user);
    let found = backend.installation_by_id("user").unwrap();
    assert_eq!(found.title, "USER");
    assert!(found.is_user);
    assert!(backend.installation_by_id("other").is_none());
    assert!(backend.installation_by_id("").is_none());
}

fn sideloaded() -> SideloadFile {
    SideloadFile {
        kind: SideloadKind::Bundle,
        package: SideloadPackage {
            ref_: "app/org.gnome.Maps/x86_64/stable".to_string(),
            commit: "c1".to_string(),
            runtime: Some("runtime/org.gnome.Platform/x86_64/44".to_string()),
            download_size: 1,
            installed_size: 2,
            permissions: Vec::new(),
        },
        remote: None,
    }
}

#[test]
fn a_preview_needs_a_known_installation() {
    let backend = backend();
    let state = InstallationState { info: info("other", false), packages: vec![], remotes: vec![] };
    match backend.dry_run(&sideloaded(), &state) {
        Err(WorkerError::UnknownInstallation(id)) => assert_eq!(id, "other"),
        other => panic!("{:?}", other),
    }
}

#[test]
fn a_preview_creates_no_task() {
    let mut backend = backend();
    let state = InstallationState {
        info: info("default", false),
        packages: vec![InstalledPackage {
            ref_: "runtime/org.gnome.Platform/x86_64/44".to_string(),
            commit: "p".to_string(),
            remote: "flathub".to_string(),
            installed_size: 10,
        }],
        remotes: vec![],
    };
    let result = backend.dry_run(&sideloaded(), &state).unwrap();
    assert!(!result.no_changes);
    assert_eq!(result.installed_size_change, 2);
    assert!(backend.task("0").is_none());
    assert_eq!(backend.add_package_transaction(install("default")).unwrap().task.uuid, "0");
}

#[test]
fn a_preview_without_the_runtime_fails_through_the_backend_too() {
    let backend = backend();
    let state = InstallationState { info: info("user", true), packages: vec![], remotes: vec![] };
    match backend.dry_run(&sideloaded(), &state) {
        Err(WorkerError::DryRunRuntimeNotFound(runtime)) => {
            assert_eq!(runtime, "runtime/org.gnome.Platform/x86_64/44")
        }
        other => panic!("{:?}", other),
    }
}

fn done(kind: FlatpakTaskKind, status: SkTaskStatus) -> TaskRecord {
    let mut request = install("default");
    request.kind = kind;
    TaskRecord {
        task: Task {
            uuid: "1".to_string(),
            cancellable: true,
            kind: TaskKind::Flatpak(Box::new(request)),
        },
        status,
        progress: SoukTransactionState::new(),
        cancel_requested: false,
        failure: None,
    }
}

#[test]
fn what_is_announced_goes_by_the_operation() {
    let announced = |kind, status| SandboxBackend::backend_message(&done(kind, status));
    assert_eq!(
        announced(FlatpakTaskKind::Install, SkTaskStatus::Done),
        Some(BackendMessage::Installed)
    );
    assert_eq!(
        announced(FlatpakTaskKind::InstallBundleFile, SkTaskStatus::Done),
        Some(BackendMessage::Installed)
    );
    assert_eq!(
        announced(FlatpakTaskKind::InstallRefFile, SkTaskStatus::Done),
        Some(BackendMessage::Installed)
    );
    assert_eq!(
        announced(FlatpakTaskKind::Update, SkTaskStatus::Done),
        Some(BackendMessage::Installed)
    );
    assert_eq!(
        announced(FlatpakTaskKind::Uninstall, SkTaskStatus::Done),
        Some(BackendMessage::Removed)
    );
    assert_eq!(announced(FlatpakTaskKind::Unset, SkTaskStatus::Done), None);
    assert_eq!(announced(FlatpakTaskKind::Install, SkTaskStatus::Error), None);
    assert_eq!(announced(FlatpakTaskKind::Uninstall, SkTaskStatus::Cancelled), None);
    assert_eq!(announced(FlatpakTaskKind::Install, SkTaskStatus::Installing), None);
}

#[test]
fn errors_tell_whether_they_reject_a_request() {
    assert!(WorkerError::UnknownInstallation("x".into()).is_request_error());
    assert!(WorkerError::UnsupportedOperation.is_request_error());
    assert!(WorkerError::UnknownTask("1".into()).is_request_error());
    assert!(WorkerError::NotCancellable("1".into()).is_request_error());
    assert!(WorkerError::RegistryFull.is_request_error());
    assert!(!WorkerError::Spawn("x".into()).is_request_error());
    assert!(!WorkerError::DryRunRuntimeNotFound("x".into()).is_request_error());
    assert!(!WorkerError::OperationFailed("x".into()).is_request_error());
}

#[test]
fn errors_carry_their_text() {
    assert_eq!(WorkerError::UnknownInstallation("inst".into()).message(), "inst");
    assert_eq!(WorkerError::UnknownTask("12".into()).message(), "12");
    assert_eq!(WorkerError::NotCancellable("13".into()).message(), "13");
    assert_eq!(WorkerError::Spawn("no binary".into()).message(), "no binary");
    assert_eq!(WorkerError::DryRunRuntimeNotFound("rt".into()).message(), "rt");
    assert_eq!(WorkerError::OperationFailed("exit 2".into()).message(), "exit 2");
    assert_eq!(WorkerError::UnsupportedOperation.message(), "");
    assert_eq!(WorkerError::RegistryFull.message(), "");
}
