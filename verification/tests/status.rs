use souk::task_status::SkTaskStatus;

#[test]
fn completed_states_are_done_cancelled_and_error() {
    assert!(SkTaskStatus::Done.is_completed());
    assert!(SkTaskStatus::Cancelled.is_completed());
    assert!(SkTaskStatus::Error.is_completed());
}

#[test]
fn active_states_are_not_completed() {
    for status in [
        SkTaskStatus::Unset,
        SkTaskStatus::Pending,
        SkTaskStatus::Preparing,
        SkTaskStatus::Installing,
        SkTaskStatus::InstallingBundle,
        SkTaskStatus::Uninstalling,
        SkTaskStatus::Updating,
    ] {
        assert!(!status.is_completed(), "{:?}", status);
    }
}

#[test]
fn only_a_bundle_installation_has_no_detailed_progress() {
    assert!(SkTaskStatus::InstallingBundle.has_no_detailed_progress());
    for status in [
        SkTaskStatus::Unset,
        SkTaskStatus::Pending,
        SkTaskStatus::Preparing,
        SkTaskStatus::Installing,
        SkTaskStatus::Uninstalling,
        SkTaskStatus::Updating,
        SkTaskStatus::Done,
        SkTaskStatus::Cancelled,
        SkTaskStatus::Error,
    ] {
        assert!(!status.has_no_detailed_progress(), "{:?}", status);
    }
}

#[test]
fn status_names_are_read() {
    let names = [
        ("pending", SkTaskStatus::Pending),
        ("preparing", SkTaskStatus::Preparing),
        ("install", SkTaskStatus::Installing),
        ("install-bundle", SkTaskStatus::InstallingBundle),
        ("uninstall", SkTaskStatus::Uninstalling),
        ("update", SkTaskStatus::Updating),
        ("done", SkTaskStatus::Done),
        ("cancelled", SkTaskStatus::Cancelled),
        ("error", SkTaskStatus::Error),
    ];
    for (name, status) in names {
        assert_eq!(SkTaskStatus::from(name.to_string()), status);
    }
}

#[test]
fn unknown_status_names_give_the_default() {
    assert_eq!(SkTaskStatus::from("".to_string()), SkTaskStatus::Unset);
    assert_eq!(SkTaskStatus::from("none".to_string()), SkTaskStatus::Unset);
    assert_eq!(SkTaskStatus::from("Done".to_string()), SkTaskStatus::Unset);
    assert_eq!(SkTaskStatus::from("done ".to_string()), SkTaskStatus::Unset);
    assert_eq!(SkTaskStatus::from("installing".to_string()), SkTaskStatus::Unset);
    assert_eq!(SkTaskStatus::default(), SkTaskStatus::Unset);
}
