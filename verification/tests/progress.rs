use souk::sandbox_backend::SandboxBackend;
use souk::transaction_state::{SoukTransactionMode, SoukTransactionState};

#[test]
fn a_line_with_42_percent_gives_042() {
    let state = SandboxBackend::parse_line("Installing 1/3… 42%  1.2 MB/s".to_string());
    assert_eq!(state.get_percentage(), Some(42));
    assert_eq!(state.get_percentage().map(|p| p as f32 / 100.0), Some(0.42));
    assert_eq!(state.get_message(), "Installing 1/3… 42%  1.2 MB/s");
    assert_eq!(state.get_mode(), SoukTransactionMode::Running);
}

#[test]
fn a_bare_percentage_is_read() {
    assert_eq!(SandboxBackend::parse_line("42%".to_string()).get_percentage(), Some(42));
    assert_eq!(SandboxBackend::parse_line("0%".to_string()).get_percentage(), Some(0));
    assert_eq!(SandboxBackend::parse_line("7%".to_string()).get_percentage(), Some(7));
    assert_eq!(SandboxBackend::parse_line("100%".to_string()).get_percentage(), Some(100));
    assert_eq!(SandboxBackend::parse_line("007%".to_string()).get_percentage(), Some(7));
}

#[test]
fn a_line_without_a_percentage_keeps_the_line_and_has_no_percentage() {
    let state = SandboxBackend::parse_line("Looking for matches…".to_string());
    assert_eq!(state.get_percentage(), None);
    assert_eq!(state.get_message(), "Looking for matches…");
    assert_eq!(state.get_mode(), SoukTransactionMode::Running);
    assert_eq!(state.operation_index, 0);
    assert_eq!(state.operation_count, 0);
}

#[test]
fn an_empty_line_gives_a_snapshot() {
    let state = SandboxBackend::parse_line(String::new());
    assert_eq!(state.get_percentage(), None);
    assert_eq!(state.get_message(), "");
    assert_eq!(state.get_mode(), SoukTransactionMode::Running);
}

#[test]
fn a_percent_sign_without_digits_is_no_percentage() {
    assert_eq!(SandboxBackend::parse_line("%".to_string()).get_percentage(), None);
    assert_eq!(SandboxBackend::parse_line("50 %".to_string()).get_percentage(), None);
    assert_eq!(SandboxBackend::parse_line("abc% done".to_string()).get_percentage(), None);
}

#[test]
fn the_first_percentage_of_a_line_counts() {
    let state = SandboxBackend::parse_line("file 12% total 80%".to_string());
    assert_eq!(state.get_percentage(), Some(12));
}

#[test]
fn of_more_than_three_digits_the_last_three_before_the_sign_count() {
    // The first place where one to three digits stand before the sign
    // begins three digits before it.
    assert_eq!(SandboxBackend::parse_line("12345%".to_string()).get_percentage(), Some(100));
    assert_eq!(SandboxBackend::parse_line("99050%".to_string()).get_percentage(), Some(50));
}

#[test]
fn a_percentage_above_the_whole_is_capped() {
    assert_eq!(SandboxBackend::parse_line("101%".to_string()).get_percentage(), Some(100));
    assert_eq!(SandboxBackend::parse_line("250%".to_string()).get_percentage(), Some(100));
    assert_eq!(SandboxBackend::parse_line("999%".to_string()).get_percentage(), Some(100));
}

#[test]
fn digits_of_other_scripts_give_no_percentage() {
    let state = SandboxBackend::parse_line("٤٢%".to_string());
    assert_eq!(state.get_percentage(), None);
    assert_eq!(state.get_message(), "٤٢%");
}

#[test]
fn parsing_the_same_line_twice_gives_the_same_snapshot() {
    for line in ["Downloading… 42%", "no percentage here", "", "5% 6% 7%"] {
        let first = SandboxBackend::parse_line(line.to_string());
        let second = SandboxBackend::parse_line(line.to_string());
        assert_eq!(first.get_message(), second.get_message());
        assert_eq!(first.get_percentage(), second.get_percentage());
        assert_eq!(first.get_mode(), second.get_mode());
        assert_eq!(first.operation_index, second.operation_index);
        assert_eq!(first.operation_count, second.operation_count);
    }
}

#[test]
fn a_capture_becomes_the_percentage() {
    let state = SandboxBackend::state_from_capture("x".to_string(), Some("42".to_string()));
    assert_eq!(state.get_percentage(), Some(42));
    assert_eq!(state.get_message(), "x");
    let state = SandboxBackend::state_from_capture("x".to_string(), Some("999".to_string()));
    assert_eq!(state.get_percentage(), Some(100));
    let state = SandboxBackend::state_from_capture("x".to_string(), Some("000".to_string()));
    assert_eq!(state.get_percentage(), Some(0));
}

#[test]
fn a_capture_that_is_no_short_numeral_gives_no_percentage() {
    for capture in ["", "1234", "4a", "-1", "٤٢", " 1"] {
        let state = SandboxBackend::state_from_capture("x".to_string(), Some(capture.to_string()));
        assert_eq!(state.get_percentage(), None, "{:?}", capture);
    }
    let state = SandboxBackend::state_from_capture("x".to_string(), None);
    assert_eq!(state.get_percentage(), None);
}

#[test]
fn a_new_snapshot_waits() {
    let state = SoukTransactionState::new();
    assert_eq!(state.get_message(), "");
    assert_eq!(state.get_percentage(), None);
    assert_eq!(state.get_mode(), SoukTransactionMode::Waiting);
    assert_eq!(SoukTransactionMode::default(), SoukTransactionMode::Waiting);
    let state = SoukTransactionState::default();
    assert_eq!(state.get_mode(), SoukTransactionMode::Waiting);
    assert_eq!(state.get_percentage(), None);
}

#[test]
fn a_cloned_snapshot_is_the_same() {
    let state = SandboxBackend::parse_line("Updating 63%".to_string());
    let copy = state.clone();
    assert_eq!(copy.get_message(), "Updating 63%");
    assert_eq!(copy.get_percentage(), Some(63));
    assert_eq!(copy.get_mode(), SoukTransactionMode::Running);
}
