//! The progress snapshot of a transaction: what one line of output, or one
//! turn of the executor, says about how far the operation has come.

use crate::task_status::SkTaskStatus;
use crate::text::copy_string;
use vstd::prelude::*;

verus! {

/// The stage that a snapshot reports.
#[derive(Debug, Eq, PartialEq, Clone, Copy, Structural)]
pub enum SoukTransactionMode {
    Waiting,
    Running,
    Finished,
    Cancelled,
    Error,
}

impl Default for SoukTransactionMode {
    fn default() -> (mode: SoukTransactionMode)
        ensures
            mode == SoukTransactionMode::Waiting,
    {
        SoukTransactionMode::Waiting
    }
}

/// The stage that goes with a status: a task waits until its operation
/// runs, and a completed task is in the stage of its completion.
pub open spec fn stage_of(status: SkTaskStatus) -> SoukTransactionMode {
    match status {
        SkTaskStatus::Unset | SkTaskStatus::Pending | SkTaskStatus::Preparing =>
            SoukTransactionMode::Waiting,
        SkTaskStatus::Installing
        | SkTaskStatus::InstallingBundle
        | SkTaskStatus::Uninstalling
        | SkTaskStatus::Updating => SoukTransactionMode::Running,
        SkTaskStatus::Done => SoukTransactionMode::Finished,
        SkTaskStatus::Cancelled => SoukTransactionMode::Cancelled,
        SkTaskStatus::Error => SoukTransactionMode::Error,
    }
}

/// The largest percentage that a snapshot holds: the whole, in hundredths.
pub const FULL_PERCENTAGE: u32 = 100;

/// What a snapshot holds, as plain mathematical values.
pub struct TransactionStateView {
    pub message: Seq<char>,
    pub percentage: Option<u32>,
    pub mode: SoukTransactionMode,
    pub operation_index: u32,
    pub operation_count: u32,
    pub download_rate: Option<u64>,
}

impl TransactionStateView {
    /// A percentage, where there is one, is at most the whole.
    pub open spec fn wf(self) -> bool {
        self.percentage matches Some(p) ==> p <= FULL_PERCENTAGE
    }

    /// The snapshot before anything has happened.
    pub open spec fn initial() -> TransactionStateView {
        TransactionStateView {
            message: Seq::empty(),
            percentage: None,
            mode: SoukTransactionMode::Waiting,
            operation_index: 0,
            operation_count: 0,
            download_rate: None,
        }
    }
}

/// One progress snapshot. The percentage is counted in hundredths of the
/// whole, from 0 to 100; `None` says that the snapshot carries no
/// percentage, so that whoever keeps the latest percentage holds on to it.
#[derive(Debug)]
pub struct SoukTransactionState {
    /// The text of the snapshot: a line of output, or the detail of a
    /// failure.
    pub message: String,
    /// How far the operation has come, in hundredths of the whole.
    pub percentage: Option<u32>,
    /// The stage of the operation.
    pub mode: SoukTransactionMode,
    /// Which of its steps the operation is at; 0 while that is not known.
    pub operation_index: u32,
    /// How many steps the operation has; 0 while that is not known.
    pub operation_count: u32,
    /// The bytes fetched per second, where that is known.
    pub download_rate: Option<u64>,
}

impl View for SoukTransactionState {
    type V = TransactionStateView;

    open spec fn view(&self) -> TransactionStateView {
        TransactionStateView {
            message: self.message@,
            percentage: self.percentage,
            mode: self.mode,
            operation_index: self.operation_index,
            operation_count: self.operation_count,
            download_rate: self.download_rate,
        }
    }
}

impl Clone for SoukTransactionState {
    fn clone(&self) -> (copy: SoukTransactionState)
        ensures
            copy@ == self@,
    {
        SoukTransactionState {
            message: copy_string(&self.message),
            percentage: self.percentage,
            mode: self.mode,
            operation_index: self.operation_index,
            operation_count: self.operation_count,
            download_rate: self.download_rate,
        }
    }
}

impl SoukTransactionState {
    /// A snapshot in the waiting stage, with an empty message and no
    /// percentage.
    pub fn new() -> (state: SoukTransactionState)
        ensures
            state@ == TransactionStateView::initial(),
    {
        SoukTransactionState {
            message: String::new(),
            percentage: None,
            mode: SoukTransactionMode::Waiting,
            operation_index: 0,
            operation_count: 0,
            download_rate: None,
        }
    }

    /// The text of the snapshot.
    pub fn get_message(&self) -> (message: String)
        ensures
            message@ == self@.message,
    {
        copy_string(&self.message)
    }

    /// The percentage of the snapshot in hundredths, if it carries one.
    pub fn get_percentage(&self) -> (percentage: Option<u32>)
        ensures
            percentage == self@.percentage,
    {
        self.percentage
    }

    /// The stage of the snapshot.
    pub fn get_mode(&self) -> (mode: SoukTransactionMode)
        ensures
            mode == self@.mode,
    {
        self.mode
    }
}

impl Default for SoukTransactionState {
    fn default() -> (state: SoukTransactionState)
        ensures
            state@ == TransactionStateView::initial(),
    {
        SoukTransactionState::new()
    }
}

} // verus!
