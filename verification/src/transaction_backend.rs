//! What a backend for package transactions offers, and what it tells those
//! who listen to it.

use crate::error::WorkerError;
use crate::task::{FlatpakTask, Task};
use vstd::prelude::*;

verus! {

/// What a backend announces when something has changed in an installation.
#[derive(Copy, Debug, Clone, Eq, PartialEq, Structural)]
pub enum BackendMessage {
    /// A package has been installed or brought up to date.
    Installed,
    /// A package has been removed.
    Removed,
}

/// A transaction that has been accepted: its task, and the command line of
/// the operation to start for it.
#[derive(Debug)]
pub struct StartedTransaction {
    pub task: Task,
    pub args: Vec<String>,
}

/// A backend that takes package transactions and lets them be cancelled.
pub trait TransactionBackend {
    /// A backend without installations and without tasks.
    fn new() -> Self where Self: Sized;

    /// Accepts a transaction, or refuses it.
    fn add_package_transaction(&mut self, transaction: FlatpakTask) -> Result<
        StartedTransaction,
        WorkerError,
    >;

    /// Asks the transaction of the task `uuid` to stop.
    fn cancel_package_transaction(&mut self, uuid: &str) -> Result<(), WorkerError>;
}

} // verus!
