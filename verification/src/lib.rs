//! The transaction engine of a software-installation worker: tasks, their
//! registry, the executor that drives one external operation, the parser of
//! its progress output, and the preview of a sideloaded file.

pub mod command_line;
pub mod dry_run;
pub mod error;
pub mod executor;
pub mod installation;
pub mod progress_parser;
pub mod registry;
pub mod sandbox_backend;
pub mod task;
pub mod task_status;
pub mod text;
pub mod transaction_backend;
pub mod transaction_state;
