//! The status of a task.

use crate::text::str_eq;
use vstd::prelude::*;
use vstd::string::*;

verus! {

/// Where a task stands. `Done`, `Cancelled` and `Error` are completed
/// states; every other status is active.
#[derive(Copy, Debug, Clone, Eq, PartialEq, Structural)]
pub enum SkTaskStatus {
    /// No status has been set.
    Unset,
    Pending,
    Preparing,
    Installing,
    InstallingBundle,
    Uninstalling,
    Updating,
    Done,
    Cancelled,
    Error,
}

/// The status that a status name stands for; `Unset` for any other text.
pub open spec fn status_of_name(name: Seq<char>) -> SkTaskStatus {
    if name == "pending"@ {
        SkTaskStatus::Pending
    } else if name == "preparing"@ {
        SkTaskStatus::Preparing
    } else if name == "install"@ {
        SkTaskStatus::Installing
    } else if name == "install-bundle"@ {
        SkTaskStatus::InstallingBundle
    } else if name == "uninstall"@ {
        SkTaskStatus::Uninstalling
    } else if name == "update"@ {
        SkTaskStatus::Updating
    } else if name == "done"@ {
        SkTaskStatus::Done
    } else if name == "cancelled"@ {
        SkTaskStatus::Cancelled
    } else if name == "error"@ {
        SkTaskStatus::Error
    } else {
        SkTaskStatus::Unset
    }
}

/// The name of a status. A status that has not been set has a name that
/// `status_of_name` reads like any text that names no status.
pub open spec fn name_of_status(status: SkTaskStatus) -> Seq<char> {
    match status {
        SkTaskStatus::Unset => "none"@,
        SkTaskStatus::Pending => "pending"@,
        SkTaskStatus::Preparing => "preparing"@,
        SkTaskStatus::Installing => "install"@,
        SkTaskStatus::InstallingBundle => "install-bundle"@,
        SkTaskStatus::Uninstalling => "uninstall"@,
        SkTaskStatus::Updating => "update"@,
        SkTaskStatus::Done => "done"@,
        SkTaskStatus::Cancelled => "cancelled"@,
        SkTaskStatus::Error => "error"@,
    }
}

/// Reading the name of a status gives the status back.
pub proof fn lemma_status_name_round_trip(status: SkTaskStatus)
    ensures
        status_of_name(name_of_status(status)) == status,
{
    reveal_strlit("none");
    reveal_strlit("pending");
    reveal_strlit("preparing");
    reveal_strlit("install");
    reveal_strlit("install-bundle");
    reveal_strlit("uninstall");
    reveal_strlit("update");
    reveal_strlit("done");
    reveal_strlit("cancelled");
    reveal_strlit("error");
    assert("none"@.len() == 4 && "done"@.len() == 4 && "error"@.len() == 5);
    assert("update"@.len() == 6 && "pending"@.len() == 7 && "install"@.len() == 7);
    assert("preparing"@.len() == 9 && "uninstall"@.len() == 9 && "cancelled"@.len() == 9);
    assert("install-bundle"@.len() == 14);
    assert("none"@[0] == 'n' && "done"@[0] == 'd');
    assert("pending"@[0] == 'p' && "install"@[0] == 'i');
    assert("preparing"@[0] == 'p' && "uninstall"@[0] == 'u' && "cancelled"@[0] == 'c');
}

impl SkTaskStatus {
    /// The name of the status, as `From<String>` reads it.
    pub fn name(&self) -> (name: String)
        ensures
            name@ == name_of_status(*self),
            status_of_name(name@) == *self,
    {
        proof {
            lemma_status_name_round_trip(*self);
        }
        let name = match self {
            SkTaskStatus::Unset => "none",
            SkTaskStatus::Pending => "pending",
            SkTaskStatus::Preparing => "preparing",
            SkTaskStatus::Installing => "install",
            SkTaskStatus::InstallingBundle => "install-bundle",
            SkTaskStatus::Uninstalling => "uninstall",
            SkTaskStatus::Updating => "update",
            SkTaskStatus::Done => "done",
            SkTaskStatus::Cancelled => "cancelled",
            SkTaskStatus::Error => "error",
        };
        String::from_str(name)
    }

    /// A completed status is one of `Done`, `Cancelled`, `Error`.
    pub open spec fn completed(self) -> bool {
        self == SkTaskStatus::Done || self == SkTaskStatus::Cancelled || self
            == SkTaskStatus::Error
    }

    /// Whether the task has reached a completed state.
    pub fn is_completed(&self) -> (completed: bool)
        ensures
            completed == self.completed(),
    {
        match self {
            SkTaskStatus::Done | SkTaskStatus::Cancelled | SkTaskStatus::Error => true,
            _ => false,
        }
    }

    /// Whether the operation behind this status reports no percentage of
    /// its own: that holds of the installation of a bundle only.
    pub fn has_no_detailed_progress(&self) -> (coarse: bool)
        ensures
            coarse == (*self == SkTaskStatus::InstallingBundle),
    {
        match self {
            SkTaskStatus::InstallingBundle => true,
            _ => false,
        }
    }
}

impl From<String> for SkTaskStatus {
    /// Reads a status name. A text that names no status gives the default,
    /// `Unset`.
    fn from(string: String) -> (status: SkTaskStatus) {
        let name = string.as_str();
        if str_eq(name, "pending") {
            SkTaskStatus::Pending
        } else if str_eq(name, "preparing") {
            SkTaskStatus::Preparing
        } else if str_eq(name, "install") {
            SkTaskStatus::Installing
        } else if str_eq(name, "install-bundle") {
            SkTaskStatus::InstallingBundle
        } else if str_eq(name, "uninstall") {
            SkTaskStatus::Uninstalling
        } else if str_eq(name, "update") {
            SkTaskStatus::Updating
        } else if str_eq(name, "done") {
            SkTaskStatus::Done
        } else if str_eq(name, "cancelled") {
            SkTaskStatus::Cancelled
        } else if str_eq(name, "error") {
            SkTaskStatus::Error
        } else {
            SkTaskStatus::Unset
        }
    }
}

impl vstd::std_specs::convert::FromSpecImpl<String> for SkTaskStatus {
    open spec fn obeys_from_spec() -> bool {
        true
    }

    open spec fn from_spec(string: String) -> SkTaskStatus {
        status_of_name(string@)
    }
}

impl Default for SkTaskStatus {
    fn default() -> (status: SkTaskStatus)
        ensures
            status == SkTaskStatus::Unset,
    {
        SkTaskStatus::Unset
    }
}

} // verus!
