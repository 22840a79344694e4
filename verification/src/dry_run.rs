//! The preview of a sideloaded file: what installing it into one
//! installation would do, worked out without touching the installation.

use crate::error::{WorkerError, WorkerErrorView};
use crate::installation::{
    lemma_package_position, package_position, remote_position, InstallationState,
    InstallationStateView, RemoteInfo, RemoteInfoView,
};
use crate::text::{copy_string, copy_strings, str_eq, texts};
use vstd::prelude::*;

verus! {

/// The two kinds of file that carry a package.
#[derive(Copy, Debug, Clone, Eq, PartialEq, Structural)]
pub enum SideloadKind {
    /// A file that holds the package itself.
    Bundle,
    /// A file that refers to a package in a repository.
    Ref,
}

/// A package descriptor, as plain mathematical values.
pub struct SideloadPackageView {
    pub ref_: Seq<char>,
    pub commit: Seq<char>,
    pub runtime: Option<Seq<char>>,
    pub download_size: u64,
    pub installed_size: u64,
    pub permissions: Seq<Seq<char>>,
}

/// The package that a file carries or refers to.
#[derive(Debug)]
pub struct SideloadPackage {
    /// The full ref of the package, branch included.
    pub ref_: String,
    /// The version of the package.
    pub commit: String,
    /// The ref of the runtime that the package declares it needs, if any.
    pub runtime: Option<String>,
    /// The bytes to fetch for it.
    pub download_size: u64,
    /// The bytes it takes on disk once installed.
    pub installed_size: u64,
    /// The permissions it asks for.
    pub permissions: Vec<String>,
}

impl View for SideloadPackage {
    type V = SideloadPackageView;

    open spec fn view(&self) -> SideloadPackageView {
        SideloadPackageView {
            ref_: self.ref_@,
            commit: self.commit@,
            runtime: match self.runtime {
                Some(runtime) => Some(runtime@),
                None => None,
            },
            download_size: self.download_size,
            installed_size: self.installed_size,
            permissions: texts(self.permissions@),
        }
    }
}

impl Clone for SideloadPackage {
    fn clone(&self) -> (copy: SideloadPackage)
        ensures
            copy@ == self@,
    {
        SideloadPackage {
            ref_: copy_string(&self.ref_),
            commit: copy_string(&self.commit),
            runtime: match &self.runtime {
                Some(runtime) => Some(copy_string(runtime)),
                None => None,
            },
            download_size: self.download_size,
            installed_size: self.installed_size,
            permissions: copy_strings(&self.permissions),
        }
    }
}

/// An inspected file, as plain mathematical values.
pub struct SideloadFileView {
    pub kind: SideloadKind,
    pub package: SideloadPackageView,
    pub remote: Option<RemoteInfoView>,
}

/// What inspecting a bundle or reference file has found in it.
#[derive(Debug)]
pub struct SideloadFile {
    pub kind: SideloadKind,
    /// The package of the file.
    pub package: SideloadPackage,
    /// The remote that the file names as the package's origin, if any.
    pub remote: Option<RemoteInfo>,
}

impl View for SideloadFile {
    type V = SideloadFileView;

    open spec fn view(&self) -> SideloadFileView {
        SideloadFileView {
            kind: self.kind,
            package: self.package@,
            remote: match self.remote {
                Some(remote) => Some(remote@),
                None => None,
            },
        }
    }
}

/// A preview, as plain mathematical values.
pub struct DryRunResultView {
    pub package: SideloadPackageView,
    pub download_size: u64,
    pub installed_size_change: i128,
    pub has_update_source: bool,
    pub is_replacing_remote: Option<Seq<char>>,
    pub no_changes: bool,
    pub added_remote: Option<RemoteInfoView>,
}

/// What installing a file would do.
#[derive(Debug)]
pub struct DryRunResult {
    /// The package that would be installed, with its permissions.
    pub package: SideloadPackage,
    /// The bytes that would be fetched.
    pub download_size: u64,
    /// By how many bytes the installation would grow; negative where it
    /// would shrink.
    pub installed_size_change: i128,
    /// Whether the package could be updated later from a remote.
    pub has_update_source: bool,
    /// The remote of the installed copy that would have to go first, where
    /// the package is installed from another remote than the file's.
    pub is_replacing_remote: Option<String>,
    /// Whether installing would change nothing.
    pub no_changes: bool,
    /// The remote that installing would add to the installation.
    pub added_remote: Option<RemoteInfo>,
}

impl View for DryRunResult {
    type V = DryRunResultView;

    open spec fn view(&self) -> DryRunResultView {
        DryRunResultView {
            package: self.package@,
            download_size: self.download_size,
            installed_size_change: self.installed_size_change,
            has_update_source: self.has_update_source,
            is_replacing_remote: match self.is_replacing_remote {
                Some(name) => Some(name@),
                None => None,
            },
            no_changes: self.no_changes,
            added_remote: match self.added_remote {
                Some(remote) => Some(remote@),
                None => None,
            },
        }
    }
}

/// The view of a result or an error.
pub open spec fn outcome_view(outcome: Result<DryRunResult, WorkerError>) -> Result<
    DryRunResultView,
    WorkerErrorView,
> {
    match outcome {
        Ok(result) => Ok(result@),
        Err(error) => Err(error@),
    }
}

impl SideloadFileView {
    /// The name of the remote that the package would come from. A file
    /// whose remote the installation is configured with, by the place of
    /// the repository, has the name that the installation gives it. A
    /// reference file whose remote is not configured brings the remote
    /// along under the file's name for it. A bundle whose remote is not
    /// configured, and a file without a remote, have none.
    pub open spec fn source_remote(self, installation: InstallationStateView) -> Option<
        Seq<char>,
    > {
        match self.remote {
            Some(remote) => match remote_position(
                installation.remotes,
                remote.repository_url,
                0,
            ) {
                Some(at) => Some(installation.remotes[at].name),
                None => if self.kind == SideloadKind::Ref {
                    Some(remote.name)
                } else {
                    None
                },
            },
            None => None,
        }
    }

    /// The remote that installing the file would add: that of a reference
    /// file, where the installation is not configured with it.
    pub open spec fn new_remote(self, installation: InstallationStateView) -> Option<
        RemoteInfoView,
    > {
        match self.remote {
            Some(remote) => if self.kind == SideloadKind::Ref && remote_position(
                installation.remotes,
                remote.repository_url,
                0,
            ) is None {
                Some(remote)
            } else {
                None
            },
            None => None,
        }
    }

    /// The runtime that the package needs and the installation lacks.
    pub open spec fn missing_runtime(self, installation: InstallationStateView) -> Option<
        Seq<char>,
    > {
        match self.package.runtime {
            Some(runtime) => if package_position(installation.packages, runtime, 0) is None {
                Some(runtime)
            } else {
                None
            },
            None => None,
        }
    }

    /// Whether the installation holds the package in the file's version
    /// and from the file's remote, so that installing changes nothing.
    pub open spec fn already_there(self, installation: InstallationStateView) -> bool {
        match package_position(installation.packages, self.package.ref_, 0) {
            Some(at) => installation.packages[at].commit == self.package.commit && Some(
                installation.packages[at].remote,
            ) == self.source_remote(installation),
            None => false,
        }
    }

    /// The remote of the installed copy, where it is another than the
    /// file's.
    pub open spec fn replaced_remote(self, installation: InstallationStateView) -> Option<
        Seq<char>,
    > {
        match package_position(installation.packages, self.package.ref_, 0) {
            Some(at) => if Some(installation.packages[at].remote) != self.source_remote(
                installation,
            ) {
                Some(installation.packages[at].remote)
            } else {
                None
            },
            None => None,
        }
    }

    /// By how much the installation would grow: nothing where nothing
    /// changes, else the size of the package less that of the copy it
    /// takes the place of.
    pub open spec fn size_change(self, installation: InstallationStateView) -> int {
        if self.already_there(installation) {
            0
        } else {
            match package_position(installation.packages, self.package.ref_, 0) {
                Some(at) => self.package.installed_size - installation.packages[at].installed_size,
                None => self.package.installed_size as int,
            }
        }
    }

    /// The preview of installing the file into `installation`: an error
    /// naming the runtime where the installation lacks the one that the
    /// package needs, and else what installing would do.
    pub open spec fn preview(self, installation: InstallationStateView) -> Result<
        DryRunResultView,
        WorkerErrorView,
    > {
        match self.missing_runtime(installation) {
            Some(runtime) => Err(WorkerErrorView::DryRunRuntimeNotFound(runtime)),
            None => Ok(
                DryRunResultView {
                    package: self.package,
                    download_size: if self.already_there(installation) {
                        0
                    } else {
                        self.package.download_size
                    },
                    installed_size_change: self.size_change(installation) as i128,
                    has_update_source: self.source_remote(installation) is Some,
                    is_replacing_remote: self.replaced_remote(installation),
                    no_changes: self.already_there(installation),
                    added_remote: self.new_remote(installation),
                },
            ),
        }
    }
}

/// The parts of a preview agree with each other. A preview that changes
/// nothing replaces no remote, fetches nothing and leaves the size as it
/// is. A remote is replaced only where the package is installed. A remote
/// that comes along with the file is a source of updates. The preview
/// carries the package of the file. The one error of a preview names a
/// runtime that the package needs and the installation does not hold.
pub proof fn lemma_preview_is_consistent(file: SideloadFileView, installation: InstallationStateView)
    ensures
        match file.preview(installation) {
            Ok(result) => {
                &&& result.package == file.package
                &&& result.no_changes ==> result.is_replacing_remote is None
                    && result.download_size == 0 && result.installed_size_change == 0
                &&& result.no_changes ==> installation.holds_package(file.package.ref_)
                &&& result.is_replacing_remote is Some ==> installation.holds_package(
                    file.package.ref_,
                )
                &&& result.added_remote is Some ==> result.has_update_source
                &&& file.package.runtime matches Some(runtime) ==> installation.holds_package(
                    runtime,
                )
            },
            Err(error) => error matches WorkerErrorView::DryRunRuntimeNotFound(runtime)
                && file.package.runtime == Some(runtime) && !installation.holds_package(runtime),
        },
{
    lemma_package_position(installation.packages, file.package.ref_, 0);
    if let Some(runtime) = file.package.runtime {
        lemma_package_position(installation.packages, runtime, 0);
    }
}

/// A preview is a function of the file and of what the installation holds:
/// two previews of the same file against the same installation are the
/// same preview.
pub proof fn lemma_preview_is_deterministic(
    file: SideloadFile,
    installation: InstallationState,
    first: Result<DryRunResult, WorkerError>,
    second: Result<DryRunResult, WorkerError>,
)
    requires
        outcome_view(first) == file@.preview(installation@),
        outcome_view(second) == file@.preview(installation@),
    ensures
        outcome_view(first) == outcome_view(second),
{
}

/// The name of the remote that the package of `file` would come from.
fn source_remote_of(file: &SideloadFile, installation: &InstallationState) -> (name: Option<
    String,
>)
    ensures
        match name {
            Some(text) => file@.source_remote(installation@) == Some(text@),
            None => file@.source_remote(installation@) is None,
        },
{
    match &file.remote {
        Some(remote) => match installation.find_remote(remote.repository_url.as_str()) {
            Some(at) => Some(copy_string(&installation.remotes[at].name)),
            None => match file.kind {
                SideloadKind::Ref => Some(copy_string(&remote.name)),
                SideloadKind::Bundle => None,
            },
        },
        None => None,
    }
}

/// Whether `name` is the remote `source`.
fn is_source(name: &String, source: &Option<String>) -> (same: bool)
    ensures
        same == (source matches Some(text) && text@ == name@),
{
    match source {
        Some(text) => str_eq(text.as_str(), name.as_str()),
        None => false,
    }
}

/// Works out what installing `file` into `installation` would do. Neither
/// is changed, and the same two values always give the same preview.
pub fn evaluate(file: &SideloadFile, installation: &InstallationState) -> (outcome: Result<
    DryRunResult,
    WorkerError,
>)
    ensures
        outcome_view(outcome) == file@.preview(installation@),
{
    if let Some(runtime) = &file.package.runtime {
        if installation.find_package(runtime.as_str()).is_none() {
            return Err(WorkerError::DryRunRuntimeNotFound(copy_string(runtime)));
        }
    }
    let source = source_remote_of(file, installation);
    let added_remote = match &file.remote {
        Some(remote) => match file.kind {
            SideloadKind::Ref => if installation.find_remote(
                remote.repository_url.as_str(),
            ).is_none() {
                Some(remote.clone())
            } else {
                None
            },
            SideloadKind::Bundle => None,
        },
        None => None,
    };
    let has_update_source = source.is_some();
    match installation.find_package(file.package.ref_.as_str()) {
        Some(at) => {
            let installed = &installation.packages[at];
            let same_remote = is_source(&installed.remote, &source);
            let no_changes = same_remote && str_eq(
                installed.commit.as_str(),
                file.package.commit.as_str(),
            );
            Ok(
                DryRunResult {
                    package: file.package.clone(),
                    download_size: if no_changes {
                        0
                    } else {
                        file.package.download_size
                    },
                    installed_size_change: if no_changes {
                        0
                    } else {
                        file.package.installed_size as i128 - installed.installed_size as i128
                    },
                    has_update_source,
                    is_replacing_remote: if same_remote {
                        None
                    } else {
                        Some(copy_string(&installed.remote))
                    },
                    no_changes,
                    added_remote,
                },
            )
        },
        None => Ok(
            DryRunResult {
                package: file.package.clone(),
                download_size: file.package.download_size,
                installed_size_change: file.package.installed_size as i128,
                has_update_source,
                is_replacing_remote: None,
                no_changes: false,
                added_remote,
            },
        ),
    }
}

} // verus!
