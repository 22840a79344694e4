//! Installations as the worker sees them: which there are, and what one of
//! them holds. The worker never changes an installation itself; it reads
//! these values, which its caller has gathered.

use crate::text::{copy_string, str_eq};
use vstd::prelude::*;

verus! {

/// A remote, as plain mathematical values.
pub struct RemoteInfoView {
    pub name: Seq<char>,
    pub repository_url: Seq<char>,
}

/// A source that an installation can take packages and updates from.
#[derive(Debug)]
pub struct RemoteInfo {
    /// The name under which the installation knows the remote.
    pub name: String,
    /// Where the repository lies.
    pub repository_url: String,
}

impl View for RemoteInfo {
    type V = RemoteInfoView;

    open spec fn view(&self) -> RemoteInfoView {
        RemoteInfoView { name: self.name@, repository_url: self.repository_url@ }
    }
}

impl Clone for RemoteInfo {
    fn clone(&self) -> (copy: RemoteInfo)
        ensures
            copy@ == self@,
    {
        RemoteInfo {
            name: copy_string(&self.name),
            repository_url: copy_string(&self.repository_url),
        }
    }
}

/// An installed package, as plain mathematical values.
pub struct InstalledPackageView {
    pub ref_: Seq<char>,
    pub commit: Seq<char>,
    pub remote: Seq<char>,
    pub installed_size: u64,
}

/// A package that an installation holds.
#[derive(Debug)]
pub struct InstalledPackage {
    /// The full ref of the package, branch included.
    pub ref_: String,
    /// The version that is installed.
    pub commit: String,
    /// The name of the remote that the package came from.
    pub remote: String,
    /// The bytes that the package takes on disk.
    pub installed_size: u64,
}

impl View for InstalledPackage {
    type V = InstalledPackageView;

    open spec fn view(&self) -> InstalledPackageView {
        InstalledPackageView {
            ref_: self.ref_@,
            commit: self.commit@,
            remote: self.remote@,
            installed_size: self.installed_size,
        }
    }
}

/// An installation's description, as plain mathematical values.
pub struct InstallationInfoView {
    pub id: Seq<char>,
    pub title: Seq<char>,
    pub is_user: bool,
}

/// What identifies and describes an installation.
#[derive(Debug)]
pub struct InstallationInfo {
    /// The stable identifier of the installation.
    pub id: String,
    /// The name shown to people.
    pub title: String,
    /// Whether the installation belongs to one user rather than the system.
    pub is_user: bool,
}

impl View for InstallationInfo {
    type V = InstallationInfoView;

    open spec fn view(&self) -> InstallationInfoView {
        InstallationInfoView { id: self.id@, title: self.title@, is_user: self.is_user }
    }
}

impl Clone for InstallationInfo {
    fn clone(&self) -> (copy: InstallationInfo)
        ensures
            copy@ == self@,
    {
        InstallationInfo {
            id: copy_string(&self.id),
            title: copy_string(&self.title),
            is_user: self.is_user,
        }
    }
}

/// The descriptions of a list of installations.
pub open spec fn infos(list: Seq<InstallationInfo>) -> Seq<InstallationInfoView> {
    Seq::new(list.len(), |i: int| list[i]@)
}

/// The first place at or after `from` where `list` holds an installation
/// with the identifier `id`.
pub open spec fn installation_position(list: Seq<InstallationInfoView>, id: Seq<char>, from: int)
    -> Option<int>
    decreases list.len() - from,
{
    if from < 0 || from >= list.len() {
        None
    } else if list[from].id == id {
        Some(from)
    } else {
        installation_position(list, id, from + 1)
    }
}

/// What is found comes from the list and has the identifier looked for;
/// nothing before it has.
pub proof fn lemma_installation_position(list: Seq<InstallationInfoView>, id: Seq<char>, from: int)
    requires
        0 <= from,
    ensures
        match installation_position(list, id, from) {
            Some(at) => from <= at < list.len() && list[at].id == id && forall|j: int|
                from <= j < at ==> list[j].id != id,
            None => forall|j: int| from <= j < list.len() ==> list[j].id != id,
        },
    decreases list.len() - from,
{
    if from < list.len() && list[from].id != id {
        lemma_installation_position(list, id, from + 1);
    }
}

/// Finds the installation with the identifier `id`: the first one, should
/// the list hold several.
pub fn find_installation(list: &Vec<InstallationInfo>, id: &str) -> (found: Option<usize>)
    ensures
        match found {
            Some(at) => installation_position(infos(list@), id@, 0) == Some(at as int),
            None => installation_position(infos(list@), id@, 0) is None,
        },
{
    let mut i: usize = 0;
    while i < list.len()
        invariant
            i <= list.len(),
            installation_position(infos(list@), id@, 0) == installation_position(
                infos(list@),
                id@,
                i as int,
            ),
        decreases list.len() - i,
    {
        if str_eq(list[i].id.as_str(), id) {
            return Some(i);
        }
        i += 1;
    }
    None
}

/// The contents of an installation, as plain mathematical values.
pub struct InstallationStateView {
    pub info: InstallationInfoView,
    pub packages: Seq<InstalledPackageView>,
    pub remotes: Seq<RemoteInfoView>,
}

/// What an installation holds at one moment: its packages and the remotes
/// it is configured with.
#[derive(Debug)]
pub struct InstallationState {
    pub info: InstallationInfo,
    pub packages: Vec<InstalledPackage>,
    pub remotes: Vec<RemoteInfo>,
}

impl View for InstallationState {
    type V = InstallationStateView;

    open spec fn view(&self) -> InstallationStateView {
        InstallationStateView {
            info: self.info@,
            packages: Seq::new(self.packages@.len(), |i: int| self.packages@[i]@),
            remotes: Seq::new(self.remotes@.len(), |i: int| self.remotes@[i]@),
        }
    }
}

/// The first place at or after `from` where `packages` holds the ref `ref_`.
pub open spec fn package_position(packages: Seq<InstalledPackageView>, ref_: Seq<char>, from: int)
    -> Option<int>
    decreases packages.len() - from,
{
    if from < 0 || from >= packages.len() {
        None
    } else if packages[from].ref_ == ref_ {
        Some(from)
    } else {
        package_position(packages, ref_, from + 1)
    }
}

/// What is found is a package with the ref looked for, and the first such.
pub proof fn lemma_package_position(packages: Seq<InstalledPackageView>, ref_: Seq<char>, from: int)
    requires
        0 <= from,
    ensures
        match package_position(packages, ref_, from) {
            Some(at) => from <= at < packages.len() && packages[at].ref_ == ref_ && forall|j: int|
                from <= j < at ==> packages[j].ref_ != ref_,
            None => forall|j: int| from <= j < packages.len() ==> packages[j].ref_ != ref_,
        },
    decreases packages.len() - from,
{
    if from < packages.len() && packages[from].ref_ != ref_ {
        lemma_package_position(packages, ref_, from + 1);
    }
}

/// The first place at or after `from` where `remotes` holds a remote whose
/// repository lies at `url`.
pub open spec fn remote_position(remotes: Seq<RemoteInfoView>, url: Seq<char>, from: int)
    -> Option<int>
    decreases remotes.len() - from,
{
    if from < 0 || from >= remotes.len() {
        None
    } else if remotes[from].repository_url == url {
        Some(from)
    } else {
        remote_position(remotes, url, from + 1)
    }
}

/// What is found is a remote with the repository looked for, and the first
/// such.
pub proof fn lemma_remote_position(remotes: Seq<RemoteInfoView>, url: Seq<char>, from: int)
    requires
        0 <= from,
    ensures
        match remote_position(remotes, url, from) {
            Some(at) => from <= at < remotes.len() && remotes[at].repository_url == url
                && forall|j: int| from <= j < at ==> remotes[j].repository_url != url,
            None => forall|j: int| from <= j < remotes.len() ==> remotes[j].repository_url != url,
        },
    decreases remotes.len() - from,
{
    if from < remotes.len() && remotes[from].repository_url != url {
        lemma_remote_position(remotes, url, from + 1);
    }
}

impl InstallationStateView {
    /// Whether the installation holds a package with the ref `ref_`.
    pub open spec fn holds_package(self, ref_: Seq<char>) -> bool {
        exists|i: int| 0 <= i < self.packages.len() && #[trigger] self.packages[i].ref_ == ref_
    }
}

impl InstallationState {
    /// Finds the installed package with the ref `ref_`: the first one,
    /// should the installation list several.
    pub fn find_package(&self, ref_: &str) -> (found: Option<usize>)
        ensures
            match found {
                Some(at) => package_position(self@.packages, ref_@, 0) == Some(at as int) && at
                    < self.packages@.len(),
                None => package_position(self@.packages, ref_@, 0) is None,
            },
    {
        let mut i: usize = 0;
        while i < self.packages.len()
            invariant
                i <= self.packages.len(),
                package_position(self@.packages, ref_@, 0) == package_position(
                    self@.packages,
                    ref_@,
                    i as int,
                ),
            decreases self.packages.len() - i,
        {
            if str_eq(self.packages[i].ref_.as_str(), ref_) {
                return Some(i);
            }
            i += 1;
        }
        None
    }

    /// Finds the configured remote whose repository lies at `url`: the
    /// first one, should several point there.
    pub fn find_remote(&self, url: &str) -> (found: Option<usize>)
        ensures
            match found {
                Some(at) => remote_position(self@.remotes, url@, 0) == Some(at as int) && at
                    < self.remotes@.len(),
                None => remote_position(self@.remotes, url@, 0) is None,
            },
    {
        let mut i: usize = 0;
        while i < self.remotes.len()
            invariant
                i <= self.remotes.len(),
                remote_position(self@.remotes, url@, 0) == remote_position(
                    self@.remotes,
                    url@,
                    i as int,
                ),
            decreases self.remotes.len() - i,
        {
            if str_eq(self.remotes[i].repository_url.as_str(), url) {
                return Some(i);
            }
            i += 1;
        }
        None
    }

    /// Whether a package with the ref `ref_` is installed.
    pub fn is_package_installed(&self, ref_: &str) -> (installed: bool)
        ensures
            installed == self@.holds_package(ref_@),
    {
        proof {
            lemma_package_position(self@.packages, ref_@, 0);
        }
        self.find_package(ref_).is_some()
    }
}

} // verus!
