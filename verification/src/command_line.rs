//! The command line of a package operation.

use crate::sandbox_backend::SandboxBackend;
use crate::task::{FlatpakTask, FlatpakTaskKind, FlatpakTaskView};
use crate::text::{str_eq, texts};
use vstd::prelude::*;
use vstd::string::*;

verus! {

/// How the command line names an installation: the system-wide one, whose
/// identifier is `default`, and the user's, whose identifier is `user`, have
/// options of their own; any other is named by its identifier.
pub open spec fn installation_option(installation_id: Seq<char>) -> Seq<char> {
    if installation_id == "default"@ {
        "--system"@
    } else if installation_id == "user"@ {
        "--user"@
    } else {
        "--installation="@ + installation_id
    }
}

/// The option that lets an installation update a copy that is already
/// there; it is left out where the request says `no_update`.
pub open spec fn update_option(no_update: bool) -> Seq<Seq<char>> {
    if no_update {
        seq![]
    } else {
        seq!["--or-update"@]
    }
}

/// The command line of a package operation: the words that start the
/// package manager on the host, and then, by the kind of the operation, the
/// verb, the installation, and what the verb works on. An operation without
/// a kind gives the starting words alone.
pub open spec fn flatpak_args(task: FlatpakTaskView) -> Seq<Seq<char>> {
    let start = seq!["--host"@, "flatpak"@];
    let installation = installation_option(task.installation_id);
    match task.kind {
        FlatpakTaskKind::Install => start + seq!["install"@, installation] + update_option(
            task.no_update,
        ) + seq![task.remote, task.ref_, "-y"@],
        FlatpakTaskKind::InstallRefFile => start + seq!["install"@, installation]
            + update_option(task.no_update) + seq!["--from"@, task.path, "-y"@],
        FlatpakTaskKind::InstallBundleFile => start + seq!["install"@, installation]
            + update_option(task.no_update) + seq!["--bundle"@, task.path, "-y"@],
        FlatpakTaskKind::Uninstall => start + seq!["uninstall"@, installation, task.ref_, "-y"@],
        FlatpakTaskKind::Update => start + seq!["update"@, installation, task.ref_, "-y"@],
        FlatpakTaskKind::Unset => start,
    }
}

/// Appends a copy of `word` to `args`.
fn push_word(args: &mut Vec<String>, word: &str)
    ensures
        texts(final(args)@) == texts(old(args)@).push(word@),
{
    args.push(String::from_str(word));
    assert(texts(args@) =~= texts(old(args)@).push(word@));
}

impl SandboxBackend {
    /// Words the command line of `transaction`. Nothing but the request
    /// goes into it.
    pub fn get_flatpak_args(transaction: &FlatpakTask) -> (args: Vec<String>)
        ensures
            texts(args@) == flatpak_args(transaction@),
    {
        let mut args: Vec<String> = Vec::new();
        assert(texts(args@) =~= Seq::<Seq<char>>::empty());
        push_word(&mut args, "--host");
        push_word(&mut args, "flatpak");
        assert(texts(args@) =~= seq!["--host"@, "flatpak"@]);
        match transaction.kind {
            FlatpakTaskKind::Install => {
                push_word(&mut args, "install");
                Self::push_installation(&mut args, transaction.installation_id.as_str());
                Self::push_update_option(&mut args, transaction.no_update);
                push_word(&mut args, transaction.remote.as_str());
                push_word(&mut args, transaction.ref_.as_str());
                push_word(&mut args, "-y");
                assert(texts(args@) =~= flatpak_args(transaction@));
            },
            FlatpakTaskKind::InstallRefFile => {
                push_word(&mut args, "install");
                Self::push_installation(&mut args, transaction.installation_id.as_str());
                Self::push_update_option(&mut args, transaction.no_update);
                push_word(&mut args, "--from");
                push_word(&mut args, transaction.path.as_str());
                push_word(&mut args, "-y");
                assert(texts(args@) =~= flatpak_args(transaction@));
            },
            FlatpakTaskKind::InstallBundleFile => {
                push_word(&mut args, "install");
                Self::push_installation(&mut args, transaction.installation_id.as_str());
                Self::push_update_option(&mut args, transaction.no_update);
                push_word(&mut args, "--bundle");
                push_word(&mut args, transaction.path.as_str());
                push_word(&mut args, "-y");
                assert(texts(args@) =~= flatpak_args(transaction@));
            },
            FlatpakTaskKind::Uninstall => {
                push_word(&mut args, "uninstall");
                Self::push_installation(&mut args, transaction.installation_id.as_str());
                push_word(&mut args, transaction.ref_.as_str());
                push_word(&mut args, "-y");
                assert(texts(args@) =~= flatpak_args(transaction@));
            },
            FlatpakTaskKind::Update => {
                push_word(&mut args, "update");
                Self::push_installation(&mut args, transaction.installation_id.as_str());
                push_word(&mut args, transaction.ref_.as_str());
                push_word(&mut args, "-y");
                assert(texts(args@) =~= flatpak_args(transaction@));
            },
            FlatpakTaskKind::Unset => {},
        }
        args
    }

    /// Appends the option that names the installation.
    fn push_installation(args: &mut Vec<String>, installation_id: &str)
        ensures
            texts(final(args)@) == texts(old(args)@).push(installation_option(installation_id@)),
    {
        if str_eq(installation_id, "default") {
            push_word(args, "--system");
        } else if str_eq(installation_id, "user") {
            push_word(args, "--user");
        } else {
            let mut option = String::from_str("--installation=");
            option.append(installation_id);
            push_word(args, option.as_str());
        }
    }

    /// Appends the update option, unless the request rules updates out.
    fn push_update_option(args: &mut Vec<String>, no_update: bool)
        ensures
            texts(final(args)@) == texts(old(args)@) + update_option(no_update),
    {
        if !no_update {
            push_word(args, "--or-update");
            assert(texts(args@) =~= texts(old(args)@) + update_option(no_update));
        } else {
            assert(texts(args@) =~= texts(old(args)@) + update_option(no_update));
        }
    }
}

} // verus!
