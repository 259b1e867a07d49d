//! What a launch asks its caller to do, and what the caller reports back.

use crate::error::Cause;
use crate::namespaces::{NamespaceFlagSet, NamespaceKind};
use crate::text::{absolute, copy_texts, passable};
use vstd::prelude::*;

verus! {

/// One system-level operation that a launch asks its caller to perform.
///
/// An action carries every argument of the operation. Flag and mode words are
/// in the kernel's encoding. The caller answers an action that waits for a
/// process with [`Report::Terminated`], any other with [`Report::Done`], and
/// one that the operating system refuses with [`Report::Refused`].
#[derive(Debug, PartialEq, Eq)]
pub enum Action {
    /// Find out whether `path` names a directory. It is done if it does and
    /// refused if it does not.
    ProbeDirectory { path: String },
    /// Create the isolated process in new namespaces of the kinds in
    /// `namespaces`, with a stack of `stack_size` bytes, and run the isolated
    /// part of the launch in it.
    CreateProcess { namespaces: NamespaceFlagSet, stack_size: usize },
    /// Wait until the isolated process has terminated and reap it.
    AwaitProcess,
    /// Move the calling process into new namespaces of the kinds in
    /// `namespaces`.
    Unshare { namespaces: NamespaceFlagSet },
    /// Create the directory `path` with the permission bits `mode`.
    CreateDirectory { path: String, mode: u32 },
    /// Replace what `path` holds by `contents`.
    WriteFile { path: String, contents: String },
    /// Set the hostname to `name`.
    SetHostname { name: String },
    /// Mount `source` at `target` with the mount flags `flags`, as a
    /// filesystem of type `fstype` where one is given.
    Mount { source: String, target: String, fstype: Option<String>, flags: u64 },
    /// Remove the directory `path` and all that is in it.
    RemoveTree { path: String },
    /// Make `new_root` the root of the process and move the previous root to
    /// `put_old`.
    PivotRoot { new_root: String, put_old: String },
    /// Change the working directory to `path`.
    ChangeDirectory { path: String },
    /// Unmount `target` with the unmount flags `unmount_flags`.
    Unmount { target: String, unmount_flags: i32 },
    /// Start `command` with the arguments `args` as a child process.
    Spawn { command: String, args: Vec<String> },
    /// Wait until the started command has terminated.
    AwaitExit,
}

/// What an action says.
pub enum ActionView {
    ProbeDirectory { path: Seq<char> },
    CreateProcess { namespaces: Set<NamespaceKind>, stack_size: nat },
    AwaitProcess,
    Unshare { namespaces: Set<NamespaceKind> },
    CreateDirectory { path: Seq<char>, mode: int },
    WriteFile { path: Seq<char>, contents: Seq<char> },
    SetHostname { name: Seq<char> },
    Mount { source: Seq<char>, target: Seq<char>, fstype: Option<Seq<char>>, flags: int },
    RemoveTree { path: Seq<char> },
    PivotRoot { new_root: Seq<char>, put_old: Seq<char> },
    ChangeDirectory { path: Seq<char> },
    Unmount { target: Seq<char>, unmount_flags: int },
    Spawn { command: Seq<char>, args: Seq<Seq<char>> },
    AwaitExit,
}

impl View for Action {
    type V = ActionView;

    open spec fn view(&self) -> ActionView {
        match *self {
            Action::ProbeDirectory { path } => ActionView::ProbeDirectory { path: path@ },
            Action::CreateProcess { namespaces, stack_size } => ActionView::CreateProcess {
                namespaces: namespaces@,
                stack_size: stack_size as nat,
            },
            Action::AwaitProcess => ActionView::AwaitProcess,
            Action::Unshare { namespaces } => ActionView::Unshare { namespaces: namespaces@ },
            Action::CreateDirectory { path, mode } => ActionView::CreateDirectory {
                path: path@,
                mode: mode as int,
            },
            Action::WriteFile { path, contents } => ActionView::WriteFile {
                path: path@,
                contents: contents@,
            },
            Action::SetHostname { name } => ActionView::SetHostname { name: name@ },
            Action::Mount { source, target, fstype, flags } => ActionView::Mount {
                source: source@,
                target: target@,
                fstype: match fstype {
                    Some(name) => Some(name@),
                    None => None,
                },
                flags: flags as int,
            },
            Action::RemoveTree { path } => ActionView::RemoveTree { path: path@ },
            Action::PivotRoot { new_root, put_old } => ActionView::PivotRoot {
                new_root: new_root@,
                put_old: put_old@,
            },
            Action::ChangeDirectory { path } => ActionView::ChangeDirectory { path: path@ },
            Action::Unmount { target, unmount_flags } => ActionView::Unmount {
                target: target@,
                unmount_flags: unmount_flags as int,
            },
            Action::Spawn { command, args } => ActionView::Spawn {
                command: command@,
                args: args.deep_view(),
            },
            Action::AwaitExit => ActionView::AwaitExit,
        }
    }
}

impl Clone for Action {
    fn clone(&self) -> (copy: Self)
        ensures
            copy@ == self@,
    {
        match self {
            Action::ProbeDirectory { path } => Action::ProbeDirectory { path: path.clone() },
            Action::CreateProcess { namespaces, stack_size } => Action::CreateProcess {
                namespaces: *namespaces,
                stack_size: *stack_size,
            },
            Action::AwaitProcess => Action::AwaitProcess,
            Action::Unshare { namespaces } => Action::Unshare { namespaces: *namespaces },
            Action::CreateDirectory { path, mode } => Action::CreateDirectory {
                path: path.clone(),
                mode: *mode,
            },
            Action::WriteFile { path, contents } => Action::WriteFile {
                path: path.clone(),
                contents: contents.clone(),
            },
            Action::SetHostname { name } => Action::SetHostname { name: name.clone() },
            Action::Mount { source, target, fstype, flags } => Action::Mount {
                source: source.clone(),
                target: target.clone(),
                fstype: match fstype {
                    Some(name) => Some(name.clone()),
                    None => None,
                },
                flags: *flags,
            },
            Action::RemoveTree { path } => Action::RemoveTree { path: path.clone() },
            Action::PivotRoot { new_root, put_old } => Action::PivotRoot {
                new_root: new_root.clone(),
                put_old: put_old.clone(),
            },
            Action::ChangeDirectory { path } => Action::ChangeDirectory { path: path.clone() },
            Action::Unmount { target, unmount_flags } => Action::Unmount {
                target: target.clone(),
                unmount_flags: *unmount_flags,
            },
            Action::Spawn { command, args } => Action::Spawn {
                command: command.clone(),
                args: copy_texts(args),
            },
            Action::AwaitExit => Action::AwaitExit,
        }
    }
}

/// How an action went.
#[derive(Clone, Copy, Debug, PartialEq, Eq, Structural)]
pub enum Report {
    /// The action was performed.
    Done,
    /// The operating system refused the action.
    Refused(Cause),
    /// The awaited process has terminated: with its exit code if it exited,
    /// with `None` if it was terminated abnormally, for instance by a signal.
    Terminated(Option<i32>),
}

/// Whether `path` can be handed to the kernel and means the same wherever
/// the process stands: it is absolute and holds no NUL.
pub open spec fn fixed_path(path: Seq<char>) -> bool {
    absolute(path) && passable(path)
}

/// Whether every text of an action can be handed to the kernel, and every
/// path in it is absolute. The directory that takes the old root lies at or
/// under the new root, as the exchange of the root demands.
pub open spec fn well_formed(action: ActionView) -> bool {
    match action {
        ActionView::ProbeDirectory { path } => fixed_path(path),
        ActionView::CreateDirectory { path, .. } => fixed_path(path),
        ActionView::WriteFile { path, contents } => fixed_path(path) && passable(contents),
        ActionView::SetHostname { name } => name.len() > 0 && passable(name),
        ActionView::Mount { source, target, fstype, .. } => {
            &&& passable(source)
            &&& fixed_path(target)
            &&& fstype matches Some(name) ==> passable(name)
        },
        ActionView::RemoveTree { path } => fixed_path(path),
        ActionView::PivotRoot { new_root, put_old } => {
            &&& fixed_path(new_root)
            &&& fixed_path(put_old)
            &&& new_root.is_prefix_of(put_old)
        },
        ActionView::ChangeDirectory { path } => fixed_path(path),
        ActionView::Unmount { target, .. } => fixed_path(target),
        ActionView::Spawn { command, args } => {
            &&& command.len() > 0
            &&& passable(command)
            &&& forall|i: int| 0 <= i < args.len() ==> passable(#[trigger] args[i])
        },
        ActionView::CreateProcess { .. }
        | ActionView::AwaitProcess
        | ActionView::Unshare { .. }
        | ActionView::AwaitExit => true,
    }
}

/// Whether an action changes the mount table of the process that performs it.
pub open spec fn changes_mounts(action: ActionView) -> bool {
    action is Mount || action is PivotRoot || action is Unmount
}

/// Whether an action puts a process into new namespaces.
pub open spec fn changes_namespaces(action: ActionView) -> bool {
    action is CreateProcess || action is Unshare
}

} // verus!
