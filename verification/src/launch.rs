//! The launch as a state machine: which action comes next, and what a report
//! of it leads to.
//!
//! A launch has two parts, each a chain of steps run by one process. The
//! supervisor checks the root filesystem, creates the isolated process and
//! waits for it. The isolated process leaves the host's namespaces, binds
//! itself to its resource limits, switches its root, mounts `/proc`, runs the
//! command and waits for it. A step is taken only when the one before it has
//! succeeded; the first failure ends the launch.

use crate::action::{well_formed, Action, ActionView, Report};
use crate::encoding::{
    mode_flag_word, mode_word, mount_flag_word, mount_word, unmount_flag_word, unmount_word,
};
use crate::error::{
    status_of, CallSite, Cause, ControllerOperation, Defect, ExecutionFault, Field, LaunchError,
    MountOperation, STATUS_EXECUTION,
};
use crate::guarantees::actions_are_fit_for_the_kernel;
use crate::namespaces::{
    creation_kinds, flag_set, required_kinds, NamespaceFlagSet, NamespaceKind,
};
use crate::request::{
    ceiling_file, checked, controller_root, group_directory, membership_file, notification_file,
    relocation_path, standard_request, texts, valid_request, LaunchRequest, RequestView,
    ResourcePolicy,
};
use crate::text::{copy_texts, join_path, render_decimal, signed_decimal};
use vstd::prelude::*;
use vstd::string::*;

verus! {

/// The size in bytes of the stack that the isolated process starts on.
pub const STACK_SIZE: usize = 1024 * 1024;

/// The hostname of a container that was given none.
pub open spec fn default_hostname() -> Seq<char> {
    "vasquod"@
}

/// The cgroup name of a container that was given none.
pub open spec fn default_cgroup() -> Seq<char> {
    "vasquod-container"@
}

/// One step of a launch.
#[derive(Clone, Copy, Debug, PartialEq, Eq, Structural)]
pub enum Step {
    /// Supervisor: find out whether the root filesystem path names a
    /// directory.
    CheckRootfs,
    /// Supervisor: create the isolated process in its new namespaces.
    CreateIsolated,
    /// Supervisor: wait for the isolated process.
    AwaitIsolated,
    /// Isolated process: find the mount point of the pids controller.
    LocateController,
    /// Isolated process: leave the host's namespaces.
    LeaveNamespaces,
    /// Isolated process: create the group directory, or reuse it.
    CreateGroup,
    /// Isolated process: write the process-count ceiling.
    WriteCeiling,
    /// Isolated process: switch release notification on.
    WriteNotification,
    /// Isolated process: add itself to the group.
    JoinGroup,
    /// Isolated process: set the hostname.
    NameHost,
    /// Isolated process: bind-mount the new root onto itself, recursively.
    BindRoot,
    /// Isolated process: remove a stale relocation directory.
    ClearRelocation,
    /// Isolated process: create the relocation directory.
    MakeRelocation,
    /// Isolated process: exchange the root.
    SwitchRoot,
    /// Isolated process: enter the new root.
    EnterRoot,
    /// Isolated process: detach the relocated old root.
    DetachOldRoot,
    /// Isolated process: mount a fresh `/proc`.
    MountProc,
    /// Isolated process: start the command.
    StartCommand,
    /// Isolated process: wait for the command.
    AwaitCommand,
}

/// How far the isolation of a launch has come.
#[derive(Clone, Copy, Debug, PartialEq, Eq, Structural)]
pub enum Stage {
    /// Nothing has been changed yet.
    Created,
    /// The process has left the host's namespaces.
    NamespacesSet,
    /// The process is bound to its resource limits.
    ResourceBound,
    /// The root is switched and the old root detached.
    RootSwitched,
    /// A fresh `/proc` is mounted.
    ProcMounted,
    /// The command, or the isolated process, is running.
    Running,
    /// The launch has ended with the exit status of the command.
    Exited,
    /// The launch has failed.
    Failed,
}

/// Where a launch stands.
#[derive(Clone, Copy, Debug, PartialEq, Eq, Structural)]
pub enum Progress {
    /// The action of this step is to be performed next.
    Pending(Step),
    /// The awaited process has exited with this status.
    Exited(isize),
    /// The launch has failed with `error` in the step `at`.
    Failed { error: LaunchError, at: Step },
}

/// The step that follows `step` in its chain, if `step` is not the last.
pub open spec fn successor(step: Step) -> Option<Step> {
    match step {
        Step::CheckRootfs => Some(Step::CreateIsolated),
        Step::CreateIsolated => Some(Step::AwaitIsolated),
        Step::AwaitIsolated => None,
        Step::LocateController => Some(Step::LeaveNamespaces),
        Step::LeaveNamespaces => Some(Step::CreateGroup),
        Step::CreateGroup => Some(Step::WriteCeiling),
        Step::WriteCeiling => Some(Step::WriteNotification),
        Step::WriteNotification => Some(Step::JoinGroup),
        Step::JoinGroup => Some(Step::NameHost),
        Step::NameHost => Some(Step::BindRoot),
        Step::BindRoot => Some(Step::ClearRelocation),
        Step::ClearRelocation => Some(Step::MakeRelocation),
        Step::MakeRelocation => Some(Step::SwitchRoot),
        Step::SwitchRoot => Some(Step::EnterRoot),
        Step::EnterRoot => Some(Step::DetachOldRoot),
        Step::DetachOldRoot => Some(Step::MountProc),
        Step::MountProc => Some(Step::StartCommand),
        Step::StartCommand => Some(Step::AwaitCommand),
        Step::AwaitCommand => None,
    }
}

/// Whether `step` waits for a process, and so ends its chain.
pub open spec fn awaits(step: Step) -> bool {
    step == Step::AwaitIsolated || step == Step::AwaitCommand
}

/// The stage of a launch whose next step is `step`.
pub open spec fn stage_before(step: Step) -> Stage {
    match step {
        Step::CheckRootfs | Step::CreateIsolated => Stage::Created,
        Step::AwaitIsolated => Stage::Running,
        Step::LocateController | Step::LeaveNamespaces => Stage::Created,
        Step::CreateGroup | Step::WriteCeiling | Step::WriteNotification | Step::JoinGroup =>
            Stage::NamespacesSet,
        Step::NameHost
        | Step::BindRoot
        | Step::ClearRelocation
        | Step::MakeRelocation
        | Step::SwitchRoot
        | Step::EnterRoot
        | Step::DetachOldRoot => Stage::ResourceBound,
        Step::MountProc => Stage::RootSwitched,
        Step::StartCommand => Stage::ProcMounted,
        Step::AwaitCommand => Stage::Running,
    }
}

/// The stage of a launch that stands at `progress`.
pub open spec fn stage_of(progress: Progress) -> Stage {
    match progress {
        Progress::Pending(step) => stage_before(step),
        Progress::Exited(_) => Stage::Exited,
        Progress::Failed { .. } => Stage::Failed,
    }
}

/// Whether a refusal with `cause` leaves the purpose of `step` achieved: a
/// group directory that is already there is reused, and a relocation
/// directory that is not there needs no removal.
pub open spec fn tolerated(step: Step, cause: Cause) -> bool {
    ||| step == Step::CreateGroup && cause == Cause::AlreadyExists
    ||| step == Step::ClearRelocation && cause == Cause::NotFound
}

/// The error of a launch that fails in `step` with `cause`.
pub open spec fn failure(step: Step, cause: Cause) -> LaunchError {
    match step {
        Step::CheckRootfs => LaunchError::Configuration {
            field: Field::Rootfs,
            defect: Defect::NotADirectory,
        },
        Step::CreateIsolated => LaunchError::Privilege {
            site: CallSite::Creation,
            namespaces: flag_set(creation_kinds()),
            cause,
        },
        Step::LeaveNamespaces => LaunchError::Privilege {
            site: CallSite::Unshare,
            namespaces: flag_set(required_kinds()),
            cause,
        },
        Step::NameHost => LaunchError::Privilege {
            site: CallSite::Hostname,
            namespaces: flag_set(set![NamespaceKind::Uts]),
            cause,
        },
        Step::LocateController => LaunchError::ResourceControllerUnavailable {
            step: ControllerOperation::Locate,
            cause,
        },
        Step::CreateGroup => LaunchError::ResourceControllerUnavailable {
            step: ControllerOperation::CreateGroup,
            cause,
        },
        Step::WriteCeiling => LaunchError::ResourceControllerUnavailable {
            step: ControllerOperation::WriteCeiling,
            cause,
        },
        Step::WriteNotification => LaunchError::ResourceControllerUnavailable {
            step: ControllerOperation::WriteNotification,
            cause,
        },
        Step::JoinGroup => LaunchError::ResourceControllerUnavailable {
            step: ControllerOperation::Join,
            cause,
        },
        Step::BindRoot => LaunchError::MountStage { operation: MountOperation::Bind, cause },
        Step::ClearRelocation | Step::MakeRelocation | Step::SwitchRoot | Step::EnterRoot =>
            LaunchError::MountStage { operation: MountOperation::Switch, cause },
        Step::DetachOldRoot => LaunchError::MountStage { operation: MountOperation::Detach, cause },
        Step::MountProc => LaunchError::MountStage { operation: MountOperation::ProcMount, cause },
        Step::StartCommand => LaunchError::Execution { fault: ExecutionFault::NotStarted(cause) },
        Step::AwaitIsolated | Step::AwaitCommand => LaunchError::Execution {
            fault: ExecutionFault::Lost(cause),
        },
    }
}

/// Why `report` makes `step` fail, or `None` if `step` has succeeded by it.
///
/// A step that waits for a process succeeds only by the report that the
/// process has exited with a code. Every other step succeeds by the report
/// that its action was performed, or by a refusal that it tolerates. A report
/// of the wrong kind fails the step as an unexpected one.
pub open spec fn rejection(step: Step, report: Report) -> Option<LaunchError> {
    if awaits(step) {
        match report {
            Report::Terminated(Some(_)) => None,
            Report::Terminated(None) => Some(
                LaunchError::Execution { fault: ExecutionFault::Abnormal },
            ),
            Report::Refused(cause) => Some(failure(step, cause)),
            Report::Done => Some(failure(step, Cause::Unexpected)),
        }
    } else {
        match report {
            Report::Done => None,
            Report::Refused(cause) => if tolerated(step, cause) {
                None
            } else {
                Some(failure(step, cause))
            },
            Report::Terminated(_) => Some(failure(step, Cause::Unexpected)),
        }
    }
}

/// The exit status that a termination is translated into: the exit code of a
/// process that exited, the sentinel of an execution error for one that was
/// terminated abnormally.
pub open spec fn status_of_termination(code: Option<i32>) -> int {
    match code {
        Some(code) => code as int,
        None => STATUS_EXECUTION as int,
    }
}

/// Where a launch stands after `report`, if it stood at `progress` before.
///
/// A launch that has ended stays where it is. A pending step that the report
/// rejects fails the launch in that step. One that succeeds makes the next
/// step pending, or ends the launch with the exit code that was reported.
pub open spec fn after(progress: Progress, report: Report) -> Progress {
    match progress {
        Progress::Pending(step) => match rejection(step, report) {
            Some(error) => Progress::Failed { error, at: step },
            None => match successor(step) {
                Some(next) => Progress::Pending(next),
                None => match report {
                    Report::Terminated(Some(code)) => Progress::Exited(code as isize),
                    _ => progress,
                },
            },
        },
        _ => progress,
    }
}

/// The exit status of a launch that stands at `progress`: none while a step
/// is pending, the command's own status once it has exited, the status of
/// the error once the launch has failed.
pub open spec fn exit_status_of(progress: Progress) -> Option<int> {
    match progress {
        Progress::Pending(_) => None,
        Progress::Exited(status) => Some(status as int),
        Progress::Failed { error, .. } => Some(status_of(error)),
    }
}

/// The action of `step` in a launch of `request` whose isolated process has
/// the process id `pid`.
pub open spec fn action_of(request: RequestView, pid: int, step: Step) -> ActionView {
    match step {
        Step::CheckRootfs => ActionView::ProbeDirectory { path: request.rootfs },
        Step::CreateIsolated => ActionView::CreateProcess {
            namespaces: creation_kinds(),
            stack_size: STACK_SIZE as nat,
        },
        Step::AwaitIsolated => ActionView::AwaitProcess,
        Step::LocateController => ActionView::ProbeDirectory { path: controller_root() },
        Step::LeaveNamespaces => ActionView::Unshare { namespaces: required_kinds() },
        Step::CreateGroup => ActionView::CreateDirectory {
            path: group_directory(request.policy.name),
            mode: mode_word(true, true, true),
        },
        Step::WriteCeiling => ActionView::WriteFile {
            path: ceiling_file(request.policy.name),
            contents: signed_decimal(request.policy.max_processes as int),
        },
        Step::WriteNotification => ActionView::WriteFile {
            path: notification_file(request.policy.name),
            contents: signed_decimal(
                if request.policy.notify_on_release {
                    1
                } else {
                    0
                },
            ),
        },
        Step::JoinGroup => ActionView::WriteFile {
            path: membership_file(request.policy.name),
            contents: signed_decimal(pid),
        },
        Step::NameHost => ActionView::SetHostname { name: request.hostname },
        Step::BindRoot => ActionView::Mount {
            source: request.rootfs,
            target: request.rootfs,
            fstype: None,
            flags: mount_word(true, true),
        },
        Step::ClearRelocation => ActionView::RemoveTree { path: relocation_path(request.rootfs) },
        Step::MakeRelocation => ActionView::CreateDirectory {
            path: relocation_path(request.rootfs),
            mode: mode_word(true, true, true),
        },
        Step::SwitchRoot => ActionView::PivotRoot {
            new_root: request.rootfs,
            put_old: relocation_path(request.rootfs),
        },
        Step::EnterRoot => ActionView::ChangeDirectory { path: "/"@ },
        Step::DetachOldRoot => ActionView::Unmount {
            target: relocation_path("/"@),
            unmount_flags: unmount_word(true),
        },
        Step::MountProc => ActionView::Mount {
            source: "proc"@,
            target: "/proc"@,
            fstype: Some("proc"@),
            flags: mount_word(false, false),
        },
        Step::StartCommand => ActionView::Spawn { command: request.command, args: request.args },
        Step::AwaitCommand => ActionView::AwaitExit,
    }
}

/// What a launch says: its request, the process id of the isolated process
/// as that process sees it, and where the launch stands.
pub struct LaunchView {
    pub request: RequestView,
    pub pid: int,
    pub progress: Progress,
}

/// One process's part of a launch.
#[derive(Debug, PartialEq, Eq)]
pub struct Launch {
    request: LaunchRequest,
    pid: i32,
    progress: Progress,
}

impl View for Launch {
    type V = LaunchView;

    closed spec fn view(&self) -> LaunchView {
        LaunchView { request: self.request@, pid: self.pid as int, progress: self.progress }
    }
}

impl Clone for Launch {
    fn clone(&self) -> (copy: Self)
        ensures
            copy@ == self@,
    {
        Launch { request: self.request.clone(), pid: self.pid, progress: self.progress }
    }
}

impl Step {
    /// The step that follows this one in its chain.
    pub fn successor(&self) -> (next: Option<Step>)
        ensures
            next == successor(*self),
    {
        match self {
            Step::CheckRootfs => Some(Step::CreateIsolated),
            Step::CreateIsolated => Some(Step::AwaitIsolated),
            Step::AwaitIsolated => None,
            Step::LocateController => Some(Step::LeaveNamespaces),
            Step::LeaveNamespaces => Some(Step::CreateGroup),
            Step::CreateGroup => Some(Step::WriteCeiling),
            Step::WriteCeiling => Some(Step::WriteNotification),
            Step::WriteNotification => Some(Step::JoinGroup),
            Step::JoinGroup => Some(Step::NameHost),
            Step::NameHost => Some(Step::BindRoot),
            Step::BindRoot => Some(Step::ClearRelocation),
            Step::ClearRelocation => Some(Step::MakeRelocation),
            Step::MakeRelocation => Some(Step::SwitchRoot),
            Step::SwitchRoot => Some(Step::EnterRoot),
            Step::EnterRoot => Some(Step::DetachOldRoot),
            Step::DetachOldRoot => Some(Step::MountProc),
            Step::MountProc => Some(Step::StartCommand),
            Step::StartCommand => Some(Step::AwaitCommand),
            Step::AwaitCommand => None,
        }
    }

    /// The stage of a launch whose next step is this one.
    pub fn stage(&self) -> (stage: Stage)
        ensures
            stage == stage_before(*self),
    {
        match self {
            Step::CheckRootfs | Step::CreateIsolated => Stage::Created,
            Step::AwaitIsolated => Stage::Running,
            Step::LocateController | Step::LeaveNamespaces => Stage::Created,
            Step::CreateGroup | Step::WriteCeiling | Step::WriteNotification | Step::JoinGroup => {
                Stage::NamespacesSet
            },
            Step::NameHost
            | Step::BindRoot
            | Step::ClearRelocation
            | Step::MakeRelocation
            | Step::SwitchRoot
            | Step::EnterRoot
            | Step::DetachOldRoot => Stage::ResourceBound,
            Step::MountProc => Stage::RootSwitched,
            Step::StartCommand => Stage::ProcMounted,
            Step::AwaitCommand => Stage::Running,
        }
    }

    /// The error of a launch that fails in this step with `cause`.
    pub fn failure(&self, cause: Cause) -> (error: LaunchError)
        ensures
            error == failure(*self, cause),
    {
        match self {
            Step::CheckRootfs => LaunchError::Configuration {
                field: Field::Rootfs,
                defect: Defect::NotADirectory,
            },
            Step::CreateIsolated => LaunchError::Privilege {
                site: CallSite::Creation,
                namespaces: NamespaceFlagSet::at_creation(),
                cause,
            },
            Step::LeaveNamespaces => LaunchError::Privilege {
                site: CallSite::Unshare,
                namespaces: NamespaceFlagSet::required(),
                cause,
            },
            Step::NameHost => {
                let namespaces = NamespaceFlagSet::empty().with(NamespaceKind::Uts);
                assert(namespaces == flag_set(set![NamespaceKind::Uts]));
                LaunchError::Privilege { site: CallSite::Hostname, namespaces, cause }
            },
            Step::LocateController => LaunchError::ResourceControllerUnavailable {
                step: ControllerOperation::Locate,
                cause,
            },
            Step::CreateGroup => LaunchError::ResourceControllerUnavailable {
                step: ControllerOperation::CreateGroup,
                cause,
            },
            Step::WriteCeiling => LaunchError::ResourceControllerUnavailable {
                step: ControllerOperation::WriteCeiling,
                cause,
            },
            Step::WriteNotification => LaunchError::ResourceControllerUnavailable {
                step: ControllerOperation::WriteNotification,
                cause,
            },
            Step::JoinGroup => LaunchError::ResourceControllerUnavailable {
                step: ControllerOperation::Join,
                cause,
            },
            Step::BindRoot => LaunchError::MountStage { operation: MountOperation::Bind, cause },
            Step::ClearRelocation | Step::MakeRelocation | Step::SwitchRoot | Step::EnterRoot => {
                LaunchError::MountStage { operation: MountOperation::Switch, cause }
            },
            Step::DetachOldRoot => LaunchError::MountStage {
                operation: MountOperation::Detach,
                cause,
            },
            Step::MountProc => LaunchError::MountStage {
                operation: MountOperation::ProcMount,
                cause,
            },
            Step::StartCommand => LaunchError::Execution {
                fault: ExecutionFault::NotStarted(cause),
            },
            Step::AwaitIsolated | Step::AwaitCommand => LaunchError::Execution {
                fault: ExecutionFault::Lost(cause),
            },
        }
    }

    /// Why `report` makes this step fail, or `None` if the step has succeeded
    /// by it.
    pub fn rejection(&self, report: Report) -> (error: Option<LaunchError>)
        ensures
            error == rejection(*self, report),
    {
        let waits = match self {
            Step::AwaitIsolated | Step::AwaitCommand => true,
            _ => false,
        };
        if waits {
            match report {
                Report::Terminated(Some(_)) => None,
                Report::Terminated(None) => Some(
                    LaunchError::Execution { fault: ExecutionFault::Abnormal },
                ),
                Report::Refused(cause) => Some(self.failure(cause)),
                Report::Done => Some(self.failure(Cause::Unexpected)),
            }
        } else {
            match report {
                Report::Done => None,
                Report::Refused(cause) => {
                    let reused = match (self, cause) {
                        (Step::CreateGroup, Cause::AlreadyExists) => true,
                        (Step::ClearRelocation, Cause::NotFound) => true,
                        _ => false,
                    };
                    if reused {
                        None
                    } else {
                        Some(self.failure(cause))
                    }
                },
                Report::Terminated(_) => Some(self.failure(Cause::Unexpected)),
            }
        }
    }
}

/// Translates the termination of a process into an exit status: its exit
/// code if it exited, the sentinel of an execution error if it was
/// terminated abnormally.
pub fn termination_status(code: Option<i32>) -> (status: isize)
    ensures
        status == status_of_termination(code),
{
    match code {
        Some(code) => code as isize,
        None => STATUS_EXECUTION,
    }
}

impl Launch {
    /// The launch request, which is valid.
    pub fn request(&self) -> (request: &LaunchRequest)
        ensures
            request@ == self@.request,
            valid_request(request@),
    {
        proof {
            use_type_invariant(&self.request);
        }
        &self.request
    }

    /// The process id of the isolated process, as that process sees it.
    pub fn pid(&self) -> (pid: i32)
        ensures
            pid == self@.pid,
    {
        self.pid
    }

    /// Where the launch stands.
    pub fn progress(&self) -> (progress: Progress)
        ensures
            progress == self@.progress,
    {
        self.progress
    }

    /// How far the isolation has come.
    pub fn stage(&self) -> (stage: Stage)
        ensures
            stage == stage_of(self@.progress),
    {
        match self.progress {
            Progress::Pending(step) => step.stage(),
            Progress::Exited(_) => Stage::Exited,
            Progress::Failed { .. } => Stage::Failed,
        }
    }

    /// The error of a launch that has failed.
    pub fn error(&self) -> (error: Option<LaunchError>)
        ensures
            error == match self@.progress {
                Progress::Failed { error, .. } => Some(error),
                _ => None,
            },
    {
        match self.progress {
            Progress::Failed { error, .. } => Some(error),
            _ => None,
        }
    }

    /// The exit status of the launch, once it has ended.
    pub fn exit_status(&self) -> (status: Option<isize>)
        ensures
            match status {
                Some(status) => exit_status_of(self@.progress) == Some(status as int),
                None => exit_status_of(self@.progress) is None,
            },
    {
        match self.progress {
            Progress::Pending(_) => None,
            Progress::Exited(status) => Some(status),
            Progress::Failed { error, .. } => Some(error.exit_status()),
        }
    }

    /// The action to perform next, or `None` if the launch has ended.
    ///
    /// The action is the one of the pending step, and it is fit for the
    /// kernel: its texts hold no NUL and its paths are absolute.
    pub fn pending(&self) -> (action: Option<Action>)
        ensures
            match action {
                Some(action) => {
                    &&& self@.progress matches Progress::Pending(step)
                    &&& action@ == action_of(self@.request, self@.pid, step)
                    &&& well_formed(action@)
                },
                None => !(self@.progress is Pending),
            },
    {
        let step = match self.progress {
            Progress::Pending(step) => step,
            _ => {
                return None;
            },
        };
        proof {
            use_type_invariant(&self.request);
            actions_are_fit_for_the_kernel(self@.request, self@.pid as int, step);
        }
        let request = &self.request;
        let policy = request.policy();
        let action = match step {
            Step::CheckRootfs => Action::ProbeDirectory { path: request.rootfs().to_owned() },
            Step::CreateIsolated => Action::CreateProcess {
                namespaces: NamespaceFlagSet::at_creation(),
                stack_size: STACK_SIZE,
            },
            Step::AwaitIsolated => Action::AwaitProcess,
            Step::LocateController => Action::ProbeDirectory {
                path: ResourcePolicy::controller_root(),
            },
            Step::LeaveNamespaces => Action::Unshare { namespaces: NamespaceFlagSet::required() },
            Step::CreateGroup => Action::CreateDirectory {
                path: policy.directory(),
                mode: mode_flag_word(true, true, true),
            },
            Step::WriteCeiling => Action::WriteFile {
                path: policy.ceiling_file(),
                contents: policy.ceiling_text(),
            },
            Step::WriteNotification => Action::WriteFile {
                path: policy.notification_file(),
                contents: policy.notification_text(),
            },
            Step::JoinGroup => Action::WriteFile {
                path: policy.membership_file(),
                contents: render_decimal(self.pid as i64),
            },
            Step::NameHost => Action::SetHostname { name: request.hostname().to_owned() },
            Step::BindRoot => Action::Mount {
                source: request.rootfs().to_owned(),
                target: request.rootfs().to_owned(),
                fstype: None,
                flags: mount_flag_word(true, true),
            },
            Step::ClearRelocation => Action::RemoveTree { path: request.relocation_path() },
            Step::MakeRelocation => Action::CreateDirectory {
                path: request.relocation_path(),
                mode: mode_flag_word(true, true, true),
            },
            Step::SwitchRoot => Action::PivotRoot {
                new_root: request.rootfs().to_owned(),
                put_old: request.relocation_path(),
            },
            Step::EnterRoot => Action::ChangeDirectory { path: "/".to_owned() },
            Step::DetachOldRoot => Action::Unmount {
                target: join_path("/", ".oldroot"),
                unmount_flags: unmount_flag_word(true),
            },
            Step::MountProc => Action::Mount {
                source: "proc".to_owned(),
                target: "/proc".to_owned(),
                fstype: Some("proc".to_owned()),
                flags: mount_flag_word(false, false),
            },
            Step::StartCommand => Action::Spawn {
                command: request.command().to_owned(),
                args: copy_texts(request.args()),
            },
            Step::AwaitCommand => Action::AwaitExit,
        };
        Some(action)
    }

    /// Takes the report of the pending action and moves the launch on.
    ///
    /// A launch that has ended ignores the report.
    pub fn advance(&mut self, report: Report)
        ensures
            final(self)@.request == old(self)@.request,
            final(self)@.pid == old(self)@.pid,
            final(self)@.progress == after(old(self)@.progress, report),
    {
        let step = match self.progress {
            Progress::Pending(step) => step,
            _ => {
                return ;
            },
        };
        match step.rejection(report) {
            Some(error) => {
                self.progress = Progress::Failed { error, at: step };
            },
            None => match step.successor() {
                Some(next) => {
                    self.progress = Progress::Pending(next);
                },
                None => match report {
                    Report::Terminated(code) => {
                        self.progress = Progress::Exited(termination_status(code));
                    },
                    _ => {},
                },
            },
        }
    }
}

/// The launch of a checked request that starts with `first`, or the error
/// that the check gave.
pub open spec fn planned(
    request: Result<RequestView, LaunchError>,
    pid: int,
    first: Step,
) -> Result<LaunchView, LaunchError> {
    match request {
        Ok(request) => Ok(LaunchView { request, pid, progress: Progress::Pending(first) }),
        Err(error) => Err(error),
    }
}

/// Plans the isolated process's part of a launch: leaving the host's
/// namespaces, binding to the resource limits of the group `cgroup_name`,
/// switching the root to `rootfs`, mounting `/proc`, and running `command`
/// with `command_args`. `pid` is the process id of the isolated process as
/// that process sees it.
///
/// The request is checked first. A valid one gives a launch whose first step
/// is to find the pids controller; an invalid one gives the configuration
/// error of its first defect, and nothing is to be done.
pub fn spawn_child(
    hostname: &str,
    cgroup_name: &str,
    rootfs: &str,
    command: &str,
    command_args: &[&str],
    pid: i32,
) -> (launch: Result<Launch, LaunchError>)
    ensures
        match launch {
            Ok(launch) => Ok::<LaunchView, LaunchError>(launch@),
            Err(error) => Err(error),
        } == planned(
            checked(
                standard_request(
                    rootfs@,
                    command@,
                    texts(command_args@),
                    hostname@,
                    cgroup_name@,
                ),
            ),
            pid as int,
            Step::LocateController,
        ),
{
    match LaunchRequest::new(rootfs, command, command_args, hostname, cgroup_name) {
        Ok(request) => Ok(
            Launch { request, pid, progress: Progress::Pending(Step::LocateController) },
        ),
        Err(error) => Err(error),
    }
}

/// Plans the supervisor's part of a launch of `command` with `args` in a
/// container rooted at `rootfs`, with the default hostname and cgroup name:
/// checking the root filesystem, creating the isolated process, and waiting
/// for it.
///
/// The request is checked first. A valid one gives a launch whose first step
/// is to check that `rootfs` names a directory; an invalid one gives the
/// configuration error of its first defect, and nothing is to be done.
pub fn run_container(rootfs: &str, command: &str, args: Vec<&str>) -> (launch: Result<
    Launch,
    LaunchError,
>)
    ensures
        match launch {
            Ok(launch) => Ok::<LaunchView, LaunchError>(launch@),
            Err(error) => Err(error),
        } == planned(
            checked(
                standard_request(
                    rootfs@,
                    command@,
                    texts(args@),
                    default_hostname(),
                    default_cgroup(),
                ),
            ),
            0,
            Step::CheckRootfs,
        ),
{
    match LaunchRequest::new(rootfs, command, args.as_slice(), "vasquod", "vasquod-container") {
        Ok(request) => {
            Ok(Launch { request, pid: 0, progress: Progress::Pending(Step::CheckRootfs) })
        },
        Err(error) => Err(error),
    }
}

} // verus!
