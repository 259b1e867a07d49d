//! Why a launch fails, the exit status of each failure, and its diagnostic.

use crate::namespaces::{kinds_text, NamespaceFlagSet};
use crate::text::{render_decimal, signed_decimal};
use vstd::prelude::*;
use vstd::string::*;

verus! {

/// Why the operating system refused an action.
#[derive(Clone, Copy, Debug, PartialEq, Eq, Structural)]
pub enum Cause {
    /// What the action names does not exist.
    NotFound,
    /// What the action creates is already there.
    AlreadyExists,
    /// The process lacks the privilege or the access rights.
    PermissionDenied,
    /// The kernel does not support what was asked, or rejects the argument.
    Unsupported,
    /// The report does not answer the action that was pending.
    Unexpected,
    /// Any other failure, with the error number of the operating system.
    Other(i32),
}

/// A field of the launch request.
#[derive(Clone, Copy, Debug, PartialEq, Eq, Structural)]
pub enum Field {
    /// The root filesystem path.
    Rootfs,
    /// The command path.
    Command,
    /// One of the command's arguments.
    Argument,
    /// The hostname.
    Hostname,
    /// The cgroup identifier.
    CgroupName,
}

/// What is wrong with a field of the launch request.
#[derive(Clone, Copy, Debug, PartialEq, Eq, Structural)]
pub enum Defect {
    /// The field is empty.
    Missing,
    /// The path does not start at the filesystem root.
    NotAbsolute,
    /// The text holds a character that its use does not allow.
    Malformed,
    /// The path does not name a directory on disk.
    NotADirectory,
}

/// Where a launch asks the kernel for namespaces or uses one it was given.
#[derive(Clone, Copy, Debug, PartialEq, Eq, Structural)]
pub enum CallSite {
    /// The creation of the isolated process.
    Creation,
    /// The isolated process's own request to leave the host's namespaces.
    Unshare,
    /// The change of hostname inside the new UTS namespace.
    Hostname,
}

/// An operation on the pids controller.
#[derive(Clone, Copy, Debug, PartialEq, Eq, Structural)]
pub enum ControllerOperation {
    /// Finding the controller's mount point.
    Locate,
    /// Creating the container's group directory.
    CreateGroup,
    /// Writing the process-count ceiling.
    WriteCeiling,
    /// Writing the release-notification flag.
    WriteNotification,
    /// Adding the process to the group.
    Join,
}

/// One of the four operations of the mount stage.
#[derive(Clone, Copy, Debug, PartialEq, Eq, Structural)]
pub enum MountOperation {
    /// The recursive bind mount of the new root onto itself.
    Bind,
    /// The exchange of the process root, from preparing the relocation
    /// directory to entering the new root.
    Switch,
    /// The lazy unmount of the relocated old root.
    Detach,
    /// The mount of a fresh `/proc`.
    ProcMount,
}

/// How the execution of the target command went wrong.
#[derive(Clone, Copy, Debug, PartialEq, Eq, Structural)]
pub enum ExecutionFault {
    /// The command could not be started.
    NotStarted(Cause),
    /// The running command could not be waited for.
    Lost(Cause),
    /// The command was terminated abnormally, for instance by a signal.
    Abnormal,
}

/// A fatal condition of a launch. None is retried.
#[derive(Clone, Copy, Debug, PartialEq, Eq, Structural)]
pub enum LaunchError {
    /// A field of the launch request is missing or invalid.
    Configuration { field: Field, defect: Defect },
    /// The kernel refused a namespace request.
    Privilege { site: CallSite, namespaces: NamespaceFlagSet, cause: Cause },
    /// The pids controller is not mounted or cannot be used.
    ResourceControllerUnavailable { step: ControllerOperation, cause: Cause },
    /// An operation of the mount stage failed.
    MountStage { operation: MountOperation, cause: Cause },
    /// The target command failed to start or ended abnormally.
    Execution { fault: ExecutionFault },
}

/// The error number of Linux for an operation that is not permitted.
pub const OPERATION_NOT_PERMITTED: i32 = 1;

/// The error number of Linux for a file or directory that does not exist.
pub const NO_SUCH_ENTRY: i32 = 2;

/// The error number of Linux for access that is denied.
pub const ACCESS_DENIED: i32 = 13;

/// The error number of Linux for a file or directory that exists already.
pub const ENTRY_EXISTS: i32 = 17;

/// The error number of Linux for an argument that is invalid or unsupported.
pub const INVALID_ARGUMENT: i32 = 22;

/// The cause that an error number of the operating system stands for. The
/// numbers that a launch treats in a way of their own have causes of their
/// own; every other number is kept as it is.
pub open spec fn cause_of(code: int) -> Cause {
    if code == NO_SUCH_ENTRY {
        Cause::NotFound
    } else if code == ENTRY_EXISTS {
        Cause::AlreadyExists
    } else if code == ACCESS_DENIED || code == OPERATION_NOT_PERMITTED {
        Cause::PermissionDenied
    } else if code == INVALID_ARGUMENT {
        Cause::Unsupported
    } else {
        Cause::Other(code as i32)
    }
}

/// Exit status of a launch whose command did not end normally.
pub const STATUS_EXECUTION: isize = -1;

/// Exit status of a launch with an invalid request.
pub const STATUS_CONFIGURATION: isize = -2;

/// Exit status of a launch on a host without a usable pids controller.
pub const STATUS_CONTROLLER: isize = -3;

/// Exit status of a launch whose namespace request was refused.
pub const STATUS_PRIVILEGE: isize = -4;

/// Exit status of a launch that failed in the mount stage.
pub const STATUS_MOUNT: isize = -5;

/// The exit status that stands for an error: negative, and different for
/// each class of error.
pub open spec fn status_of(error: LaunchError) -> int {
    match error {
        LaunchError::Execution { .. } => STATUS_EXECUTION as int,
        LaunchError::Configuration { .. } => STATUS_CONFIGURATION as int,
        LaunchError::ResourceControllerUnavailable { .. } => STATUS_CONTROLLER as int,
        LaunchError::Privilege { .. } => STATUS_PRIVILEGE as int,
        LaunchError::MountStage { .. } => STATUS_MOUNT as int,
    }
}

/// The words for a cause.
pub open spec fn cause_text(cause: Cause) -> Seq<char> {
    match cause {
        Cause::NotFound => "not found"@,
        Cause::AlreadyExists => "already exists"@,
        Cause::PermissionDenied => "permission denied"@,
        Cause::Unsupported => "not supported"@,
        Cause::Unexpected => "unexpected report"@,
        Cause::Other(code) => "system error "@ + signed_decimal(code as int),
    }
}

/// The words for a field of the request.
pub open spec fn field_text(field: Field) -> Seq<char> {
    match field {
        Field::Rootfs => "root filesystem path"@,
        Field::Command => "command"@,
        Field::Argument => "argument"@,
        Field::Hostname => "hostname"@,
        Field::CgroupName => "cgroup name"@,
    }
}

/// The words for a defect.
pub open spec fn defect_text(defect: Defect) -> Seq<char> {
    match defect {
        Defect::Missing => " is missing"@,
        Defect::NotAbsolute => " is not absolute"@,
        Defect::Malformed => " is malformed"@,
        Defect::NotADirectory => " is not a directory"@,
    }
}

/// The words for a call site.
pub open spec fn site_text(site: CallSite) -> Seq<char> {
    match site {
        CallSite::Creation => "process creation"@,
        CallSite::Unshare => "unshare"@,
        CallSite::Hostname => "hostname change"@,
    }
}

/// The words for an operation on the pids controller.
pub open spec fn controller_text(operation: ControllerOperation) -> Seq<char> {
    match operation {
        ControllerOperation::Locate => "mount point"@,
        ControllerOperation::CreateGroup => "group directory"@,
        ControllerOperation::WriteCeiling => "process ceiling"@,
        ControllerOperation::WriteNotification => "release notification"@,
        ControllerOperation::Join => "group membership"@,
    }
}

/// The words for an operation of the mount stage.
pub open spec fn mount_text(operation: MountOperation) -> Seq<char> {
    match operation {
        MountOperation::Bind => "bind"@,
        MountOperation::Switch => "switch"@,
        MountOperation::Detach => "detach"@,
        MountOperation::ProcMount => "proc mount"@,
    }
}

/// The diagnostic of an error: its class, then the stage or field, then the
/// cause.
pub open spec fn diagnostic(error: LaunchError) -> Seq<char> {
    match error {
        LaunchError::Configuration { field, defect } => "configuration error: "@ + field_text(
            field,
        ) + defect_text(defect),
        LaunchError::Privilege { site, namespaces, cause } => "privilege error: "@ + site_text(
            site,
        ) + " refused for namespaces"@ + kinds_text(namespaces@) + ": "@ + cause_text(cause),
        LaunchError::ResourceControllerUnavailable { step, cause } =>
            "resource controller unavailable: "@ + controller_text(step) + ": "@
                + cause_text(cause),
        LaunchError::MountStage { operation, cause } => "mount stage error: "@ + mount_text(
            operation,
        ) + ": "@ + cause_text(cause),
        LaunchError::Execution { fault } => match fault {
            ExecutionFault::NotStarted(cause) => "execution error: command not started: "@
                + cause_text(cause),
            ExecutionFault::Lost(cause) => "execution error: command lost: "@ + cause_text(cause),
            ExecutionFault::Abnormal => "execution error: command terminated abnormally"@,
        },
    }
}

impl Cause {
    /// The cause that an error number of the operating system stands for.
    pub fn of_errno(code: i32) -> (cause: Cause)
        ensures
            cause == cause_of(code as int),
    {
        if code == NO_SUCH_ENTRY {
            Cause::NotFound
        } else if code == ENTRY_EXISTS {
            Cause::AlreadyExists
        } else if code == ACCESS_DENIED || code == OPERATION_NOT_PERMITTED {
            Cause::PermissionDenied
        } else if code == INVALID_ARGUMENT {
            Cause::Unsupported
        } else {
            Cause::Other(code)
        }
    }

    /// Appends the words for this cause to `out`.
    pub fn describe_into(&self, out: &mut String)
        ensures
            final(out)@ == old(out)@ + cause_text(*self),
    {
        match self {
            Cause::NotFound => out.append("not found"),
            Cause::AlreadyExists => out.append("already exists"),
            Cause::PermissionDenied => out.append("permission denied"),
            Cause::Unsupported => out.append("not supported"),
            Cause::Unexpected => out.append("unexpected report"),
            Cause::Other(code) => {
                out.append("system error ");
                let number = render_decimal(*code as i64);
                out.append(number.as_str());
                assert(final(out)@ =~= old(out)@ + ("system error "@ + signed_decimal(
                    *code as int,
                )));
            },
        }
    }
}

impl Field {
    /// The words for this field.
    pub fn name(&self) -> (text: &'static str)
        ensures
            text@ == field_text(*self),
    {
        match self {
            Field::Rootfs => "root filesystem path",
            Field::Command => "command",
            Field::Argument => "argument",
            Field::Hostname => "hostname",
            Field::CgroupName => "cgroup name",
        }
    }
}

impl Defect {
    /// The words for this defect.
    pub fn name(&self) -> (text: &'static str)
        ensures
            text@ == defect_text(*self),
    {
        match self {
            Defect::Missing => " is missing",
            Defect::NotAbsolute => " is not absolute",
            Defect::Malformed => " is malformed",
            Defect::NotADirectory => " is not a directory",
        }
    }
}

impl CallSite {
    /// The words for this call site.
    pub fn name(&self) -> (text: &'static str)
        ensures
            text@ == site_text(*self),
    {
        match self {
            CallSite::Creation => "process creation",
            CallSite::Unshare => "unshare",
            CallSite::Hostname => "hostname change",
        }
    }
}

impl ControllerOperation {
    /// The words for this operation.
    pub fn name(&self) -> (text: &'static str)
        ensures
            text@ == controller_text(*self),
    {
        match self {
            ControllerOperation::Locate => "mount point",
            ControllerOperation::CreateGroup => "group directory",
            ControllerOperation::WriteCeiling => "process ceiling",
            ControllerOperation::WriteNotification => "release notification",
            ControllerOperation::Join => "group membership",
        }
    }
}

impl MountOperation {
    /// The words for this operation.
    pub fn name(&self) -> (text: &'static str)
        ensures
            text@ == mount_text(*self),
    {
        match self {
            MountOperation::Bind => "bind",
            MountOperation::Switch => "switch",
            MountOperation::Detach => "detach",
            MountOperation::ProcMount => "proc mount",
        }
    }
}

impl LaunchError {
    /// The exit status that stands for this error.
    pub fn exit_status(&self) -> (status: isize)
        ensures
            status == status_of(*self),
    {
        match self {
            LaunchError::Execution { .. } => STATUS_EXECUTION,
            LaunchError::Configuration { .. } => STATUS_CONFIGURATION,
            LaunchError::ResourceControllerUnavailable { .. } => STATUS_CONTROLLER,
            LaunchError::Privilege { .. } => STATUS_PRIVILEGE,
            LaunchError::MountStage { .. } => STATUS_MOUNT,
        }
    }

    /// The diagnostic that names the failing stage and the cause.
    pub fn describe(&self) -> (text: String)
        ensures
            text@ == diagnostic(*self),
    {
        match self {
            LaunchError::Configuration { field, defect } => {
                let mut text = "configuration error: ".to_owned();
                text.append(field.name());
                text.append(defect.name());
                text
            },
            LaunchError::Privilege { site, namespaces, cause } => {
                let mut text = "privilege error: ".to_owned();
                text.append(site.name());
                text.append(" refused for namespaces");
                namespaces.describe_into(&mut text);
                text.append(": ");
                cause.describe_into(&mut text);
                text
            },
            LaunchError::ResourceControllerUnavailable { step, cause } => {
                let mut text = "resource controller unavailable: ".to_owned();
                text.append(step.name());
                text.append(": ");
                cause.describe_into(&mut text);
                text
            },
            LaunchError::MountStage { operation, cause } => {
                let mut text = "mount stage error: ".to_owned();
                text.append(operation.name());
                text.append(": ");
                cause.describe_into(&mut text);
                text
            },
            LaunchError::Execution { fault } => match fault {
                ExecutionFault::NotStarted(cause) => {
                    let mut text = "execution error: command not started: ".to_owned();
                    cause.describe_into(&mut text);
                    text
                },
                ExecutionFault::Lost(cause) => {
                    let mut text = "execution error: command lost: ".to_owned();
                    cause.describe_into(&mut text);
                    text
                },
                ExecutionFault::Abnormal => {
                    "execution error: command terminated abnormally".to_owned()
                },
            },
        }
    }
}

/// An error's exit status is negative, so it is never the status of a
/// command that ended well, and it tells the five classes of error apart.
pub proof fn error_statuses_are_distinct(a: LaunchError, b: LaunchError)
    ensures
        -5 <= status_of(a) < 0,
        status_of(a) == status_of(b) <==> (a is Execution && b is Execution) || (a is Configuration
            && b is Configuration) || (a is ResourceControllerUnavailable
            && b is ResourceControllerUnavailable) || (a is Privilege && b is Privilege) || (
        a is MountStage && b is MountStage),
{
}

} // verus!
