use nix::errno::Errno;
use vas_quod::{
    CallSite, Cause, ControllerOperation, Defect, ExecutionFault, Field, LaunchError,
    MountOperation, NamespaceFlagSet, NamespaceKind,
};

fn said(cause: Cause) -> String {
    let mut text = String::new();
    cause.describe_into(&mut text);
    text
}

#[test]
fn causes_are_put_into_words() {
    assert_eq!(said(Cause::NotFound), "not found");
    assert_eq!(said(Cause::AlreadyExists), "already exists");
    assert_eq!(said(Cause::PermissionDenied), "permission denied");
    assert_eq!(said(Cause::Unsupported), "not supported");
    assert_eq!(said(Cause::Unexpected), "unexpected report");
    assert_eq!(said(Cause::Other(28)), "system error 28");
    assert_eq!(said(Cause::Other(0)), "system error 0");
    assert_eq!(said(Cause::Other(-1)), "system error -1");
}

#[test]
fn cause_is_appended_to_what_is_there() {
    let mut text = String::from("because: ");
    Cause::NotFound.describe_into(&mut text);
    assert_eq!(text, "because: not found");
}

#[test]
fn configuration_errors_name_field_and_defect() {
    let cases = [
        (Field::Rootfs, Defect::Missing, "configuration error: root filesystem path is missing"),
        (
            Field::Rootfs,
            Defect::NotAbsolute,
            "configuration error: root filesystem path is not absolute",
        ),
        (
            Field::Rootfs,
            Defect::NotADirectory,
            "configuration error: root filesystem path is not a directory",
        ),
        (Field::Command, Defect::Missing, "configuration error: command is missing"),
        (Field::Argument, Defect::Malformed, "configuration error: argument is malformed"),
        (Field::Hostname, Defect::Missing, "configuration error: hostname is missing"),
        (Field::CgroupName, Defect::Malformed, "configuration error: cgroup name is malformed"),
    ];
    for (field, defect, text) in cases {
        assert_eq!(LaunchError::Configuration { field, defect }.describe(), text);
    }
}

#[test]
fn privilege_errors_name_the_namespaces() {
    let error = LaunchError::Privilege {
        site: CallSite::Unshare,
        namespaces: NamespaceFlagSet::required(),
        cause: Cause::PermissionDenied,
    };
    assert_eq!(
        error.describe(),
        "privilege error: unshare refused for namespaces mount pid network ipc uts: \
         permission denied"
    );
    let error = LaunchError::Privilege {
        site: CallSite::Creation,
        namespaces: NamespaceFlagSet::at_creation(),
        cause: Cause::Unsupported,
    };
    assert_eq!(
        error.describe(),
        "privilege error: process creation refused for namespaces mount pid network ipc uts \
         cgroup: not supported"
    );
    let error = LaunchError::Privilege {
        site: CallSite::Hostname,
        namespaces: NamespaceFlagSet::empty().with(NamespaceKind::Uts),
        cause: Cause::Other(36),
    };
    assert_eq!(
        error.describe(),
        "privilege error: hostname change refused for namespaces uts: system error 36"
    );
}

#[test]
fn controller_errors_name_the_operation() {
    let cases = [
        (ControllerOperation::Locate, "mount point"),
        (ControllerOperation::CreateGroup, "group directory"),
        (ControllerOperation::WriteCeiling, "process ceiling"),
        (ControllerOperation::WriteNotification, "release notification"),
        (ControllerOperation::Join, "group membership"),
    ];
    for (step, words) in cases {
        let error = LaunchError::ResourceControllerUnavailable { step, cause: Cause::NotFound };
        assert_eq!(
            error.describe(),
            format!("resource controller unavailable: {}: not found", words)
        );
        assert_eq!(step.name(), words);
    }
}

#[test]
fn mount_errors_name_one_of_four_operations() {
    let cases = [
        (MountOperation::Bind, "bind"),
        (MountOperation::Switch, "switch"),
        (MountOperation::Detach, "detach"),
        (MountOperation::ProcMount, "proc mount"),
    ];
    for (operation, words) in cases {
        let error = LaunchError::MountStage { operation, cause: Cause::PermissionDenied };
        assert_eq!(error.describe(), format!("mount stage error: {}: permission denied", words));
        assert_eq!(operation.name(), words);
    }
}

#[test]
fn execution_errors_give_the_reason() {
    assert_eq!(
        LaunchError::Execution { fault: ExecutionFault::NotStarted(Cause::NotFound) }.describe(),
        "execution error: command not started: not found"
    );
    assert_eq!(
        LaunchError::Execution { fault: ExecutionFault::NotStarted(Cause::PermissionDenied) }
            .describe(),
        "execution error: command not started: permission denied"
    );
    assert_eq!(
        LaunchError::Execution { fault: ExecutionFault::Lost(Cause::Other(10)) }.describe(),
        "execution error: command lost: system error 10"
    );
    assert_eq!(
        LaunchError::Execution { fault: ExecutionFault::Abnormal }.describe(),
        "execution error: command terminated abnormally"
    );
}

#[test]
fn each_class_of_error_has_a_status_of_its_own() {
    let errors = [
        LaunchError::Execution { fault: ExecutionFault::Abnormal },
        LaunchError::Configuration { field: Field::Rootfs, defect: Defect::Missing },
        LaunchError::ResourceControllerUnavailable {
            step: ControllerOperation::Locate,
            cause: Cause::NotFound,
        },
        LaunchError::Privilege {
            site: CallSite::Unshare,
            namespaces: NamespaceFlagSet::required(),
            cause: Cause::PermissionDenied,
        },
        LaunchError::MountStage { operation: MountOperation::Bind, cause: Cause::NotFound },
    ];
    let statuses: Vec<isize> = errors.iter().map(|error| error.exit_status()).collect();
    assert_eq!(statuses, vec![-1, -2, -3, -4, -5]);
    for status in statuses {
        assert!(status < 0);
        assert_ne!(status as i32 & 0xff, 0);
    }
}

#[test]
fn status_depends_on_the_class_alone() {
    let one = LaunchError::MountStage { operation: MountOperation::Bind, cause: Cause::NotFound };
    let two = LaunchError::MountStage {
        operation: MountOperation::ProcMount,
        cause: Cause::Other(5),
    };
    assert_eq!(one.exit_status(), two.exit_status());
    let started = LaunchError::Execution { fault: ExecutionFault::NotStarted(Cause::NotFound) };
    let killed = LaunchError::Execution { fault: ExecutionFault::Abnormal };
    assert_eq!(started.exit_status(), killed.exit_status());
}

#[test]
fn fields_and_sites_have_names() {
    assert_eq!(Field::Rootfs.name(), "root filesystem path");
    assert_eq!(Field::CgroupName.name(), "cgroup name");
    assert_eq!(Defect::Malformed.name(), " is malformed");
    assert_eq!(CallSite::Creation.name(), "process creation");
    assert_eq!(CallSite::Unshare.name(), "unshare");
    assert_eq!(CallSite::Hostname.name(), "hostname change");
}

#[test]
fn error_numbers_are_read_as_causes() {
    assert_eq!(Cause::of_errno(2), Cause::NotFound);
    assert_eq!(Cause::of_errno(17), Cause::AlreadyExists);
    assert_eq!(Cause::of_errno(13), Cause::PermissionDenied);
    assert_eq!(Cause::of_errno(1), Cause::PermissionDenied);
    assert_eq!(Cause::of_errno(22), Cause::Unsupported);
    assert_eq!(Cause::of_errno(0), Cause::Other(0));
    assert_eq!(Cause::of_errno(20), Cause::Other(20));
    assert_eq!(Cause::of_errno(28), Cause::Other(28));
    assert_eq!(Cause::of_errno(-1), Cause::Other(-1));
    assert_eq!(Cause::of_errno(i32::MAX), Cause::Other(i32::MAX));
}

#[test]
fn error_numbers_are_those_of_the_system() {
    assert_eq!(Cause::of_errno(Errno::ENOENT as i32), Cause::NotFound);
    assert_eq!(Cause::of_errno(Errno::EEXIST as i32), Cause::AlreadyExists);
    assert_eq!(Cause::of_errno(Errno::EACCES as i32), Cause::PermissionDenied);
    assert_eq!(Cause::of_errno(Errno::EPERM as i32), Cause::PermissionDenied);
    assert_eq!(Cause::of_errno(Errno::EINVAL as i32), Cause::Unsupported);
    assert_eq!(Cause::of_errno(Errno::ENOSPC as i32), Cause::Other(Errno::ENOSPC as i32));
    assert_eq!(Cause::of_errno(Errno::ENOTDIR as i32), Cause::Other(Errno::ENOTDIR as i32));
    assert_eq!(vas_quod::error::NO_SUCH_ENTRY, Errno::ENOENT as i32);
    assert_eq!(vas_quod::error::ENTRY_EXISTS, Errno::EEXIST as i32);
    assert_eq!(vas_quod::error::ACCESS_DENIED, Errno::EACCES as i32);
    assert_eq!(vas_quod::error::OPERATION_NOT_PERMITTED, Errno::EPERM as i32);
    assert_eq!(vas_quod::error::INVALID_ARGUMENT, Errno::EINVAL as i32);
}
