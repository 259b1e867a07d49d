use vas_quod::{Defect, Field, LaunchError, LaunchRequest, ResourcePolicy};

fn defect(
    rootfs: &str,
    command: &str,
    args: &[&str],
    hostname: &str,
    cgroup: &str,
) -> Option<(Field, Defect)> {
    match LaunchRequest::new(rootfs, command, args, hostname, cgroup) {
        Ok(_) => None,
        Err(LaunchError::Configuration { field, defect }) => Some((field, defect)),
        Err(other) => panic!("not a configuration error: {:?}", other),
    }
}

#[test]
fn valid_request_keeps_its_fields() {
    let request = LaunchRequest::new("/srv/root", "/bin/sh", &["-c", "exit 7"], "box", "web")
        .expect("a valid request");
    assert_eq!(request.rootfs(), "/srv/root");
    assert_eq!(request.command(), "/bin/sh");
    assert_eq!(request.args(), &vec!["-c".to_string(), "exit 7".to_string()]);
    assert_eq!(request.hostname(), "box");
    assert_eq!(request.policy(), &ResourcePolicy::standard("web"));
    assert_eq!(request.relocation_path(), "/srv/root/.oldroot");
}

#[test]
fn request_without_arguments_is_valid() {
    let request = LaunchRequest::new("/", "sh", &[], "h", "g").expect("a valid request");
    assert!(request.args().is_empty());
    assert_eq!(request.relocation_path(), "/.oldroot");
}

#[test]
fn empty_arguments_are_passed_on() {
    let request = LaunchRequest::new("/r", "sh", &["", "x", ""], "h", "g").expect("valid");
    assert_eq!(request.args().len(), 3);
    assert_eq!(request.args()[0], "");
}

#[test]
fn missing_root_path_is_reported() {
    assert_eq!(defect("", "/bin/sh", &[], "box", "web"), Some((Field::Rootfs, Defect::Missing)));
}

#[test]
fn relative_root_path_is_reported() {
    assert_eq!(
        defect("srv/root", "/bin/sh", &[], "box", "web"),
        Some((Field::Rootfs, Defect::NotAbsolute))
    );
    assert_eq!(
        defect("./root", "/bin/sh", &[], "box", "web"),
        Some((Field::Rootfs, Defect::NotAbsolute))
    );
}

#[test]
fn root_path_with_a_nul_is_reported() {
    assert_eq!(
        defect("/srv\0/root", "/bin/sh", &[], "box", "web"),
        Some((Field::Rootfs, Defect::Malformed))
    );
}

#[test]
fn missing_command_is_reported() {
    assert_eq!(defect("/srv", "", &[], "box", "web"), Some((Field::Command, Defect::Missing)));
}

#[test]
fn command_with_a_nul_is_reported() {
    assert_eq!(
        defect("/srv", "sh\0", &[], "box", "web"),
        Some((Field::Command, Defect::Malformed))
    );
}

#[test]
fn argument_with_a_nul_is_reported() {
    assert_eq!(
        defect("/srv", "sh", &["-c", "a\0b"], "box", "web"),
        Some((Field::Argument, Defect::Malformed))
    );
    assert_eq!(
        defect("/srv", "sh", &["\0"], "box", "web"),
        Some((Field::Argument, Defect::Malformed))
    );
}

#[test]
fn missing_hostname_is_reported() {
    assert_eq!(defect("/srv", "sh", &[], "", "web"), Some((Field::Hostname, Defect::Missing)));
}

#[test]
fn hostname_with_a_nul_is_reported() {
    assert_eq!(
        defect("/srv", "sh", &[], "bo\0x", "web"),
        Some((Field::Hostname, Defect::Malformed))
    );
}

#[test]
fn missing_cgroup_name_is_reported() {
    assert_eq!(defect("/srv", "sh", &[], "box", ""), Some((Field::CgroupName, Defect::Missing)));
}

#[test]
fn cgroup_name_that_is_no_component_is_reported() {
    for name in ["a/b", "/abs", "trailing/", ".", "..", "nul\0", "/"] {
        assert_eq!(
            defect("/srv", "sh", &[], "box", name),
            Some((Field::CgroupName, Defect::Malformed)),
            "name {:?}",
            name
        );
    }
}

#[test]
fn cgroup_names_with_dots_inside_are_valid() {
    for name in ["...", ".hidden", "a.b", "web-1", "..a", "\u{e9}"] {
        assert_eq!(defect("/srv", "sh", &[], "box", name), None, "name {:?}", name);
    }
}

#[test]
fn first_defect_in_field_order_is_reported() {
    assert_eq!(defect("", "", &["\0"], "", ""), Some((Field::Rootfs, Defect::Missing)));
    assert_eq!(defect("rel\0", "", &["\0"], "", ""), Some((Field::Rootfs, Defect::NotAbsolute)));
    assert_eq!(defect("/r", "", &["\0"], "", ""), Some((Field::Command, Defect::Missing)));
    assert_eq!(defect("/r", "c", &["\0"], "", ""), Some((Field::Argument, Defect::Malformed)));
    assert_eq!(defect("/r", "c", &["a"], "", "/"), Some((Field::Hostname, Defect::Missing)));
    assert_eq!(defect("/r", "c", &["a"], "h", "/"), Some((Field::CgroupName, Defect::Malformed)));
}

#[test]
fn standard_policy_caps_at_twenty_processes() {
    let policy = ResourcePolicy::standard("web");
    assert_eq!(policy.name(), "web");
    assert_eq!(policy.max_processes(), 20);
    assert!(policy.notify_on_release());
    assert_eq!(policy.ceiling_text(), "20");
    assert_eq!(policy.notification_text(), "1");
}

#[test]
fn control_files_lie_in_the_group_directory() {
    let policy = ResourcePolicy::standard("vasquod-container");
    assert_eq!(ResourcePolicy::controller_root(), "/sys/fs/cgroup/pids");
    assert_eq!(policy.directory(), "/sys/fs/cgroup/pids/vasquod-container");
    assert_eq!(policy.ceiling_file(), "/sys/fs/cgroup/pids/vasquod-container/pids.max");
    assert_eq!(
        policy.notification_file(),
        "/sys/fs/cgroup/pids/vasquod-container/notify_on_release"
    );
    assert_eq!(policy.membership_file(), "/sys/fs/cgroup/pids/vasquod-container/cgroup.procs");
}

#[test]
fn groups_of_different_names_are_apart() {
    let names = ["a", "ab", "b", "a.b", "web", "web-1", "vasquod-container"];
    for one in names {
        for two in names {
            if one == two {
                continue;
            }
            let first = ResourcePolicy::standard(one);
            let second = ResourcePolicy::standard(two);
            assert_ne!(first.directory(), second.directory());
            assert_ne!(first.ceiling_file(), second.ceiling_file());
            assert_ne!(first.notification_file(), second.notification_file());
            assert_ne!(first.membership_file(), second.membership_file());
            assert!(!first.directory().starts_with(&format!("{}/", second.directory())));
        }
    }
}

#[test]
fn group_of_one_name_is_one_directory() {
    let first = ResourcePolicy::standard("web");
    let second = ResourcePolicy::standard("web");
    assert_eq!(first, second);
    assert_eq!(first.directory(), second.directory());
    assert_eq!(first.ceiling_file(), second.ceiling_file());
    assert_eq!(first.membership_file(), second.membership_file());
}
