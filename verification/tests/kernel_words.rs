use nix::mount::{MntFlags, MsFlags};
use nix::sched::CloneFlags;
use nix::sys::stat::Mode;
use vas_quod::{spawn_child, Action, Launch, NamespaceFlagSet, NamespaceKind, Report, Step};

const KINDS: [NamespaceKind; 6] = [
    NamespaceKind::Mount,
    NamespaceKind::Pid,
    NamespaceKind::Network,
    NamespaceKind::Ipc,
    NamespaceKind::Uts,
    NamespaceKind::Cgroup,
];

fn nix_flag(kind: NamespaceKind) -> CloneFlags {
    match kind {
        NamespaceKind::Mount => CloneFlags::CLONE_NEWNS,
        NamespaceKind::Pid => CloneFlags::CLONE_NEWPID,
        NamespaceKind::Network => CloneFlags::CLONE_NEWNET,
        NamespaceKind::Ipc => CloneFlags::CLONE_NEWIPC,
        NamespaceKind::Uts => CloneFlags::CLONE_NEWUTS,
        NamespaceKind::Cgroup => CloneFlags::CLONE_NEWCGROUP,
    }
}

fn action_at(step: Step) -> Action {
    let mut launch: Launch =
        spawn_child("box", "web", "/srv/root", "/bin/sh", &[], 1).expect("a valid request");
    while launch.progress() != vas_quod::Progress::Pending(step) {
        launch.advance(Report::Done);
    }
    launch.pending().expect("a pending action")
}

#[test]
fn empty_set_has_the_empty_word() {
    let set = NamespaceFlagSet::empty();
    assert_eq!(set.kernel_word(), 0);
    assert_eq!(set.kernel_word(), CloneFlags::empty().bits());
    for kind in KINDS {
        assert!(!set.contains(kind));
    }
}

#[test]
fn each_kind_has_the_flag_of_the_kernel() {
    let expected = [
        (NamespaceKind::Mount, 0x0002_0000),
        (NamespaceKind::Pid, 0x2000_0000),
        (NamespaceKind::Network, 0x4000_0000),
        (NamespaceKind::Ipc, 0x0800_0000),
        (NamespaceKind::Uts, 0x0400_0000),
        (NamespaceKind::Cgroup, 0x0200_0000),
    ];
    for (kind, word) in expected {
        let set = NamespaceFlagSet::empty().with(kind);
        assert_eq!(set.kernel_word(), word);
        assert_eq!(set.kernel_word(), nix_flag(kind).bits());
        for other in KINDS {
            assert_eq!(set.contains(other), other == kind);
        }
    }
}

#[test]
fn every_subset_has_the_union_of_its_flags() {
    for mask in 0u32..64 {
        let mut set = NamespaceFlagSet::empty();
        let mut flags = CloneFlags::empty();
        for (bit, kind) in KINDS.iter().enumerate() {
            if mask & (1 << bit) != 0 {
                set = set.with(*kind);
                flags |= nix_flag(*kind);
            }
        }
        assert_eq!(set.kernel_word(), flags.bits());
        assert_eq!(CloneFlags::from_bits(set.kernel_word()), Some(flags));
    }
}

#[test]
fn creation_asks_for_all_six_namespaces() {
    let set = NamespaceFlagSet::at_creation();
    let all = CloneFlags::CLONE_NEWNS
        | CloneFlags::CLONE_NEWPID
        | CloneFlags::CLONE_NEWCGROUP
        | CloneFlags::CLONE_NEWUTS
        | CloneFlags::CLONE_NEWIPC
        | CloneFlags::CLONE_NEWNET;
    assert_eq!(set.kernel_word(), all.bits());
    assert_eq!(set.kernel_word(), 0x6E02_0000);
    for kind in KINDS {
        assert!(set.contains(kind));
    }
}

#[test]
fn unshare_asks_for_the_five_required_namespaces() {
    let set = NamespaceFlagSet::required();
    let five = CloneFlags::CLONE_NEWNS
        | CloneFlags::CLONE_NEWPID
        | CloneFlags::CLONE_NEWNET
        | CloneFlags::CLONE_NEWIPC
        | CloneFlags::CLONE_NEWUTS;
    assert_eq!(set.kernel_word(), five.bits());
    assert_eq!(set.kernel_word(), 0x6C02_0000);
    assert!(!set.contains(NamespaceKind::Cgroup));
    assert_eq!(set.with(NamespaceKind::Cgroup), NamespaceFlagSet::at_creation());
    assert_eq!(action_at(Step::LeaveNamespaces), Action::Unshare { namespaces: set });
}

#[test]
fn adding_a_member_twice_changes_nothing() {
    let once = NamespaceFlagSet::empty().with(NamespaceKind::Pid);
    let twice = once.with(NamespaceKind::Pid);
    assert_eq!(once, twice);
    assert_eq!(once.kernel_word(), twice.kernel_word());
}

#[test]
fn kinds_are_listed_by_name() {
    let mut text = String::from("kinds:");
    NamespaceFlagSet::required().describe_into(&mut text);
    assert_eq!(text, "kinds: mount pid network ipc uts");
    let mut text = String::new();
    NamespaceFlagSet::at_creation().describe_into(&mut text);
    assert_eq!(text, " mount pid network ipc uts cgroup");
    let mut text = String::from("none");
    NamespaceFlagSet::empty().describe_into(&mut text);
    assert_eq!(text, "none");
    assert_eq!(NamespaceKind::Network.name(), "network");
}

#[test]
fn root_is_bound_recursively() {
    match action_at(Step::BindRoot) {
        Action::Mount { flags, fstype, .. } => {
            assert_eq!(flags, (MsFlags::MS_BIND | MsFlags::MS_REC).bits() as u64);
            assert_eq!(flags, 0x1000 | 0x4000);
            assert_eq!(fstype, None);
        }
        other => panic!("unexpected action {:?}", other),
    }
}

#[test]
fn proc_is_mounted_without_flags() {
    match action_at(Step::MountProc) {
        Action::Mount { flags, .. } => {
            assert_eq!(flags, MsFlags::empty().bits() as u64);
            assert_eq!(flags, 0);
        }
        other => panic!("unexpected action {:?}", other),
    }
}

#[test]
fn old_root_is_detached_lazily() {
    match action_at(Step::DetachOldRoot) {
        Action::Unmount { unmount_flags, target } => {
            assert_eq!(unmount_flags, MntFlags::MNT_DETACH.bits());
            assert_eq!(unmount_flags, 2);
            assert_eq!(target, "/.oldroot");
        }
        other => panic!("unexpected action {:?}", other),
    }
}

#[test]
fn directories_are_created_open_to_all() {
    let all = (Mode::S_IRWXU | Mode::S_IRWXG | Mode::S_IRWXO).bits();
    for step in [Step::CreateGroup, Step::MakeRelocation] {
        match action_at(step) {
            Action::CreateDirectory { mode, .. } => {
                assert_eq!(mode, all);
                assert_eq!(mode, 0o777);
            }
            other => panic!("unexpected action {:?}", other),
        }
    }
}
