//! The launch request and the resource policy of its container.

use crate::error::{Defect, Field, LaunchError};
use crate::text::{
    absolute, component, component_ends_its_path, copy_texts,
    different_directories_hold_different_files, inside, is_absolute, is_component, is_passable,
    join_path, joined, joined_components_are_apart, passable, render_decimal, signed_decimal,
};
use vstd::prelude::*;
use vstd::string::*;

verus! {

/// The process-count ceiling of a container.
pub const MAX_PROCESSES: u32 = 20;

/// The mount point of the pids controller.
pub open spec fn controller_root() -> Seq<char> {
    "/sys/fs/cgroup/pids"@
}

/// The directory of the group `name` under the pids controller.
pub open spec fn group_directory(name: Seq<char>) -> Seq<char> {
    joined(controller_root(), name)
}

/// The control file that holds the process-count ceiling of the group `name`.
pub open spec fn ceiling_file(name: Seq<char>) -> Seq<char> {
    joined(group_directory(name), "pids.max"@)
}

/// The control file that holds the release-notification flag of the group
/// `name`.
pub open spec fn notification_file(name: Seq<char>) -> Seq<char> {
    joined(group_directory(name), "notify_on_release"@)
}

/// The control file that lists the member processes of the group `name`.
pub open spec fn membership_file(name: Seq<char>) -> Seq<char> {
    joined(group_directory(name), "cgroup.procs"@)
}

/// Where the host's root is put when `rootfs` becomes the root: a hidden
/// directory directly under `rootfs`.
pub open spec fn relocation_path(rootfs: Seq<char>) -> Seq<char> {
    joined(rootfs, ".oldroot"@)
}

/// Whether some argument cannot be handed to the kernel.
pub open spec fn some_argument_unpassable(args: Seq<Seq<char>>) -> bool {
    exists|i: int| 0 <= i < args.len() && !passable(#[trigger] args[i])
}

/// The first thing that is wrong with the fields of a request, in the order
/// root filesystem path, command, arguments, hostname, cgroup name; `None` if
/// the request is valid.
pub open spec fn first_defect(
    rootfs: Seq<char>,
    command: Seq<char>,
    args: Seq<Seq<char>>,
    hostname: Seq<char>,
    cgroup: Seq<char>,
) -> Option<(Field, Defect)> {
    if rootfs.len() == 0 {
        Some((Field::Rootfs, Defect::Missing))
    } else if !absolute(rootfs) {
        Some((Field::Rootfs, Defect::NotAbsolute))
    } else if !passable(rootfs) {
        Some((Field::Rootfs, Defect::Malformed))
    } else if command.len() == 0 {
        Some((Field::Command, Defect::Missing))
    } else if !passable(command) {
        Some((Field::Command, Defect::Malformed))
    } else if some_argument_unpassable(args) {
        Some((Field::Argument, Defect::Malformed))
    } else if hostname.len() == 0 {
        Some((Field::Hostname, Defect::Missing))
    } else if !passable(hostname) {
        Some((Field::Hostname, Defect::Malformed))
    } else if cgroup.len() == 0 {
        Some((Field::CgroupName, Defect::Missing))
    } else if !component(cgroup) {
        Some((Field::CgroupName, Defect::Malformed))
    } else {
        None
    }
}

/// The texts of a list of strings.
pub open spec fn texts(items: Seq<&str>) -> Seq<Seq<char>> {
    Seq::new(items.len(), |i: int| items[i]@)
}

/// What a resource policy says.
pub struct PolicyView {
    /// The name of the container's group under the pids controller.
    pub name: Seq<char>,
    /// The largest number of processes the group may hold at a time.
    pub max_processes: nat,
    /// Whether the kernel announces that the group has become empty.
    pub notify_on_release: bool,
}

/// What a launch request says.
pub struct RequestView {
    /// The directory that becomes the root of the container.
    pub rootfs: Seq<char>,
    /// The command to run in the container.
    pub command: Seq<char>,
    /// The command's arguments, in order.
    pub args: Seq<Seq<char>>,
    /// The hostname of the container.
    pub hostname: Seq<char>,
    /// The resource policy of the container.
    pub policy: PolicyView,
}

/// Whether the fields of a request are all valid.
pub open spec fn valid_request(request: RequestView) -> bool {
    first_defect(
        request.rootfs,
        request.command,
        request.args,
        request.hostname,
        request.policy.name,
    ) is None
}

/// The policy that every container gets: the ceiling on its process count,
/// with release notification switched on.
pub open spec fn standard_policy(name: Seq<char>) -> PolicyView {
    PolicyView { name, max_processes: MAX_PROCESSES as nat, notify_on_release: true }
}

/// The request with the given fields and the standard policy for the group
/// `cgroup`.
pub open spec fn standard_request(
    rootfs: Seq<char>,
    command: Seq<char>,
    args: Seq<Seq<char>>,
    hostname: Seq<char>,
    cgroup: Seq<char>,
) -> RequestView {
    RequestView { rootfs, command, args, hostname, policy: standard_policy(cgroup) }
}

/// What the check of a request gives: the request itself if it is valid, and
/// the configuration error of its first defect if it is not.
pub open spec fn checked(request: RequestView) -> Result<RequestView, LaunchError> {
    match first_defect(
        request.rootfs,
        request.command,
        request.args,
        request.hostname,
        request.policy.name,
    ) {
        Some((field, defect)) => Err(LaunchError::Configuration { field, defect }),
        None => Ok(request),
    }
}

/// The resource policy of a container: the name of its group under the pids
/// controller, the ceiling on its process count and the release-notification
/// flag. The group outlives the container.
#[derive(Debug, PartialEq, Eq)]
pub struct ResourcePolicy {
    name: String,
    max_processes: u32,
    notify_on_release: bool,
}

/// A launch request: everything the isolated process needs, resolved before
/// it is created.
#[derive(Debug, PartialEq, Eq)]
pub struct LaunchRequest {
    rootfs: String,
    command: String,
    args: Vec<String>,
    hostname: String,
    policy: ResourcePolicy,
}

impl View for ResourcePolicy {
    type V = PolicyView;

    closed spec fn view(&self) -> PolicyView {
        PolicyView {
            name: self.name@,
            max_processes: self.max_processes as nat,
            notify_on_release: self.notify_on_release,
        }
    }
}

impl View for LaunchRequest {
    type V = RequestView;

    closed spec fn view(&self) -> RequestView {
        RequestView {
            rootfs: self.rootfs@,
            command: self.command@,
            args: self.args.deep_view(),
            hostname: self.hostname@,
            policy: self.policy@,
        }
    }
}

impl Clone for ResourcePolicy {
    fn clone(&self) -> (copy: Self)
        ensures
            copy@ == self@,
    {
        ResourcePolicy {
            name: self.name.clone(),
            max_processes: self.max_processes,
            notify_on_release: self.notify_on_release,
        }
    }
}

impl Clone for LaunchRequest {
    fn clone(&self) -> (copy: Self)
        ensures
            copy@ == self@,
    {
        proof {
            use_type_invariant(self);
        }
        LaunchRequest {
            rootfs: self.rootfs.clone(),
            command: self.command.clone(),
            args: copy_texts(&self.args),
            hostname: self.hostname.clone(),
            policy: self.policy.clone(),
        }
    }
}

/// The configuration error for a defect of a field.
fn configuration(field: Field, defect: Defect) -> (error: LaunchError)
    ensures
        error == (LaunchError::Configuration { field, defect }),
{
    LaunchError::Configuration { field, defect }
}

impl ResourcePolicy {
    /// The policy that every container gets, for the group `name`.
    pub fn standard(name: &str) -> (policy: Self)
        ensures
            policy@ == standard_policy(name@),
    {
        ResourcePolicy {
            name: name.to_owned(),
            max_processes: MAX_PROCESSES,
            notify_on_release: true,
        }
    }

    /// The name of the group.
    pub fn name(&self) -> (name: &str)
        ensures
            name@ == self@.name,
    {
        self.name.as_str()
    }

    /// The largest number of processes the group may hold at a time.
    pub fn max_processes(&self) -> (ceiling: u32)
        ensures
            ceiling == self@.max_processes,
    {
        self.max_processes
    }

    /// Whether the kernel announces that the group has become empty.
    pub fn notify_on_release(&self) -> (flag: bool)
        ensures
            flag == self@.notify_on_release,
    {
        self.notify_on_release
    }

    /// The controller's mount point, which the host must provide.
    pub fn controller_root() -> (path: String)
        ensures
            path@ == controller_root(),
    {
        "/sys/fs/cgroup/pids".to_owned()
    }

    /// The directory of the group under the pids controller.
    pub fn directory(&self) -> (path: String)
        ensures
            path@ == group_directory(self@.name),
    {
        join_path("/sys/fs/cgroup/pids", self.name.as_str())
    }

    /// The control file that holds the ceiling.
    pub fn ceiling_file(&self) -> (path: String)
        ensures
            path@ == ceiling_file(self@.name),
    {
        let directory = self.directory();
        join_path(directory.as_str(), "pids.max")
    }

    /// The control file that holds the release-notification flag.
    pub fn notification_file(&self) -> (path: String)
        ensures
            path@ == notification_file(self@.name),
    {
        let directory = self.directory();
        join_path(directory.as_str(), "notify_on_release")
    }

    /// The control file that lists the member processes.
    pub fn membership_file(&self) -> (path: String)
        ensures
            path@ == membership_file(self@.name),
    {
        let directory = self.directory();
        join_path(directory.as_str(), "cgroup.procs")
    }

    /// What is written to the ceiling file: the ceiling in decimal.
    pub fn ceiling_text(&self) -> (text: String)
        ensures
            text@ == signed_decimal(self@.max_processes as int),
    {
        render_decimal(self.max_processes as i64)
    }

    /// What is written to the notification file: `1` for on, `0` for off.
    pub fn notification_text(&self) -> (text: String)
        ensures
            text@ == signed_decimal(
                if self@.notify_on_release {
                    1
                } else {
                    0
                },
            ),
    {
        if self.notify_on_release {
            render_decimal(1)
        } else {
            render_decimal(0)
        }
    }
}

impl LaunchRequest {
    /// Every request is valid: there is no way to make one that is not.
    #[verifier::type_invariant]
    pub open spec fn valid(self) -> bool {
        valid_request(self@)
    }

    /// Checks the fields of a request and, if they are valid, builds it with
    /// the standard resource policy for the group `cgroup`.
    ///
    /// The fields are checked in the order root filesystem path, command,
    /// arguments, hostname, cgroup name, and the first defect is reported.
    /// Whether the root filesystem path names a directory is not known here:
    /// the launch finds out before it creates anything.
    pub fn new(rootfs: &str, command: &str, args: &[&str], hostname: &str, cgroup: &str) -> (made:
        Result<Self, LaunchError>)
        ensures
            match made {
                Ok(request) => Ok::<RequestView, LaunchError>(request@),
                Err(error) => Err(error),
            } == checked(standard_request(rootfs@, command@, texts(args@), hostname@, cgroup@)),
    {
        if rootfs.unicode_len() == 0 {
            return Err(configuration(Field::Rootfs, Defect::Missing));
        }
        if !is_absolute(rootfs) {
            return Err(configuration(Field::Rootfs, Defect::NotAbsolute));
        }
        if !is_passable(rootfs) {
            return Err(configuration(Field::Rootfs, Defect::Malformed));
        }
        if command.unicode_len() == 0 {
            return Err(configuration(Field::Command, Defect::Missing));
        }
        if !is_passable(command) {
            return Err(configuration(Field::Command, Defect::Malformed));
        }
        let mut owned: Vec<String> = Vec::new();
        let mut at: usize = 0;
        while at < args.len()
            invariant
                rootfs@.len() != 0,
                absolute(rootfs@),
                passable(rootfs@),
                command@.len() != 0,
                passable(command@),
                at <= args.len(),
                owned.len() == at,
                forall|i: int| 0 <= i < at ==> #[trigger] owned[i]@ == args[i]@,
                forall|i: int| 0 <= i < at ==> passable(#[trigger] texts(args@)[i]),
            decreases args.len() - at,
        {
            let arg: &str = args[at];
            if !is_passable(arg) {
                assert(!passable(texts(args@)[at as int]));
                return Err(configuration(Field::Argument, Defect::Malformed));
            }
            owned.push(arg.to_owned());
            at += 1;
        }
        assert(owned.deep_view() =~= texts(args@));
        if hostname.unicode_len() == 0 {
            return Err(configuration(Field::Hostname, Defect::Missing));
        }
        if !is_passable(hostname) {
            return Err(configuration(Field::Hostname, Defect::Malformed));
        }
        if cgroup.unicode_len() == 0 {
            return Err(configuration(Field::CgroupName, Defect::Missing));
        }
        if !is_component(cgroup) {
            return Err(configuration(Field::CgroupName, Defect::Malformed));
        }
        let policy = ResourcePolicy::standard(cgroup);
        assert(valid_request(
            standard_request(rootfs@, command@, owned.deep_view(), hostname@, cgroup@),
        ));
        Ok(
            LaunchRequest {
                rootfs: rootfs.to_owned(),
                command: command.to_owned(),
                args: owned,
                hostname: hostname.to_owned(),
                policy,
            },
        )
    }

    /// The directory that becomes the root of the container.
    pub fn rootfs(&self) -> (path: &str)
        ensures
            path@ == self@.rootfs,
    {
        self.rootfs.as_str()
    }

    /// The command to run in the container.
    pub fn command(&self) -> (path: &str)
        ensures
            path@ == self@.command,
    {
        self.command.as_str()
    }

    /// The command's arguments, in order.
    pub fn args(&self) -> (args: &Vec<String>)
        ensures
            args.deep_view() == self@.args,
    {
        &self.args
    }

    /// The hostname of the container.
    pub fn hostname(&self) -> (name: &str)
        ensures
            name@ == self@.hostname,
    {
        self.hostname.as_str()
    }

    /// The resource policy of the container.
    pub fn policy(&self) -> (policy: &ResourcePolicy)
        ensures
            policy@ == self@.policy,
    {
        &self.policy
    }

    /// Where the host's root is put when the root is switched.
    pub fn relocation_path(&self) -> (path: String)
        ensures
            path@ == relocation_path(self@.rootfs),
    {
        join_path(self.rootfs.as_str(), ".oldroot")
    }
}

/// Containers with different names have groups of their own. The group
/// directories of two different valid names are different and neither lies
/// inside the other, and so are their ceiling, notification and membership
/// files: a launch under one name writes no file of the other.
pub proof fn groups_of_distinct_names_are_apart(a: Seq<char>, b: Seq<char>)
    requires
        a.len() > 0 && component(a),
        b.len() > 0 && component(b),
        a != b,
    ensures
        group_directory(a) != group_directory(b),
        !inside(group_directory(a), group_directory(b)),
        !inside(group_directory(b), group_directory(a)),
        ceiling_file(a) != ceiling_file(b),
        notification_file(a) != notification_file(b),
        membership_file(a) != membership_file(b),
{
    joined_components_are_apart(controller_root(), a, b);
    component_ends_its_path(controller_root(), a);
    component_ends_its_path(controller_root(), b);
    different_directories_hold_different_files(group_directory(a), group_directory(b), "pids.max"@);
    different_directories_hold_different_files(
        group_directory(a),
        group_directory(b),
        "notify_on_release"@,
    );
    different_directories_hold_different_files(
        group_directory(a),
        group_directory(b),
        "cgroup.procs"@,
    );
}

/// The relocation directory is a hidden entry directly under the new root.
/// Its path is the root's path, a separator unless the root's path ends in
/// one, and the name `.oldroot`; it is absolute and holds no NUL whenever the
/// root's path is and does. Once the root is switched the same directory is
/// `/.oldroot`, which is what is detached.
pub proof fn relocation_is_hidden_under_root(rootfs: Seq<char>)
    requires
        absolute(rootfs),
    ensures
        relocation_path(rootfs) == if rootfs.last() == '/' {
            rootfs + ".oldroot"@
        } else {
            rootfs + "/.oldroot"@
        },
        rootfs.is_prefix_of(relocation_path(rootfs)),
        relocation_path(rootfs).len() == rootfs.len() + if rootfs.last() == '/' {
            8int
        } else {
            9int
        },
        relocation_path(rootfs).last() == 't',
        absolute(relocation_path(rootfs)),
        passable(rootfs) ==> passable(relocation_path(rootfs)),
        relocation_path("/"@) == "/.oldroot"@,
        ".oldroot"@[0] == '.',
{
    reveal_strlit(".oldroot");
    reveal_strlit("/.oldroot");
    reveal_strlit("/");
    let name = ".oldroot"@;
    let path = relocation_path(rootfs);
    assert(seq!['/'] + name =~= "/.oldroot"@);
    assert(relocation_path("/"@) =~= "/.oldroot"@);
    if rootfs.last() == '/' {
        assert(path =~= rootfs + name);
    } else {
        assert(path =~= rootfs + "/.oldroot"@);
    }
    assert(path[0] == rootfs[0]);
    if passable(rootfs) {
        assert forall|i: int| 0 <= i < path.len() implies path[i] != '\0' by {
            if i < rootfs.len() {
                assert(path[i] == rootfs[i]);
                assert(rootfs.contains(rootfs[i]));
            } else {
                let k = i - rootfs.len();
                if rootfs.last() == '/' {
                    assert(path[i] == name[k]);
                } else {
                    assert(path[i] == "/.oldroot"@[k]);
                }
            }
        }
    }
}

} // verus!
