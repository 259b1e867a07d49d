//! Namespace kinds and the flag set that names which of them to isolate.

use crate::encoding::{
    clone_flag_word, clone_word, NEW_CGROUP_NS, NEW_IPC_NS, NEW_MOUNT_NS, NEW_NETWORK_NS,
    NEW_PID_NS, NEW_UTS_NS,
};
use vstd::prelude::*;
use vstd::string::*;

verus! {

/// A kernel resource that a process can see through a namespace of its own.
#[derive(Clone, Copy, Debug, PartialEq, Eq, Structural)]
pub enum NamespaceKind {
    /// The mount table.
    Mount,
    /// The process-id space.
    Pid,
    /// The network stack.
    Network,
    /// System V IPC objects and POSIX message queues.
    Ipc,
    /// Hostname and domain name.
    Uts,
    /// The view of the cgroup hierarchy.
    Cgroup,
}

/// The set of namespace kinds that one request asks the kernel to create.
///
/// Its view is the mathematical set of its members.
#[derive(Clone, Copy, Debug, PartialEq, Eq, Structural)]
pub struct NamespaceFlagSet {
    /// Whether the mount namespace is named.
    pub mount: bool,
    /// Whether the PID namespace is named.
    pub pid: bool,
    /// Whether the network namespace is named.
    pub network: bool,
    /// Whether the IPC namespace is named.
    pub ipc: bool,
    /// Whether the UTS namespace is named.
    pub uts: bool,
    /// Whether the cgroup namespace is named.
    pub cgroup: bool,
}

/// The name of a namespace kind in diagnostics.
pub open spec fn kind_name(kind: NamespaceKind) -> Seq<char> {
    match kind {
        NamespaceKind::Mount => "mount"@,
        NamespaceKind::Pid => "pid"@,
        NamespaceKind::Network => "network"@,
        NamespaceKind::Ipc => "ipc"@,
        NamespaceKind::Uts => "uts"@,
        NamespaceKind::Cgroup => "cgroup"@,
    }
}

/// The name of `kind` after a blank if it is a member of `kinds`, and nothing
/// otherwise.
pub open spec fn listed(kinds: Set<NamespaceKind>, kind: NamespaceKind) -> Seq<char> {
    if kinds.contains(kind) {
        " "@ + kind_name(kind)
    } else {
        Seq::empty()
    }
}

/// The members of `kinds` as text: each name after a blank, in the order
/// mount, pid, network, ipc, uts, cgroup.
pub open spec fn kinds_text(kinds: Set<NamespaceKind>) -> Seq<char> {
    listed(kinds, NamespaceKind::Mount) + listed(kinds, NamespaceKind::Pid) + listed(
        kinds,
        NamespaceKind::Network,
    ) + listed(kinds, NamespaceKind::Ipc) + listed(kinds, NamespaceKind::Uts) + listed(
        kinds,
        NamespaceKind::Cgroup,
    )
}

/// The kinds that every namespace request of a launch must name.
pub open spec fn required_kinds() -> Set<NamespaceKind> {
    set![
        NamespaceKind::Mount,
        NamespaceKind::Pid,
        NamespaceKind::Network,
        NamespaceKind::Ipc,
        NamespaceKind::Uts,
    ]
}

/// The kinds requested when the isolated process is created.
pub open spec fn creation_kinds() -> Set<NamespaceKind> {
    required_kinds().insert(NamespaceKind::Cgroup)
}

/// The flag set whose members are `kinds`.
pub open spec fn flag_set(kinds: Set<NamespaceKind>) -> NamespaceFlagSet {
    NamespaceFlagSet {
        mount: kinds.contains(NamespaceKind::Mount),
        pid: kinds.contains(NamespaceKind::Pid),
        network: kinds.contains(NamespaceKind::Network),
        ipc: kinds.contains(NamespaceKind::Ipc),
        uts: kinds.contains(NamespaceKind::Uts),
        cgroup: kinds.contains(NamespaceKind::Cgroup),
    }
}

/// The clone-flag word that names exactly the members of `kinds`.
pub open spec fn word_of(kinds: Set<NamespaceKind>) -> int {
    clone_word(
        kinds.contains(NamespaceKind::Mount),
        kinds.contains(NamespaceKind::Pid),
        kinds.contains(NamespaceKind::Network),
        kinds.contains(NamespaceKind::Ipc),
        kinds.contains(NamespaceKind::Uts),
        kinds.contains(NamespaceKind::Cgroup),
    )
}

impl View for NamespaceFlagSet {
    type V = Set<NamespaceKind>;

    open spec fn view(&self) -> Set<NamespaceKind> {
        Set::new(
            |kind: NamespaceKind|
                match kind {
                    NamespaceKind::Mount => self.mount,
                    NamespaceKind::Pid => self.pid,
                    NamespaceKind::Network => self.network,
                    NamespaceKind::Ipc => self.ipc,
                    NamespaceKind::Uts => self.uts,
                    NamespaceKind::Cgroup => self.cgroup,
                },
        )
    }
}

impl NamespaceKind {
    /// The name of this kind in diagnostics.
    pub fn name(&self) -> (text: &'static str)
        ensures
            text@ == kind_name(*self),
    {
        match self {
            NamespaceKind::Mount => "mount",
            NamespaceKind::Pid => "pid",
            NamespaceKind::Network => "network",
            NamespaceKind::Ipc => "ipc",
            NamespaceKind::Uts => "uts",
            NamespaceKind::Cgroup => "cgroup",
        }
    }
}

impl NamespaceFlagSet {
    /// The set that names no namespace.
    pub fn empty() -> (set: Self)
        ensures
            set@ == Set::<NamespaceKind>::empty(),
    {
        let set = NamespaceFlagSet {
            mount: false,
            pid: false,
            network: false,
            ipc: false,
            uts: false,
            cgroup: false,
        };
        assert(set@ =~= Set::<NamespaceKind>::empty());
        set
    }

    /// This set with `kind` added.
    pub fn with(self, kind: NamespaceKind) -> (set: Self)
        ensures
            set@ == self@.insert(kind),
    {
        let mut set = self;
        match kind {
            NamespaceKind::Mount => {
                set.mount = true;
            },
            NamespaceKind::Pid => {
                set.pid = true;
            },
            NamespaceKind::Network => {
                set.network = true;
            },
            NamespaceKind::Ipc => {
                set.ipc = true;
            },
            NamespaceKind::Uts => {
                set.uts = true;
            },
            NamespaceKind::Cgroup => {
                set.cgroup = true;
            },
        }
        assert(set@ =~= self@.insert(kind));
        set
    }

    /// Whether `kind` is a member.
    pub fn contains(&self, kind: NamespaceKind) -> (member: bool)
        ensures
            member == self@.contains(kind),
    {
        match kind {
            NamespaceKind::Mount => self.mount,
            NamespaceKind::Pid => self.pid,
            NamespaceKind::Network => self.network,
            NamespaceKind::Ipc => self.ipc,
            NamespaceKind::Uts => self.uts,
            NamespaceKind::Cgroup => self.cgroup,
        }
    }

    /// The kinds that every namespace request of a launch names: mount, PID,
    /// network, IPC and UTS. This is also the request that the isolated
    /// process repeats for itself with `unshare`.
    pub fn required() -> (set: Self)
        ensures
            set@ == required_kinds(),
            set == flag_set(required_kinds()),
    {
        NamespaceFlagSet::empty().with(NamespaceKind::Mount).with(NamespaceKind::Pid).with(
            NamespaceKind::Network,
        ).with(NamespaceKind::Ipc).with(NamespaceKind::Uts)
    }

    /// The kinds requested when the isolated process is created: the required
    /// ones and the cgroup namespace, which is asked for at no other time.
    pub fn at_creation() -> (set: Self)
        ensures
            set@ == creation_kinds(),
            set == flag_set(creation_kinds()),
    {
        NamespaceFlagSet::required().with(NamespaceKind::Cgroup)
    }

    /// Appends the name of `kind` to `out`, after a blank, if it is a member.
    fn list(&self, kind: NamespaceKind, out: &mut String)
        ensures
            final(out)@ == old(out)@ + listed(self@, kind),
    {
        if self.contains(kind) {
            out.append(" ");
            out.append(kind.name());
            assert(final(out)@ =~= old(out)@ + (" "@ + kind_name(kind)));
        } else {
            assert(final(out)@ =~= old(out)@ + Seq::<char>::empty());
        }
    }

    /// Appends the members to `out` as text, each name after a blank.
    pub fn describe_into(&self, out: &mut String)
        ensures
            final(out)@ == old(out)@ + kinds_text(self@),
    {
        let ghost start = out@;
        let ghost kinds = self@;
        self.list(NamespaceKind::Mount, out);
        let ghost one = listed(kinds, NamespaceKind::Mount);
        self.list(NamespaceKind::Pid, out);
        let ghost two = one + listed(kinds, NamespaceKind::Pid);
        assert(out@ =~= start + two);
        self.list(NamespaceKind::Network, out);
        let ghost three = two + listed(kinds, NamespaceKind::Network);
        assert(out@ =~= start + three);
        self.list(NamespaceKind::Ipc, out);
        let ghost four = three + listed(kinds, NamespaceKind::Ipc);
        assert(out@ =~= start + four);
        self.list(NamespaceKind::Uts, out);
        let ghost five = four + listed(kinds, NamespaceKind::Uts);
        assert(out@ =~= start + five);
        self.list(NamespaceKind::Cgroup, out);
        let ghost six = five + listed(kinds, NamespaceKind::Cgroup);
        assert(out@ =~= start + six);
    }

    /// The clone-flag word that asks the kernel for exactly the members.
    pub fn kernel_word(&self) -> (word: i32)
        ensures
            word == word_of(self@),
    {
        clone_flag_word(self.mount, self.pid, self.network, self.ipc, self.uts, self.cgroup)
    }
}

/// Each namespace kind has a bit of its own in the flag word: the word of a
/// set is the sum of its members' flags, a kind is a member exactly when its
/// flag is present, and two sets with the same word are the same set.
pub proof fn flag_word_names_its_members(a: Set<NamespaceKind>, b: Set<NamespaceKind>)
    ensures
        0 <= word_of(a) <= 0x6E02_0000,
        word_of(a) == word_of(b) ==> a == b,
        word_of(Set::empty()) == 0,
        word_of(set![NamespaceKind::Mount]) == NEW_MOUNT_NS,
        word_of(set![NamespaceKind::Pid]) == NEW_PID_NS,
        word_of(set![NamespaceKind::Network]) == NEW_NETWORK_NS,
        word_of(set![NamespaceKind::Ipc]) == NEW_IPC_NS,
        word_of(set![NamespaceKind::Uts]) == NEW_UTS_NS,
        word_of(set![NamespaceKind::Cgroup]) == NEW_CGROUP_NS,
{
    if word_of(a) == word_of(b) {
        assert(a.contains(NamespaceKind::Network) == b.contains(NamespaceKind::Network));
        assert(a.contains(NamespaceKind::Pid) == b.contains(NamespaceKind::Pid));
        assert(a.contains(NamespaceKind::Ipc) == b.contains(NamespaceKind::Ipc));
        assert(a.contains(NamespaceKind::Uts) == b.contains(NamespaceKind::Uts));
        assert(a.contains(NamespaceKind::Cgroup) == b.contains(NamespaceKind::Cgroup));
        assert(a.contains(NamespaceKind::Mount) == b.contains(NamespaceKind::Mount));
        assert forall|kind: NamespaceKind| a.contains(kind) == b.contains(kind) by {
            match kind {
                NamespaceKind::Mount => {},
                NamespaceKind::Pid => {},
                NamespaceKind::Network => {},
                NamespaceKind::Ipc => {},
                NamespaceKind::Uts => {},
                NamespaceKind::Cgroup => {},
            }
        }
        assert(a =~= b);
    }
}

/// A flag set is determined by its members: the set made from the members of
/// `set` is `set` itself, and the members of the set made from `kinds` are
/// `kinds`.
pub proof fn flag_set_is_its_members(set: NamespaceFlagSet, kinds: Set<NamespaceKind>)
    ensures
        flag_set(set@) == set,
        flag_set(kinds)@ == kinds,
{
    assert forall|kind: NamespaceKind| flag_set(kinds)@.contains(kind) == kinds.contains(kind) by {
        match kind {
            NamespaceKind::Mount => {},
            NamespaceKind::Pid => {},
            NamespaceKind::Network => {},
            NamespaceKind::Ipc => {},
            NamespaceKind::Uts => {},
            NamespaceKind::Cgroup => {},
        }
    }
    assert(flag_set(kinds)@ =~= kinds);
}

/// Both call sites of a launch ask for at least the required kinds, and only
/// process creation asks for a cgroup namespace.
pub proof fn call_sites_request_required_kinds()
    ensures
        required_kinds().subset_of(creation_kinds()),
        creation_kinds().contains(NamespaceKind::Cgroup),
        !required_kinds().contains(NamespaceKind::Cgroup),
        word_of(required_kinds()) == 0x6C02_0000,
        word_of(creation_kinds()) == 0x6E02_0000,
{
}

} // verus!
