//! Kernel flag words, as `nix` encodes them.
//!
//! The launcher plans system calls whose flag arguments are bit patterns fixed
//! by the Linux ABI. This module asks `nix` for those patterns instead of
//! restating them in executable code. The contracts of its functions are
//! believed, not proved: they give the values that `nix` takes from `libc` on
//! Linux, where every flag named here occupies bits of its own, so that a union
//! of flags is the sum of their words.

use nix::mount::{MntFlags, MsFlags};
use nix::sched::CloneFlags;
use nix::sys::stat::Mode;
use vstd::prelude::*;

verus! {

/// Flag word of `CLONE_NEWNS`: a new mount namespace.
pub const NEW_MOUNT_NS: i32 = 0x0002_0000;

/// Flag word of `CLONE_NEWCGROUP`: a new cgroup namespace.
pub const NEW_CGROUP_NS: i32 = 0x0200_0000;

/// Flag word of `CLONE_NEWUTS`: a new hostname namespace.
pub const NEW_UTS_NS: i32 = 0x0400_0000;

/// Flag word of `CLONE_NEWIPC`: a new IPC namespace.
pub const NEW_IPC_NS: i32 = 0x0800_0000;

/// Flag word of `CLONE_NEWPID`: a new process-id namespace.
pub const NEW_PID_NS: i32 = 0x2000_0000;

/// Flag word of `CLONE_NEWNET`: a new network namespace.
pub const NEW_NETWORK_NS: i32 = 0x4000_0000;

/// Flag word of `MS_BIND`: mount a directory at a second place.
pub const MOUNT_BIND: u64 = 0x1000;

/// Flag word of `MS_REC`: apply the mount to the whole subtree.
pub const MOUNT_RECURSIVE: u64 = 0x4000;

/// Flag word of `MNT_DETACH`: detach now, release when no longer in use.
pub const UNMOUNT_DETACH: i32 = 0x2;

/// Mode word of `S_IRWXU`: read, write and search for the owner.
pub const MODE_OWNER_ALL: u32 = 0x1C0;

/// Mode word of `S_IRWXG`: read, write and search for the group.
pub const MODE_GROUP_ALL: u32 = 0x38;

/// Mode word of `S_IRWXO`: read, write and search for everyone else.
pub const MODE_OTHER_ALL: u32 = 0x7;

/// The clone-flag word of a choice of namespaces.
pub open spec fn clone_word(
    mount: bool,
    pid: bool,
    network: bool,
    ipc: bool,
    uts: bool,
    cgroup: bool,
) -> int {
    (if mount { NEW_MOUNT_NS as int } else { 0 })
    + (if pid { NEW_PID_NS as int } else { 0 })
    + (if network { NEW_NETWORK_NS as int } else { 0 })
    + (if ipc { NEW_IPC_NS as int } else { 0 })
    + (if uts { NEW_UTS_NS as int } else { 0 })
    + (if cgroup { NEW_CGROUP_NS as int } else { 0 })
}

/// The mount-flag word of a choice of mount flags.
pub open spec fn mount_word(bind: bool, recursive: bool) -> int {
    (if bind { MOUNT_BIND as int } else { 0 })
    + (if recursive { MOUNT_RECURSIVE as int } else { 0 })
}

/// The unmount-flag word of a choice of unmount flags.
pub open spec fn unmount_word(detach: bool) -> int {
    if detach { UNMOUNT_DETACH as int } else { 0 }
}

/// The mode word that grants full access to a choice of permission classes.
pub open spec fn mode_word(owner: bool, group: bool, other: bool) -> int {
    (if owner { MODE_OWNER_ALL as int } else { 0 })
    + (if group { MODE_GROUP_ALL as int } else { 0 })
    + (if other { MODE_OTHER_ALL as int } else { 0 })
}

/// Builds a `nix::sched::CloneFlags` with `empty` and `set`, and reads it with
/// `bits`.
///
/// Trusted: the result is the union of the `CLONE_NEW*` flags that were
/// chosen and of no other flag, each with the value `libc` gives it on Linux.
#[verifier::external_body]
pub(crate) fn clone_flag_word(
    mount: bool,
    pid: bool,
    network: bool,
    ipc: bool,
    uts: bool,
    cgroup: bool,
) -> (word: i32)
    ensures
        word == clone_word(mount, pid, network, ipc, uts, cgroup),
{
    let mut flags = CloneFlags::empty();
    flags.set(CloneFlags::CLONE_NEWNS, mount);
    flags.set(CloneFlags::CLONE_NEWPID, pid);
    flags.set(CloneFlags::CLONE_NEWNET, network);
    flags.set(CloneFlags::CLONE_NEWIPC, ipc);
    flags.set(CloneFlags::CLONE_NEWUTS, uts);
    flags.set(CloneFlags::CLONE_NEWCGROUP, cgroup);
    flags.bits()
}

/// Builds a `nix::mount::MsFlags` with `empty` and `set`, and reads it with
/// `bits`.
///
/// Trusted: the result is the union of `MS_BIND` and `MS_REC` as far as they
/// were chosen, each with the value `libc` gives it on Linux; with neither
/// chosen it is the empty word.
#[verifier::external_body]
pub(crate) fn mount_flag_word(bind: bool, recursive: bool) -> (word: u64)
    ensures
        word == mount_word(bind, recursive),
{
    let mut flags = MsFlags::empty();
    flags.set(MsFlags::MS_BIND, bind);
    flags.set(MsFlags::MS_REC, recursive);
    u64::from(flags.bits())
}

/// Builds a `nix::mount::MntFlags` with `empty` and `set`, and reads it with
/// `bits`.
///
/// Trusted: the result is `MNT_DETACH` with the value `libc` gives it on
/// Linux if it was chosen, and the empty word otherwise.
#[verifier::external_body]
pub(crate) fn unmount_flag_word(detach: bool) -> (word: i32)
    ensures
        word == unmount_word(detach),
{
    let mut flags = MntFlags::empty();
    flags.set(MntFlags::MNT_DETACH, detach);
    flags.bits()
}

/// Builds a `nix::sys::stat::Mode` with `empty` and `set`, and reads it with
/// `bits`.
///
/// Trusted: the result is the union of `S_IRWXU`, `S_IRWXG` and `S_IRWXO` as
/// far as they were chosen, each with the value `libc` gives it on Linux.
#[verifier::external_body]
pub(crate) fn mode_flag_word(owner: bool, group: bool, other: bool) -> (word: u32)
    ensures
        word == mode_word(owner, group, other),
{
    let mut mode = Mode::empty();
    mode.set(Mode::S_IRWXU, owner);
    mode.set(Mode::S_IRWXG, group);
    mode.set(Mode::S_IRWXO, other);
    mode.bits()
}

} // verus!
