//! What holds of every launch, whatever its caller reports.

use crate::action::{
    changes_mounts, changes_namespaces, fixed_path, well_formed, ActionView, Report,
};
use crate::encoding::{MOUNT_BIND, MOUNT_RECURSIVE, UNMOUNT_DETACH};
use crate::error::{
    Cause, ControllerOperation, Defect, ExecutionFault, Field, LaunchError, STATUS_CONFIGURATION,
    STATUS_CONTROLLER, STATUS_MOUNT, STATUS_PRIVILEGE,
};
use crate::launch::{
    action_of, after, awaits, default_cgroup, default_hostname, exit_status_of, rejection,
    stage_before, stage_of, status_of_termination, successor, Progress, Stage, Step,
};
use crate::namespaces::{required_kinds, NamespaceKind};
use crate::request::{
    controller_root, first_defect, group_directory, membership_file,
    relocation_is_hidden_under_root, valid_request, RequestView,
};
use crate::text::{
    component, decimal_is_passable, joined, joined_keeps_fitness, passable, signed_decimal,
};
use vstd::prelude::*;
use vstd::string::*;

verus! {

/// Where a launch stands after a sequence of reports, taken one by one.
pub open spec fn run(progress: Progress, reports: Seq<Report>) -> Progress
    decreases reports.len(),
{
    if reports.len() == 0 {
        progress
    } else {
        after(run(progress, reports.drop_last()), reports.last())
    }
}

/// The step that stands `n` places after `from` in its chain, if the chain is
/// that long.
pub open spec fn step_at(from: Step, n: nat) -> Option<Step>
    decreases n,
{
    if n == 0 {
        Some(from)
    } else {
        match step_at(from, (n - 1) as nat) {
            Some(step) => successor(step),
            None => None,
        }
    }
}

/// Whether each of the first `n` reports answers the step at its place in the
/// chain from `from`, and lets that step succeed.
pub open spec fn accepted(from: Step, reports: Seq<Report>, n: int) -> bool {
    forall|i: int|
        0 <= i < n ==> (#[trigger] step_at(from, i as nat) matches Some(step) && rejection(
            step,
            reports[i],
        ) is None)
}

/// Whether the report at place `j` is the first that is rejected, by the step
/// `at` and with `error`.
pub open spec fn fails_at(
    from: Step,
    reports: Seq<Report>,
    j: int,
    at: Step,
    error: LaunchError,
) -> bool {
    &&& 0 <= j < reports.len()
    &&& accepted(from, reports, j)
    &&& step_at(from, j as nat) == Some(at)
    &&& rejection(at, reports[j]) == Some(error)
}

/// Whether the report at place `j` answers the last step of the chain with
/// the exit code `status`, every report before it having been accepted.
pub open spec fn exits_at(from: Step, reports: Seq<Report>, j: int, status: isize) -> bool {
    &&& 0 <= j < reports.len()
    &&& accepted(from, reports, j)
    &&& step_at(from, j as nat) matches Some(step)
    &&& awaits(step)
    &&& reports[j] matches Report::Terminated(Some(code))
    &&& status == code as isize
}

/// Whether `end` is where the reports lead from the step `from`, each taken
/// by the step at its place. A pending step is the one that many places
/// further on, every report having been accepted. A failure is the error of
/// the first report that was rejected, in the step that rejected it. An exit
/// is the exit code by which the last step of the chain was answered.
pub open spec fn explained(from: Step, reports: Seq<Report>, end: Progress) -> bool {
    match end {
        Progress::Pending(step) => {
            &&& step_at(from, reports.len()) == Some(step)
            &&& accepted(from, reports, reports.len() as int)
        },
        Progress::Failed { error, at } => exists|j: int|
            #[trigger] fails_at(from, reports, j, at, error),
        Progress::Exited(status) => exists|j: int| #[trigger] exits_at(from, reports, j, status),
    }
}

/// The place of a step in its chain.
pub open spec fn rank(step: Step) -> nat {
    match step {
        Step::CheckRootfs => 0,
        Step::CreateIsolated => 1,
        Step::AwaitIsolated => 2,
        Step::LocateController => 0,
        Step::LeaveNamespaces => 1,
        Step::CreateGroup => 2,
        Step::WriteCeiling => 3,
        Step::WriteNotification => 4,
        Step::JoinGroup => 5,
        Step::NameHost => 6,
        Step::BindRoot => 7,
        Step::ClearRelocation => 8,
        Step::MakeRelocation => 9,
        Step::SwitchRoot => 10,
        Step::EnterRoot => 11,
        Step::DetachOldRoot => 12,
        Step::MountProc => 13,
        Step::StartCommand => 14,
        Step::AwaitCommand => 15,
    }
}

/// The first step of the chain that `step` belongs to.
pub open spec fn head(step: Step) -> Step {
    match step {
        Step::CheckRootfs | Step::CreateIsolated | Step::AwaitIsolated => Step::CheckRootfs,
        _ => Step::LocateController,
    }
}

/// The number of steps of the part of a launch that starts with `head`.
pub open spec fn chain_length(head: Step) -> nat {
    if head == Step::CheckRootfs {
        3
    } else {
        16
    }
}

/// The place of a stage in the order of isolation.
pub open spec fn stage_rank(stage: Stage) -> nat {
    match stage {
        Stage::Created => 0,
        Stage::NamespacesSet => 1,
        Stage::ResourceBound => 2,
        Stage::RootSwitched => 3,
        Stage::ProcMounted => 4,
        Stage::Running => 5,
        Stage::Exited => 6,
        Stage::Failed => 6,
    }
}

/// A launch that has ended stays as it is, whatever is reported to it.
pub proof fn ended_launch_stays(progress: Progress, reports: Seq<Report>)
    requires
        !(progress is Pending),
    ensures
        run(progress, reports) == progress,
    decreases reports.len(),
{
    if reports.len() > 0 {
        ended_launch_stays(progress, reports.drop_last());
    }
}

/// The steps of a chain lie at the places that their ranks give, the chain
/// goes on from each step but the one that waits, and it ends there.
pub proof fn chain_follows_rank(step: Step)
    ensures
        step_at(head(step), rank(step)) == Some(step),
        successor(step) is None <==> awaits(step),
        successor(step) matches Some(next) ==> rank(next) == rank(step) + 1 && head(next) == head(
            step,
        ),
{
    reveal_with_fuel(step_at, 17);
}

/// The step at a place of a chain has that place as its rank, counted from
/// the rank of the step the chain is followed from, and belongs to the same
/// part of the launch.
pub proof fn place_is_rank(from: Step, n: nat, step: Step)
    requires
        step_at(from, n) == Some(step),
    ensures
        rank(step) == rank(from) + n,
        head(step) == head(from),
    decreases n,
{
    if n > 0 {
        let before = step_at(from, (n - 1) as nat)->0;
        place_is_rank(from, (n - 1) as nat, before);
        chain_follows_rank(before);
    }
}

/// The first failure decides. Take any step of a launch and any sequence of
/// reports. If a step is pending afterwards, it is the one that many places
/// further on, and every report was accepted by the step at its place: no
/// step was skipped and none was taken after one that failed. If the launch
/// has failed, it failed with the error of the first report that its step
/// rejected, whatever was reported later. If it has exited, the last step of
/// the chain was reached in the same way and was answered by the exit code
/// that is now the status.
pub proof fn first_failure_decides(from: Step, reports: Seq<Report>)
    ensures
        explained(from, reports, run(Progress::Pending(from), reports)),
    decreases reports.len(),
{
    let end = run(Progress::Pending(from), reports);
    if reports.len() == 0 {
        assert(explained(from, reports, end));
    } else {
        let earlier = reports.drop_last();
        let last = reports.last();
        let n = earlier.len() as int;
        let before = run(Progress::Pending(from), earlier);
        assert(end == after(before, last));
        first_failure_decides(from, earlier);
        match before {
            Progress::Pending(step) => {
                same_reports_are_accepted(from, reports, n);
                chain_follows_rank(step);
                match rejection(step, last) {
                    Some(error) => {
                        assert(fails_at(from, reports, n, step, error));
                        assert(explained(from, reports, end));
                    },
                    None => {
                        match successor(step) {
                            None => {
                                let status = last->Terminated_0->0 as isize;
                                assert(end == Progress::Exited(status));
                                assert(exits_at(from, reports, n, status));
                                assert(end->Exited_0 == status);
                                assert(explained(from, reports, end));
                            },
                            Some(next) => {
                                assert(end == Progress::Pending(next));
                                assert(accepted(from, reports, n + 1));
                                assert(explained(from, reports, end));
                            },
                        }
                    },
                }
            },
            Progress::Failed { error, at } => {
                let j = choose|j: int| #[trigger] fails_at(from, earlier, j, at, error);
                same_reports_are_accepted(from, reports, j);
                assert(fails_at(from, reports, j, at, error));
                assert(explained(from, reports, end));
            },
            Progress::Exited(status) => {
                let j = choose|j: int| #[trigger] exits_at(from, earlier, j, status);
                same_reports_are_accepted(from, reports, j);
                assert(exits_at(from, reports, j, status));
                assert(explained(from, reports, end));
            },
        }
    }
}

/// Whether the first reports are accepted does not depend on the last one.
proof fn same_reports_are_accepted(from: Step, reports: Seq<Report>, n: int)
    requires
        0 <= n < reports.len(),
        accepted(from, reports.drop_last(), n),
    ensures
        accepted(from, reports, n),
        n < reports.len() - 1 ==> reports.drop_last()[n] == reports[n],
{
    let earlier = reports.drop_last();
    assert forall|i: int| 0 <= i < n implies (#[trigger] step_at(from, i as nat) matches Some(s)
        && rejection(s, reports[i]) is None) by {
        assert(earlier[i] == reports[i]);
    }
}

/// A step becomes pending only by the success of every step before it. If
/// the reports lead from one step to another that is pending, there are as
/// many reports as there are places between the two steps, and each was
/// accepted by the step at its place.
pub proof fn pending_step_follows_success(from: Step, reports: Seq<Report>, step: Step)
    requires
        run(Progress::Pending(from), reports) == Progress::Pending(step),
    ensures
        head(step) == head(from),
        rank(step) == rank(from) + reports.len(),
        accepted(from, reports, reports.len() as int),
{
    first_failure_decides(from, reports);
    place_is_rank(from, reports.len(), step);
}

/// Every launch ends. Each part of a launch is over after as many reports
/// as it has steps, sixteen for the isolated process and three for the
/// supervisor, or sooner: a caller that answers every pending action is done
/// after that many at most.
pub proof fn every_launch_ends(from: Step, reports: Seq<Report>)
    requires
        rank(from) + reports.len() >= chain_length(head(from)),
    ensures
        !(run(Progress::Pending(from), reports) is Pending),
{
    if let Progress::Pending(step) = run(Progress::Pending(from), reports) {
        pending_step_follows_success(from, reports, step);
    }
}

/// The command is started only in a fully isolated process. If, after any
/// sequence of reports, the isolated part of a launch is about to start the
/// command, is running it, or has its exit status, then each of the fourteen
/// steps before it was taken, in order, and succeeded: the controller was
/// found, the namespaces were left, the group was joined, the hostname set,
/// the root switched, the old root detached and `/proc` mounted.
pub proof fn command_starts_only_when_isolated(reports: Seq<Report>)
    ensures
        ({
            let end = run(Progress::Pending(Step::LocateController), reports);
            end == Progress::Pending(Step::StartCommand) || end == Progress::Pending(
                Step::AwaitCommand,
            ) || end is Exited
        }) ==> reports.len() >= 14 && accepted(Step::LocateController, reports, 14),
{
    let from = Step::LocateController;
    let end = run(Progress::Pending(from), reports);
    first_failure_decides(from, reports);
    match end {
        Progress::Pending(step) => {
            if step == Step::StartCommand || step == Step::AwaitCommand {
                place_is_rank(from, reports.len(), step);
            }
        },
        Progress::Exited(status) => {
            let j = choose|j: int| #[trigger] exits_at(from, reports, j, status);
            let step = step_at(from, j as nat)->0;
            place_is_rank(from, j as nat, step);
        },
        _ => {},
    }
}

/// A host without the pids controller fails the launch at once. The search
/// for the controller is the first step of the isolated part, it changes
/// nothing, and its refusal ends the launch with an error and an exit status
/// of their own: the status is neither zero nor that of a namespace or mount
/// failure. A launch that has failed for want of the controller has failed in
/// that first step, on the first report: no other action was handed out.
pub proof fn missing_controller_fails_first(
    request: RequestView,
    pid: int,
    cause: Cause,
    reports: Seq<Report>,
)
    ensures
        action_of(request, pid, Step::LocateController) == (ActionView::ProbeDirectory {
            path: controller_root(),
        }),
        after(Progress::Pending(Step::LocateController), Report::Refused(cause)) == (
        Progress::Failed {
            error: LaunchError::ResourceControllerUnavailable {
                step: ControllerOperation::Locate,
                cause,
            },
            at: Step::LocateController,
        }),
        exit_status_of(
            after(Progress::Pending(Step::LocateController), Report::Refused(cause)),
        ) == Some(STATUS_CONTROLLER as int),
        STATUS_CONTROLLER != 0 && STATUS_CONTROLLER != STATUS_PRIVILEGE && STATUS_CONTROLLER
            != STATUS_MOUNT,
        run(Progress::Pending(Step::LocateController), reports) matches Progress::Failed {
            error: LaunchError::ResourceControllerUnavailable {
                step: ControllerOperation::Locate,
                ..
            },
            at,
        } ==> at == Step::LocateController && reports.len() > 0 && rejection(
            Step::LocateController,
            reports[0],
        ) is Some,
{
    let from = Step::LocateController;
    first_failure_decides(from, reports);
    if let Progress::Failed { error, at } = run(Progress::Pending(from), reports) {
        if let LaunchError::ResourceControllerUnavailable {
            step: ControllerOperation::Locate,
            ..
        } = error {
            let j = choose|j: int| #[trigger] fails_at(from, reports, j, at, error);
            place_is_rank(from, j as nat, at);
        }
    }
}

/// A root filesystem path that names no directory fails the launch before
/// any namespace exists. The check is the first step of the supervisor, it
/// changes nothing, and its refusal is a configuration error. A launch that
/// has failed for it has failed in that first step, on the first report: the
/// isolated process was never created.
pub proof fn missing_rootfs_fails_first(
    request: RequestView,
    pid: int,
    cause: Cause,
    reports: Seq<Report>,
)
    ensures
        action_of(request, pid, Step::CheckRootfs) == (ActionView::ProbeDirectory {
            path: request.rootfs,
        }),
        after(Progress::Pending(Step::CheckRootfs), Report::Refused(cause)) == (Progress::Failed {
            error: LaunchError::Configuration {
                field: Field::Rootfs,
                defect: Defect::NotADirectory,
            },
            at: Step::CheckRootfs,
        }),
        exit_status_of(after(Progress::Pending(Step::CheckRootfs), Report::Refused(cause)))
            == Some(STATUS_CONFIGURATION as int),
        run(Progress::Pending(Step::CheckRootfs), reports) matches Progress::Failed {
            error: LaunchError::Configuration { .. },
            at,
        } ==> at == Step::CheckRootfs && reports.len() > 0 && rejection(
            Step::CheckRootfs,
            reports[0],
        ) is Some,
        run(Progress::Pending(Step::CheckRootfs), reports) == Progress::Pending(
            Step::CreateIsolated,
        ) ==> reports.len() == 1 && rejection(Step::CheckRootfs, reports[0]) is None,
{
    let from = Step::CheckRootfs;
    first_failure_decides(from, reports);
    if run(Progress::Pending(from), reports) == Progress::Pending(Step::CreateIsolated) {
        pending_step_follows_success(from, reports, Step::CreateIsolated);
        assert(step_at(from, 0) == Some(from));
    }
    if let Progress::Failed { error, at } = run(Progress::Pending(from), reports) {
        if error is Configuration {
            let j = choose|j: int| #[trigger] fails_at(from, reports, j, at, error);
            place_is_rank(from, j as nat, at);
        }
    }
}

/// The mount table is changed only after the process has a mount namespace
/// of its own, and in the one order that works. The supervisor changes no
/// mount and the isolated process changes none before it has left the host's
/// mount namespace. The new root is bound before the relocation directory is
/// made, the directory is made before the root is exchanged, the root is
/// exchanged before the old one is detached, and `/proc` is mounted after
/// that and before the command is started.
pub proof fn mounts_follow_separation(request: RequestView, pid: int, step: Step)
    ensures
        changes_mounts(action_of(request, pid, step)) ==> head(step) == Step::LocateController
            && rank(Step::LeaveNamespaces) < rank(step),
        changes_namespaces(action_of(request, pid, step)) <==> step == Step::CreateIsolated
            || step == Step::LeaveNamespaces,
        action_of(request, pid, Step::LeaveNamespaces) == (ActionView::Unshare {
            namespaces: required_kinds(),
        }),
        required_kinds().contains(NamespaceKind::Mount),
        rank(Step::BindRoot) < rank(Step::ClearRelocation) < rank(Step::MakeRelocation) < rank(
            Step::SwitchRoot,
        ) < rank(Step::EnterRoot) < rank(Step::DetachOldRoot) < rank(Step::MountProc) < rank(
            Step::StartCommand,
        ),
{
}

/// The stages of isolation are passed in order. No report takes a launch
/// back to an earlier stage. The step after a step belongs to the same stage
/// or, in the isolated process, to the next one at most; each part starts
/// with nothing changed, and the isolated process is running when it waits
/// for the command.
pub proof fn stages_follow_in_order(step: Step, progress: Progress, report: Report)
    ensures
        stage_rank(stage_of(progress)) <= stage_rank(stage_of(after(progress, report))),
        successor(step) matches Some(next) ==> stage_rank(stage_before(step)) <= stage_rank(
            stage_before(next),
        ),
        head(step) == Step::LocateController ==> (successor(step) matches Some(next)
            ==> stage_rank(stage_before(next)) <= stage_rank(stage_before(step)) + 1),
        stage_before(Step::LocateController) == Stage::Created,
        stage_before(Step::CheckRootfs) == Stage::Created,
        stage_before(Step::AwaitCommand) == Stage::Running,
{
}

/// The exit status of the command is relayed unchanged, and an abnormal end
/// gives the sentinel. A step that waits and is told that the process exited
/// with a code ends the launch with that code as its status. Told that the
/// process was terminated abnormally, it fails the launch with an execution
/// error, whose status is the sentinel.
pub proof fn exit_status_is_relayed(step: Step, code: Option<i32>)
    requires
        awaits(step),
    ensures
        exit_status_of(after(Progress::Pending(step), Report::Terminated(code))) == Some(
            status_of_termination(code),
        ),
        code matches Some(value) ==> after(Progress::Pending(step), Report::Terminated(code))
            == Progress::Exited(value as isize),
        code is None ==> after(Progress::Pending(step), Report::Terminated(code)) == (
        Progress::Failed {
            error: LaunchError::Execution { fault: ExecutionFault::Abnormal },
            at: step,
        }),
{
}

/// A group that is already there is reused. The refusal of the group
/// directory because it exists lets the launch go on to write the ceiling,
/// and the paths of the directory and of its control files depend on the
/// group's name alone, so that a later launch under the same name writes the
/// same files. What is written to the membership file is the process id in
/// decimal and nothing else.
pub proof fn existing_group_is_reused(a: RequestView, b: RequestView, pid: int, other: int)
    requires
        a.policy.name == b.policy.name,
    ensures
        after(Progress::Pending(Step::CreateGroup), Report::Refused(Cause::AlreadyExists))
            == Progress::Pending(Step::WriteCeiling),
        action_of(a, pid, Step::CreateGroup) == action_of(b, other, Step::CreateGroup),
        action_of(a, pid, Step::WriteCeiling)->WriteFile_path == action_of(
            b,
            other,
            Step::WriteCeiling,
        )->WriteFile_path,
        action_of(a, pid, Step::JoinGroup) == (ActionView::WriteFile {
            path: membership_file(b.policy.name),
            contents: signed_decimal(pid),
        }),
{
}

/// The default hostname and cgroup name are valid, so a container that is
/// given neither is rejected only for its root filesystem path, its command
/// or an argument.
pub proof fn defaults_are_valid(rootfs: Seq<char>, command: Seq<char>, args: Seq<Seq<char>>)
    ensures
        default_hostname().len() > 0 && passable(default_hostname()),
        default_cgroup().len() > 0 && component(default_cgroup()),
        first_defect(rootfs, command, args, default_hostname(), default_cgroup()) matches Some(
            (field, _),
        ) ==> field == Field::Rootfs || field == Field::Command || field == Field::Argument,
{
    reveal_strlit("vasquod");
    reveal_strlit("vasquod-container");
    assert(default_hostname() =~= seq!['v', 'a', 's', 'q', 'u', 'o', 'd']);
    assert(default_cgroup() =~= seq![
        'v', 'a', 's', 'q', 'u', 'o', 'd', '-', 'c', 'o', 'n', 't', 'a', 'i', 'n', 'e', 'r',
    ]);
    assert(seq!['.'].len() == 1 && seq!['.', '.'].len() == 2);
}

/// The root switch leaves the process in the new root, and what it detaches
/// is the old one. The new root is bound onto itself with its whole subtree.
/// The root is exchanged for the request's root filesystem, the old root
/// going to the relocation directory under it. The step after that makes `/`
/// the working directory, and no later step changes the directory or the
/// root. What is detached, lazily, is the relocation directory as it is named
/// from the new root, and `/proc` is mounted after that, in the new root.
pub proof fn root_switch_leaves_process_in_new_root(request: RequestView, pid: int, step: Step)
    ensures
        action_of(request, pid, Step::BindRoot) == (ActionView::Mount {
            source: request.rootfs,
            target: request.rootfs,
            fstype: None,
            flags: MOUNT_BIND + MOUNT_RECURSIVE,
        }),
        action_of(request, pid, Step::SwitchRoot) == (ActionView::PivotRoot {
            new_root: request.rootfs,
            put_old: joined(request.rootfs, ".oldroot"@),
        }),
        successor(Step::SwitchRoot) == Some(Step::EnterRoot),
        action_of(request, pid, Step::EnterRoot) == (ActionView::ChangeDirectory { path: "/"@ }),
        head(step) == Step::LocateController && rank(step) > rank(Step::EnterRoot) ==> !(action_of(
            request,
            pid,
            step,
        ) is ChangeDirectory) && !(action_of(request, pid, step) is PivotRoot),
        successor(Step::EnterRoot) == Some(Step::DetachOldRoot),
        action_of(request, pid, Step::DetachOldRoot) == (ActionView::Unmount {
            target: joined("/"@, ".oldroot"@),
            unmount_flags: UNMOUNT_DETACH as int,
        }),
        joined("/"@, ".oldroot"@) == "/.oldroot"@,
        successor(Step::DetachOldRoot) == Some(Step::MountProc),
        action_of(request, pid, Step::MountProc) == (ActionView::Mount {
            source: "proc"@,
            target: "/proc"@,
            fstype: Some("proc"@),
            flags: 0,
        }),
{
    reveal_strlit("/");
    relocation_is_hidden_under_root("/"@);
}

/// The fixed texts of a launch are fit for the kernel: the controller's
/// mount point, `/` and `/proc` are absolute paths, and neither they nor the
/// names of the control files and of the proc filesystem hold a NUL.
proof fn fixed_texts_are_fit()
    ensures
        fixed_path(controller_root()),
        fixed_path("/"@),
        fixed_path("/proc"@),
        passable("proc"@),
        passable("pids.max"@),
        passable("notify_on_release"@),
        passable("cgroup.procs"@),
{
    reveal_strlit("/sys/fs/cgroup/pids");
    reveal_strlit("pids.max");
    reveal_strlit("notify_on_release");
    reveal_strlit("cgroup.procs");
    reveal_strlit("proc");
    reveal_strlit("/proc");
    reveal_strlit("/");
    assert("/sys/fs/cgroup/pids"@ =~= seq![
        '/', 's', 'y', 's', '/', 'f', 's', '/', 'c', 'g', 'r', 'o', 'u', 'p', '/', 'p', 'i', 'd',
        's',
    ]);
    assert("pids.max"@ =~= seq!['p', 'i', 'd', 's', '.', 'm', 'a', 'x']);
    assert("notify_on_release"@ =~= seq![
        'n', 'o', 't', 'i', 'f', 'y', '_', 'o', 'n', '_', 'r', 'e', 'l', 'e', 'a', 's', 'e',
    ]);
    assert("cgroup.procs"@ =~= seq!['c', 'g', 'r', 'o', 'u', 'p', '.', 'p', 'r', 'o', 'c', 's']);
    assert("proc"@ =~= seq!['p', 'r', 'o', 'c']);
    assert("/proc"@ =~= seq!['/', 'p', 'r', 'o', 'c']);
    assert("/"@ =~= seq!['/']);
}

/// Every action of a valid request is fit for the kernel: each of its texts
/// can be handed over as a string, each of its paths is absolute, and the
/// directory that takes the old root lies under the new root.
pub proof fn actions_are_fit_for_the_kernel(request: RequestView, pid: int, step: Step)
    requires
        valid_request(request),
    ensures
        well_formed(action_of(request, pid, step)),
{
    fixed_texts_are_fit();
    let name = request.policy.name;
    let directory = group_directory(name);
    let rootfs = request.rootfs;
    match step {
        Step::CreateGroup => {
            joined_keeps_fitness(controller_root(), name);
        },
        Step::WriteCeiling => {
            joined_keeps_fitness(controller_root(), name);
            joined_keeps_fitness(directory, "pids.max"@);
            decimal_is_passable(request.policy.max_processes as int);
        },
        Step::WriteNotification => {
            joined_keeps_fitness(controller_root(), name);
            joined_keeps_fitness(directory, "notify_on_release"@);
            decimal_is_passable(1);
            decimal_is_passable(0);
        },
        Step::JoinGroup => {
            joined_keeps_fitness(controller_root(), name);
            joined_keeps_fitness(directory, "cgroup.procs"@);
            decimal_is_passable(pid);
        },
        Step::ClearRelocation | Step::MakeRelocation | Step::SwitchRoot => {
            relocation_is_hidden_under_root(rootfs);
        },
        Step::DetachOldRoot => {
            relocation_is_hidden_under_root("/"@);
        },
        _ => {},
    }
}

} // verus!
