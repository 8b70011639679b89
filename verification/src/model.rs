//! An explicit model of the kernel state the launch sequence drives.
//!
//! The live kernel's mount table and namespace membership are global and can
//! only be changed with elevated privilege, so the ordering invariants of
//! the launch are stated and proved here over an explicit resource context:
//! a [`World`] describing the environment, and a [`ContainerState`] the
//! ordered operations act on.  [`launch_sequence`] runs the fixed operation
//! order against that context; tests substitute a `World` instead of
//! touching the live kernel, and the proof functions below establish the
//! ordering and isolation properties once and for all.

use vstd::prelude::*;

use crate::errors::ErrorKind;
use crate::errors::Stage;
use crate::errors::kind_of_stage;

verus! {

/// One operation of the launch sequence, as an auditable event.
#[derive(Clone, Copy, PartialEq, Eq, Structural, Debug)]
pub enum Op {
    /// Remount the root mount recursive and private.
    IsolatePropagation,
    /// Bind-mount the target root directory onto itself.
    BindRootSelf,
    /// Swap the filesystem root onto the target directory.
    PivotToRoot,
    /// Lazily detach the displaced old root.
    DetachOldRoot,
    /// Reset the working directory to the new root's top level.
    ResetCwd,
    /// Mount the fresh process-information filesystem.
    MountProcFs,
    /// Unshare an identity namespace before the hand-off, when requested.
    UnshareIdentity,
    /// Replace the process image with the target command.
    ExecHandoff,
}

/// Whether an operation reads or writes the mount table.
pub open spec fn op_touches_mounts(op: Op) -> bool {
    match op {
        Op::IsolatePropagation => true,
        Op::BindRootSelf => true,
        Op::PivotToRoot => true,
        Op::DetachOldRoot => true,
        Op::ResetCwd => false,
        Op::MountProcFs => true,
        Op::UnshareIdentity => false,
        Op::ExecHandoff => false,
    }
}

/// The fixed, non-skippable order of the launch sequence.  Each operation's
/// postcondition is the next one's precondition; no two may be reordered.
pub open spec fn launch_ops() -> Seq<Op> {
    seq![
        Op::IsolatePropagation,
        Op::BindRootSelf,
        Op::PivotToRoot,
        Op::DetachOldRoot,
        Op::ResetCwd,
        Op::MountProcFs,
        Op::UnshareIdentity,
        Op::ExecHandoff,
    ]
}

/// The same order as an executable list.
pub fn launch_plan() -> (r: Vec<Op>)
    ensures
        r@ == launch_ops(),
{
    let mut r: Vec<Op> = Vec::new();
    r.push(Op::IsolatePropagation);
    r.push(Op::BindRootSelf);
    r.push(Op::PivotToRoot);
    r.push(Op::DetachOldRoot);
    r.push(Op::ResetCwd);
    r.push(Op::MountProcFs);
    r.push(Op::UnshareIdentity);
    r.push(Op::ExecHandoff);
    proof {
        assert(r@ =~= launch_ops());
    }
    r
}

/// What the environment holds when the sequence starts.  A test builds one
/// of these instead of requiring real elevated-privilege namespace
/// operations.
#[derive(Clone, Copy, PartialEq, Eq, Structural, Debug)]
pub struct World {
    /// The target root path names an existing directory.
    pub root_path_exists: bool,
    /// The prepared tree holds the target command.
    pub tree_has_cmd: bool,
    /// The target command carries execution permission.
    pub cmd_executable: bool,
    /// The prepared tree holds a sentinel file at its top level.
    pub tree_has_sentinel: bool,
    /// The host's own root holds a sentinel file at its top level.
    pub host_has_sentinel: bool,
    /// Process-ID isolation was requested at process creation.
    pub pid_isolated: bool,
    /// The optional identity-namespace unshare before the hand-off was
    /// requested.
    pub identity_requested: bool,
    /// Mount, root-switch and namespace calls are permitted to this process.
    pub privileged: bool,
}

/// The container-side kernel state the ordered operations act on.
#[derive(Clone, Copy, PartialEq, Eq, Structural, Debug)]
pub struct ContainerState {
    /// The root mount no longer shares propagation with the host.
    pub propagation_private: bool,
    /// The target root directory is a mount point.
    pub root_bound: bool,
    /// The filesystem root is the prepared tree.
    pub root_switched: bool,
    /// The displaced old root is detached.
    pub old_root_detached: bool,
    /// The working directory sits at the new root's top level.
    pub cwd_at_root: bool,
    /// A fresh process-information filesystem is mounted.
    pub proc_mounted: bool,
    /// An identity namespace was unshared, with no mapping configured.
    pub identity_unshared: bool,
    /// The process image has been replaced by the target command.
    pub image_replaced: bool,
}

impl ContainerState {
    /// The state of the fresh process before any operation ran.
    pub open spec fn spec_initial() -> ContainerState {
        ContainerState {
            propagation_private: false,
            root_bound: false,
            root_switched: false,
            old_root_detached: false,
            cwd_at_root: false,
            proc_mounted: false,
            identity_unshared: false,
            image_replaced: false,
        }
    }

    /// The initial state, executably.
    pub fn initial() -> (r: ContainerState)
        ensures
            r == ContainerState::spec_initial(),
    {
        ContainerState {
            propagation_private: false,
            root_bound: false,
            root_switched: false,
            old_root_detached: false,
            cwd_at_root: false,
            proc_mounted: false,
            identity_unshared: false,
            image_replaced: false,
        }
    }
}

/// What one operation does to the state, or the stage at which it fails.
///
/// Failure conditions mirror the kernel's documented behaviour: mount calls
/// need privilege, the bind mount needs an existing target, the pivot needs
/// its target to be a mount point, the process-filesystem mount needs its
/// mount point to exist inside the already-switched root, and the image
/// replacement needs a present, executable command.
pub open spec fn spec_step(w: World, s: ContainerState, op: Op) -> Result<ContainerState, Stage> {
    match op {
        Op::IsolatePropagation => if w.privileged {
            Ok(ContainerState { propagation_private: true, ..s })
        } else {
            Err(Stage::Propagation)
        },
        Op::BindRootSelf => if w.privileged && w.root_path_exists {
            Ok(ContainerState { root_bound: true, ..s })
        } else {
            Err(Stage::BindRoot)
        },
        Op::PivotToRoot => if w.privileged && s.root_bound {
            Ok(ContainerState { root_switched: true, ..s })
        } else {
            Err(Stage::Pivot)
        },
        Op::DetachOldRoot => if w.privileged {
            Ok(ContainerState { old_root_detached: true, ..s })
        } else {
            Err(Stage::DetachOldRoot)
        },
        Op::ResetCwd => Ok(ContainerState { cwd_at_root: true, ..s }),
        Op::MountProcFs => if w.privileged && s.root_switched {
            Ok(ContainerState { proc_mounted: true, ..s })
        } else {
            Err(Stage::ProcMount)
        },
        Op::UnshareIdentity => if !w.identity_requested {
            Ok(s)
        } else if w.privileged {
            Ok(ContainerState { identity_unshared: true, ..s })
        } else {
            Err(Stage::IdentityUnshare)
        },
        Op::ExecHandoff => if w.tree_has_cmd && w.cmd_executable {
            Ok(ContainerState { image_replaced: true, ..s })
        } else {
            Err(Stage::Exec)
        },
    }
}

/// One operation, executably.
pub fn step(w: &World, s: &ContainerState, op: Op) -> (r: Result<ContainerState, Stage>)
    ensures
        r == spec_step(*w, *s, op),
{
    match op {
        Op::IsolatePropagation => if w.privileged {
            Ok(ContainerState { propagation_private: true, ..*s })
        } else {
            Err(Stage::Propagation)
        },
        Op::BindRootSelf => if w.privileged && w.root_path_exists {
            Ok(ContainerState { root_bound: true, ..*s })
        } else {
            Err(Stage::BindRoot)
        },
        Op::PivotToRoot => if w.privileged && s.root_bound {
            Ok(ContainerState { root_switched: true, ..*s })
        } else {
            Err(Stage::Pivot)
        },
        Op::DetachOldRoot => if w.privileged {
            Ok(ContainerState { old_root_detached: true, ..*s })
        } else {
            Err(Stage::DetachOldRoot)
        },
        Op::ResetCwd => Ok(ContainerState { cwd_at_root: true, ..*s }),
        Op::MountProcFs => if w.privileged && s.root_switched {
            Ok(ContainerState { proc_mounted: true, ..*s })
        } else {
            Err(Stage::ProcMount)
        },
        Op::UnshareIdentity => if !w.identity_requested {
            Ok(*s)
        } else if w.privileged {
            Ok(ContainerState { identity_unshared: true, ..*s })
        } else {
            Err(Stage::IdentityUnshare)
        },
        Op::ExecHandoff => if w.tree_has_cmd && w.cmd_executable {
            Ok(ContainerState { image_replaced: true, ..*s })
        } else {
            Err(Stage::Exec)
        },
    }
}

/// Run the tail of the fixed sequence from position `i` on state `s`:
/// the state reached, the failing stage if one failed, and how many
/// operations were attempted (the failing one included).
pub open spec fn spec_run_from(w: World, s: ContainerState, i: int) -> (
    ContainerState,
    Option<Stage>,
    int,
)
    decreases launch_ops().len() - i,
{
    if i < 0 || i >= launch_ops().len() {
        (s, None, 0)
    } else {
        match spec_step(w, s, launch_ops()[i]) {
            Ok(s2) => {
                let (fs, f, n) = spec_run_from(w, s2, i + 1);
                (fs, f, n + 1)
            },
            Err(stage) => (s, Some(stage), 1),
        }
    }
}

/// The state the whole sequence reaches on world `w`.
pub open spec fn spec_launch_state(w: World) -> ContainerState {
    spec_run_from(w, ContainerState::spec_initial(), 0).0
}

/// The stage at which the whole sequence fails on world `w`, if any.
pub open spec fn spec_launch_failure(w: World) -> Option<Stage> {
    spec_run_from(w, ContainerState::spec_initial(), 0).1
}

/// The operations the whole sequence attempts on world `w`, in order.
pub open spec fn spec_launch_trace(w: World) -> Seq<Op> {
    launch_ops().take(spec_run_from(w, ContainerState::spec_initial(), 0).2)
}

/// What one run of the sequence left behind: the operations attempted in
/// order (the failing one included), the state reached, and the stage that
/// failed if one did.
pub struct Outcome {
    pub trace: Vec<Op>,
    pub state: ContainerState,
    pub failed: Option<Stage>,
}

/// Run the whole launch sequence on world `w`: the operations are attempted
/// in their fixed order and the run short-circuits on the first failure,
/// with no partial continuation.
pub fn launch_sequence(w: &World) -> (r: Outcome)
    ensures
        r.trace@ == spec_launch_trace(*w),
        r.state == spec_launch_state(*w),
        r.failed == spec_launch_failure(*w),
{
    let ops = launch_plan();
    let mut trace: Vec<Op> = Vec::new();
    let mut s = ContainerState::initial();
    let mut idx: usize = 0;
    while idx < ops.len()
        invariant
            ops@ == launch_ops(),
            0 <= idx <= ops@.len(),
            trace@ == launch_ops().take(idx as int),
            spec_run_from(*w, ContainerState::spec_initial(), 0).0 == spec_run_from(
                *w,
                s,
                idx as int,
            ).0,
            spec_run_from(*w, ContainerState::spec_initial(), 0).1 == spec_run_from(
                *w,
                s,
                idx as int,
            ).1,
            spec_run_from(*w, ContainerState::spec_initial(), 0).2 == idx + spec_run_from(
                *w,
                s,
                idx as int,
            ).2,
        decreases ops@.len() - idx,
    {
        let op = ops[idx];
        trace.push(op);
        proof {
            assert(trace@ =~= launch_ops().take(idx as int + 1));
        }
        match step(w, &s, op) {
            Ok(s2) => {
                s = s2;
            },
            Err(stage) => {
                return Outcome { trace, state: s, failed: Some(stage) };
            },
        }
        idx = idx + 1;
    }
    proof {
        assert(launch_ops().take(launch_ops().len() as int) =~= launch_ops());
    }
    Outcome { trace, state: s, failed: None }
}

/// Whether a file placed at the top level of the tree the process's root now
/// names is visible at the root of its filesystem view.
pub open spec fn sentinel_visible(w: World, s: ContainerState) -> bool {
    if s.root_switched {
        w.tree_has_sentinel
    } else {
        w.host_has_sentinel
    }
}

/// Whether the file seen at the root's top level would be the host's own.
pub open spec fn host_sentinel_visible(w: World, s: ContainerState) -> bool {
    !s.root_switched && w.host_has_sentinel
}

/// Whether a process listing read from the mounted process-information view
/// would include the host's processes.
pub open spec fn proc_view_shows_host(w: World, s: ContainerState) -> bool {
    s.proc_mounted && !w.pid_isolated
}

/// Whether the container's first process appears as process ID one in the
/// mounted process-information view.
pub open spec fn proc_view_first_is_pid1(w: World, s: ContainerState) -> bool {
    s.proc_mounted && w.pid_isolated
}

/// [`sentinel_visible`], executably, for a test harness.
pub fn sentinel_check(w: &World, s: &ContainerState) -> (b: bool)
    ensures
        b == sentinel_visible(*w, *s),
{
    if s.root_switched {
        w.tree_has_sentinel
    } else {
        w.host_has_sentinel
    }
}

/// [`host_sentinel_visible`], executably, for a test harness.
pub fn host_sentinel_check(w: &World, s: &ContainerState) -> (b: bool)
    ensures
        b == host_sentinel_visible(*w, *s),
{
    !s.root_switched && w.host_has_sentinel
}

/// [`proc_view_shows_host`], executably, for a test harness.
pub fn proc_listing_shows_host(w: &World, s: &ContainerState) -> (b: bool)
    ensures
        b == proc_view_shows_host(*w, *s),
{
    s.proc_mounted && !w.pid_isolated
}

/// [`proc_view_first_is_pid1`], executably, for a test harness.
pub fn first_process_is_one(w: &World, s: &ContainerState) -> (b: bool)
    ensures
        b == proc_view_first_is_pid1(*w, *s),
{
    s.proc_mounted && w.pid_isolated
}

/// The sequence attempts at least one and at most all of the operations.
pub proof fn lemma_run_count_bounds(w: World, s: ContainerState, i: int)
    requires
        0 <= i <= launch_ops().len(),
    ensures
        0 <= spec_run_from(w, s, i).2 <= launch_ops().len() - i,
        i < launch_ops().len() ==> 1 <= spec_run_from(w, s, i).2,
    decreases launch_ops().len() - i,
{
    if i < launch_ops().len() {
        match spec_step(w, s, launch_ops()[i]) {
            Ok(s2) => {
                lemma_run_count_bounds(w, s2, i + 1);
            },
            Err(_) => {},
        }
    }
}

/// On a privileged run against an existing root path, every stage before the
/// hand-off succeeds: the full operation order is attempted, the root ends
/// up switched with the old root detached and the process filesystem
/// mounted, and the run fails exactly when the command cannot be executed.
pub proof fn lemma_launch_run(w: World)
    requires
        w.privileged,
        w.root_path_exists,
    ensures
        spec_launch_trace(w) =~= launch_ops(),
        spec_launch_state(w).propagation_private,
        spec_launch_state(w).root_bound,
        spec_launch_state(w).root_switched,
        spec_launch_state(w).old_root_detached,
        spec_launch_state(w).cwd_at_root,
        spec_launch_state(w).proc_mounted,
        spec_launch_state(w).identity_unshared == w.identity_requested,
        spec_launch_state(w).image_replaced == (w.tree_has_cmd && w.cmd_executable),
        spec_launch_failure(w) == if w.tree_has_cmd && w.cmd_executable {
            Option::<Stage>::None
        } else {
            Option::Some(Stage::Exec)
        },
{
    let s0 = ContainerState::spec_initial();
    let s1 = ContainerState { propagation_private: true, ..s0 };
    let s2 = ContainerState { root_bound: true, ..s1 };
    let s3 = ContainerState { root_switched: true, ..s2 };
    let s4 = ContainerState { old_root_detached: true, ..s3 };
    let s5 = ContainerState { cwd_at_root: true, ..s4 };
    let s6 = ContainerState { proc_mounted: true, ..s5 };
    let s7 = if w.identity_requested {
        ContainerState { identity_unshared: true, ..s6 }
    } else {
        s6
    };
    assert(spec_step(w, s6, Op::UnshareIdentity) == Ok::<ContainerState, Stage>(s7));
    if w.tree_has_cmd && w.cmd_executable {
        let s8 = ContainerState { image_replaced: true, ..s7 };
        assert(spec_run_from(w, s8, 8) == (s8, Option::<Stage>::None, 0int));
        assert(spec_run_from(w, s7, 7) == (s8, Option::<Stage>::None, 1int));
        assert(spec_run_from(w, s6, 6) == (s8, Option::<Stage>::None, 2int));
        assert(spec_run_from(w, s5, 5) == (s8, Option::<Stage>::None, 3int));
        assert(spec_run_from(w, s4, 4) == (s8, Option::<Stage>::None, 4int));
        assert(spec_run_from(w, s3, 3) == (s8, Option::<Stage>::None, 5int));
        assert(spec_run_from(w, s2, 2) == (s8, Option::<Stage>::None, 6int));
        assert(spec_run_from(w, s1, 1) == (s8, Option::<Stage>::None, 7int));
        assert(spec_run_from(w, s0, 0) == (s8, Option::<Stage>::None, 8int));
    } else {
        assert(spec_run_from(w, s7, 7) == (s7, Option::Some(Stage::Exec), 1int));
        assert(spec_run_from(w, s6, 6) == (s7, Option::Some(Stage::Exec), 2int));
        assert(spec_run_from(w, s5, 5) == (s7, Option::Some(Stage::Exec), 3int));
        assert(spec_run_from(w, s4, 4) == (s7, Option::Some(Stage::Exec), 4int));
        assert(spec_run_from(w, s3, 3) == (s7, Option::Some(Stage::Exec), 5int));
        assert(spec_run_from(w, s2, 2) == (s7, Option::Some(Stage::Exec), 6int));
        assert(spec_run_from(w, s1, 1) == (s7, Option::Some(Stage::Exec), 7int));
        assert(spec_run_from(w, s0, 0) == (s7, Option::Some(Stage::Exec), 8int));
    }
    assert(spec_launch_trace(w) =~= launch_ops());
}

/// The propagation isolator is the first mount-related call of every run,
/// successful or not: the very first attempted operation is the isolator,
/// and it itself touches the mount table, so no mount-related operation can
/// precede it.
pub proof fn lemma_propagation_first(w: World)
    ensures
        spec_launch_trace(w).len() > 0,
        spec_launch_trace(w)[0] == Op::IsolatePropagation,
        op_touches_mounts(spec_launch_trace(w)[0]),
{
    lemma_run_count_bounds(w, ContainerState::spec_initial(), 0);
}

/// If the target root path does not exist, the sequence fails at the bind
/// mount with a mount-class error, and the pivot is never attempted.
pub proof fn lemma_missing_root_fails_at_bind(w: World)
    requires
        w.privileged,
        !w.root_path_exists,
    ensures
        spec_launch_failure(w) == Option::Some(Stage::BindRoot),
        kind_of_stage(Stage::BindRoot) == ErrorKind::Mount,
        spec_launch_trace(w) =~= seq![Op::IsolatePropagation, Op::BindRootSelf],
        !spec_launch_trace(w).contains(Op::PivotToRoot),
        !spec_launch_state(w).root_switched,
{
    let s0 = ContainerState::spec_initial();
    let s1 = ContainerState { propagation_private: true, ..s0 };
    assert(spec_run_from(w, s1, 1) == (s1, Option::Some(Stage::BindRoot), 1int));
    assert(spec_run_from(w, s0, 0) == (s1, Option::Some(Stage::BindRoot), 2int));
    assert(spec_launch_trace(w) =~= seq![Op::IsolatePropagation, Op::BindRootSelf]);
    assert(forall|i: int|
        0 <= i < spec_launch_trace(w).len() ==> spec_launch_trace(w)[i] != Op::PivotToRoot);
}

/// For any valid configuration whose root tree contains the target
/// executable, the switch sequence succeeds; a sentinel file placed only
/// inside the prepared tree is then visible at the root's top level, and the
/// host's own sentinel is not.
pub proof fn lemma_sentinel_isolation(w: World)
    requires
        w.privileged,
        w.root_path_exists,
        w.tree_has_cmd,
        w.cmd_executable,
    ensures
        spec_launch_failure(w) is None,
        spec_launch_state(w).root_switched,
        sentinel_visible(w, spec_launch_state(w)) == w.tree_has_sentinel,
        !host_sentinel_visible(w, spec_launch_state(w)),
{
    lemma_launch_run(w);
}

/// With process-ID isolation enabled, the process listing read after the
/// proc-mount stage shows the container's first process as process ID one
/// and shows no host processes.
pub proof fn lemma_pid_isolation_proc_view(w: World)
    requires
        w.privileged,
        w.root_path_exists,
        w.tree_has_cmd,
        w.cmd_executable,
        w.pid_isolated,
    ensures
        spec_launch_state(w).proc_mounted,
        proc_view_first_is_pid1(w, spec_launch_state(w)),
        !proc_view_shows_host(w, spec_launch_state(w)),
{
    lemma_launch_run(w);
}

/// When the command is missing or not executable, the run fails at the exec
/// stage with an exec-class failure, and the displaced old root had already
/// been lazily detached before that failure.
pub proof fn lemma_exec_failure_after_detach(w: World)
    requires
        w.privileged,
        w.root_path_exists,
        !(w.tree_has_cmd && w.cmd_executable),
    ensures
        spec_launch_failure(w) == Option::Some(Stage::Exec),
        kind_of_stage(Stage::Exec) == ErrorKind::Exec,
        spec_launch_state(w).old_root_detached,
{
    lemma_launch_run(w);
}

/// Identity isolation is an explicit, independently toggleable step: left
/// unrequested it changes nothing at all, and in the fixed order it stands
/// strictly after the proc mount and strictly before the hand-off.
pub proof fn lemma_identity_stage_toggleable(w: World, s: ContainerState)
    ensures
        !w.identity_requested ==> spec_step(w, s, Op::UnshareIdentity) == Ok::<
            ContainerState,
            Stage,
        >(s),
        launch_ops()[5] == Op::MountProcFs,
        launch_ops()[6] == Op::UnshareIdentity,
        launch_ops()[7] == Op::ExecHandoff,
{
}

/// With process-ID isolation omitted while the proc-mount stage still runs,
/// the mounted view shows host-wide processes: a real isolation gap that the
/// model makes visible instead of tolerating silently.
pub proof fn lemma_proc_gap_without_pid_isolation(w: World)
    requires
        w.privileged,
        w.root_path_exists,
        w.tree_has_cmd,
        w.cmd_executable,
        !w.pid_isolated,
    ensures
        spec_launch_state(w).proc_mounted,
        proc_view_shows_host(w, spec_launch_state(w)),
        !proc_view_first_is_pid1(w, spec_launch_state(w)),
{
    lemma_launch_run(w);
}

} // verus!
