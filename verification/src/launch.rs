//! The live launch sequence.
//!
//! These are the stages [`crate::model`] reasons about, run against the real
//! kernel through a thin trusted layer.  Each stage classifies its failure
//! with the stage that failed and the raw system error number; the sequence
//! short-circuits on the first failure.  The outcome of each underlying call
//! depends on the live kernel (privilege, the mount table, what is on disk),
//! so the contracts state what holds of every outcome: which stages can
//! report, and how a failure is classified.

use vstd::prelude::*;

use crate::config::LaunchConfig;
use crate::errors::LaunchError;
use crate::errors::Stage;
use crate::flags::CLONE_NEWUSER;
use crate::flags::MNT_DETACH;
use crate::flags::MS_BIND;
use crate::flags::NamespaceFlagSet;
use crate::flags::procfs_bits;
use crate::flags::rprivate_bits;

verus! {

/// Relies on nix::mount::mount: performs the mount call on the given source,
/// target, filesystem type and raw mount bits, with no extra data, and
/// returns the raw system error number on failure.
#[verifier::external_body]
fn sys_mount(source: Option<&str>, target: &str, fstype: Option<&str>, flags: u64) -> (r: Result<
    (),
    i32,
>) {
    let ms = nix::mount::MsFlags::from_bits_truncate(flags as libc::c_ulong);
    match nix::mount::mount(source, target, fstype, ms, None::<&str>) {
        Ok(()) => Ok(()),
        Err(e) => Err(e as i32),
    }
}

/// Relies on nix::mount::umount2: unmounts the target with the given raw
/// unmount mode bits, and returns the raw system error number on failure.
#[verifier::external_body]
fn sys_umount2(target: &str, flags: u64) -> (r: Result<(), i32>) {
    let mf = nix::mount::MntFlags::from_bits_truncate(flags as libc::c_int);
    match nix::mount::umount2(target, mf) {
        Ok(()) => Ok(()),
        Err(e) => Err(e as i32),
    }
}

/// Relies on nix::unistd::pivot_root: swaps the process's filesystem root to
/// `new_root` and re-parents the previous root beneath `put_old`, and
/// returns the raw system error number on failure.
#[verifier::external_body]
fn sys_pivot_root(new_root: &str, put_old: &str) -> (r: Result<(), i32>) {
    match nix::unistd::pivot_root(new_root, put_old) {
        Ok(()) => Ok(()),
        Err(e) => Err(e as i32),
    }
}

/// Relies on nix::unistd::chdir: changes the working directory, and returns
/// the raw system error number on failure.
#[verifier::external_body]
fn sys_chdir(path: &str) -> (r: Result<(), i32>) {
    match nix::unistd::chdir(path) {
        Ok(()) => Ok(()),
        Err(e) => Err(e as i32),
    }
}

/// Relies on nix::sched::unshare: dissociates the namespace kinds named by
/// the raw bits from the calling process, and returns the raw system error
/// number on failure.
#[verifier::external_body]
fn sys_unshare(flags: u64) -> (r: Result<(), i32>) {
    let cf = nix::sched::CloneFlags::from_bits_truncate(flags as libc::c_int);
    match nix::sched::unshare(cf) {
        Ok(()) => Ok(()),
        Err(e) => Err(e as i32),
    }
}

/// Mount Propagation Isolator: remount the root mount with recursive,
/// private propagation, no type change and no data.  Must be the very first
/// action inside the new mount namespace; a failure is fatal to the launch.
pub fn mount_make_rprivate() -> (r: Result<(), LaunchError>)
    ensures
        r matches Err(e) ==> e.stage == Stage::Propagation,
{
    match sys_mount(None, "/", None, rprivate_bits()) {
        Ok(()) => Ok(()),
        Err(en) => Err(LaunchError { stage: Stage::Propagation, errno: en }),
    }
}

/// Root Filesystem Switcher, in its strict order: bind-mount the target root
/// onto itself so the pivot has a mount point; pivot with the same path as
/// old and new root, leaving the old root nested beneath the new one; detach
/// the old root lazily; reset the working directory to the new root's top
/// level.  Any step's failure is fatal and is classified by its stage.
pub fn do_pivot_root(root_path: &str) -> (r: Result<(), LaunchError>)
    requires
        root_path@.len() > 0,
    ensures
        r matches Err(e) ==> (e.stage == Stage::BindRoot || e.stage == Stage::Pivot || e.stage
            == Stage::DetachOldRoot || e.stage == Stage::ResetCwd),
{
    match sys_mount(Some(root_path), root_path, None, MS_BIND) {
        Ok(()) => (),
        Err(en) => {
            return Err(LaunchError { stage: Stage::BindRoot, errno: en });
        },
    }
    match sys_pivot_root(root_path, root_path) {
        Ok(()) => (),
        Err(en) => {
            return Err(LaunchError { stage: Stage::Pivot, errno: en });
        },
    }
    match sys_umount2("/", MNT_DETACH) {
        Ok(()) => (),
        Err(en) => {
            return Err(LaunchError { stage: Stage::DetachOldRoot, errno: en });
        },
    }
    match sys_chdir("/") {
        Ok(()) => (),
        Err(en) => {
            return Err(LaunchError { stage: Stage::ResetCwd, errno: en });
        },
    }
    Ok(())
}

/// Proc Mounter: mount a fresh process-information filesystem at "/proc"
/// with no device files, no execution, no set-user-ID and relaxed access
/// time.  Must run strictly after the root switch and after process-ID
/// isolation is active; a failure is fatal.
pub fn mount_dynfs_proc() -> (r: Result<(), LaunchError>)
    ensures
        r matches Err(e) ==> e.stage == Stage::ProcMount,
{
    match sys_mount(Some("proc"), "/proc", Some("proc"), procfs_bits()) {
        Ok(()) => Ok(()),
        Err(en) => Err(LaunchError { stage: Stage::ProcMount, errno: en }),
    }
}

/// Optional extra isolation before the hand-off: unshare an identity
/// namespace, with no identity mapping configured.  The stage is explicit
/// and independently toggleable; left disabled, it does nothing at all.
pub fn unshare_identity(enabled: bool) -> (r: Result<(), LaunchError>)
    ensures
        r matches Err(e) ==> e.stage == Stage::IdentityUnshare,
        !enabled ==> r is Ok,
{
    if enabled {
        match sys_unshare(CLONE_NEWUSER) {
            Ok(()) => Ok(()),
            Err(en) => Err(LaunchError { stage: Stage::IdentityUnshare, errno: en }),
        }
    } else {
        Ok(())
    }
}

/// The stage sequence run inside the freshly created process, in the order
/// the model fixes: propagation isolation first, then the root switch, then
/// the process-filesystem mount, then the optional identity unshare.  The
/// exec hand-off follows outside once this returns success.  A failure names
/// the stage that failed; no stage after a failure is attempted.
pub fn container_setup(cfg: &LaunchConfig, identity: bool) -> (r: Result<(), LaunchError>)
    requires
        cfg.wf(),
    ensures
        r matches Err(e) ==> (e.stage == Stage::Propagation || e.stage == Stage::BindRoot
            || e.stage == Stage::Pivot || e.stage == Stage::DetachOldRoot || e.stage
            == Stage::ResetCwd || e.stage == Stage::ProcMount || e.stage
            == Stage::IdentityUnshare),
        !identity ==> (r matches Err(e) ==> e.stage != Stage::IdentityUnshare),
{
    match mount_make_rprivate() {
        Ok(()) => (),
        Err(e) => {
            return Err(e);
        },
    }
    match do_pivot_root(cfg.root_path.as_str()) {
        Ok(()) => (),
        Err(e) => {
            return Err(e);
        },
    }
    match mount_dynfs_proc() {
        Ok(()) => (),
        Err(e) => {
            return Err(e);
        },
    }
    match unshare_identity(identity) {
        Ok(()) => (),
        Err(e) => {
            return Err(e);
        },
    }
    Ok(())
}

/// The exit code of the spawned process's entry routine: zero exactly on
/// success, so that a stage failure terminates the process with a non-zero
/// status rather than continuing in a partially isolated state.
pub fn child_exit_code(r: &Result<(), LaunchError>) -> (c: isize)
    ensures
        (*r is Ok) <==> (c == 0),
{
    match r {
        Ok(()) => 0,
        Err(_) => 1,
    }
}

/// Classify the caller-side result of the process-creation call: the new
/// process's identifier, as seen from the caller's own process-ID namespace,
/// passes through; a rejection becomes a spawn-class failure.  Such a
/// rejection is a privilege or resource-limit problem, never transient, so
/// no retry is made.
pub fn finish_spawn(raw: Result<i32, i32>) -> (r: Result<i32, LaunchError>)
    ensures
        raw matches Ok(pid) ==> r == Ok::<i32, LaunchError>(pid),
        raw matches Err(en) ==> r == Err::<i32, LaunchError>(
            (LaunchError { stage: Stage::Spawn, errno: en }),
        ),
{
    match raw {
        Ok(pid) => Ok(pid),
        Err(en) => Err(LaunchError { stage: Stage::Spawn, errno: en }),
    }
}

/// Everything a launch fixes before the new process exists: the validated,
/// immutable configuration snapshot and the namespace isolation selection.
/// Nothing mutable crosses the process-creation boundary.
pub struct LaunchPlan {
    pub config: LaunchConfig,
    pub flags: NamespaceFlagSet,
}

impl LaunchPlan {
    /// A plan is well formed when its configuration is and mount isolation
    /// is selected, the root switch being unconditional.
    pub open spec fn wf(&self) -> bool {
        self.config.wf() && self.flags.wf()
    }

    /// Fix a plan.  The mandatory isolation kinds — mount, process-ID,
    /// hostname, inter-process communication — are always selected; identity
    /// isolation only on request.
    pub fn new(config: LaunchConfig, identity: bool) -> (r: LaunchPlan)
        requires
            config.wf(),
        ensures
            r.wf(),
            r.config == config,
            r.flags.mount,
            r.flags.pid,
            r.flags.hostname,
            r.flags.ipc,
            r.flags.identity == identity,
    {
        LaunchPlan { config, flags: NamespaceFlagSet::for_launch(identity) }
    }
}

} // verus!
