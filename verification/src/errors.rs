//! The failure taxonomy of the launch sequence.
//!
//! Every stage reports success or a typed failure; the sequence
//! short-circuits on the first failure and the process terminates rather
//! than continuing in a partially isolated state.  A failure names the
//! stage that failed and carries the raw system error number.

use vstd::prelude::*;

verus! {

/// The stages of a launch, in the order they run.  `Spawn` happens on the
/// caller's side; the rest run inside the new process.
#[derive(Clone, Copy, PartialEq, Eq, Structural, Debug)]
pub enum Stage {
    /// Creation of the isolated process itself.
    Spawn,
    /// The recursive-private remount of the root mount.
    Propagation,
    /// The bind mount of the target root directory onto itself.
    BindRoot,
    /// The root switch proper.
    Pivot,
    /// The lazy detach of the displaced old root.
    DetachOldRoot,
    /// The reset of the working directory to the new root.
    ResetCwd,
    /// The mount of the fresh process-information filesystem.
    ProcMount,
    /// The optional identity-namespace unshare before the hand-off.
    IdentityUnshare,
    /// The replacement of the process image by the target command.
    Exec,
}

/// The failure classes a caller distinguishes.
#[derive(Clone, Copy, PartialEq, Eq, Structural, Debug)]
pub enum ErrorKind {
    /// Process or namespace creation was rejected.
    Spawn,
    /// A mount, bind, remount or unmount call failed.
    Mount,
    /// The root-switch operation failed, or the working directory could not
    /// be moved onto the freshly switched root.
    Pivot,
    /// The target binary is missing, not executable, or was rejected by the
    /// image-replacement call.
    Exec,
}

/// The failure class each stage reports.
pub open spec fn kind_of_stage(stage: Stage) -> ErrorKind {
    match stage {
        Stage::Spawn => ErrorKind::Spawn,
        Stage::Propagation => ErrorKind::Mount,
        Stage::BindRoot => ErrorKind::Mount,
        Stage::Pivot => ErrorKind::Pivot,
        Stage::DetachOldRoot => ErrorKind::Mount,
        Stage::ResetCwd => ErrorKind::Pivot,
        Stage::ProcMount => ErrorKind::Mount,
        Stage::IdentityUnshare => ErrorKind::Spawn,
        Stage::Exec => ErrorKind::Exec,
    }
}

/// A typed stage failure: the stage that failed and the raw system error
/// number the underlying call reported.
#[derive(Clone, Copy, PartialEq, Eq, Structural, Debug)]
pub struct LaunchError {
    pub stage: Stage,
    pub errno: i32,
}

impl Stage {
    /// The diagnostic name of the stage.
    pub fn name(&self) -> (s: &'static str)
        ensures
            *self == Stage::Spawn ==> s@ == "namespace spawn"@,
            *self == Stage::Propagation ==> s@ == "mount propagation isolation"@,
            *self == Stage::BindRoot ==> s@ == "root bind mount"@,
            *self == Stage::Pivot ==> s@ == "root pivot"@,
            *self == Stage::DetachOldRoot ==> s@ == "old root detach"@,
            *self == Stage::ResetCwd ==> s@ == "working directory reset"@,
            *self == Stage::ProcMount ==> s@ == "proc mount"@,
            *self == Stage::IdentityUnshare ==> s@ == "identity unshare"@,
            *self == Stage::Exec ==> s@ == "exec handoff"@,
    {
        match self {
            Stage::Spawn => "namespace spawn",
            Stage::Propagation => "mount propagation isolation",
            Stage::BindRoot => "root bind mount",
            Stage::Pivot => "root pivot",
            Stage::DetachOldRoot => "old root detach",
            Stage::ResetCwd => "working directory reset",
            Stage::ProcMount => "proc mount",
            Stage::IdentityUnshare => "identity unshare",
            Stage::Exec => "exec handoff",
        }
    }
}

impl LaunchError {
    /// The failure class of this error, determined by its stage alone.
    pub fn kind(&self) -> (k: ErrorKind)
        ensures
            k == kind_of_stage(self.stage),
    {
        match self.stage {
            Stage::Spawn => ErrorKind::Spawn,
            Stage::Propagation => ErrorKind::Mount,
            Stage::BindRoot => ErrorKind::Mount,
            Stage::Pivot => ErrorKind::Pivot,
            Stage::DetachOldRoot => ErrorKind::Mount,
            Stage::ResetCwd => ErrorKind::Pivot,
            Stage::ProcMount => ErrorKind::Mount,
            Stage::IdentityUnshare => ErrorKind::Spawn,
            Stage::Exec => ErrorKind::Exec,
        }
    }

    /// The diagnostic name of the failing stage.
    pub fn stage_name(&self) -> (s: &'static str)
        ensures
            self.stage == Stage::Spawn ==> s@ == "namespace spawn"@,
            self.stage == Stage::Propagation ==> s@ == "mount propagation isolation"@,
            self.stage == Stage::BindRoot ==> s@ == "root bind mount"@,
            self.stage == Stage::Pivot ==> s@ == "root pivot"@,
            self.stage == Stage::DetachOldRoot ==> s@ == "old root detach"@,
            self.stage == Stage::ResetCwd ==> s@ == "working directory reset"@,
            self.stage == Stage::ProcMount ==> s@ == "proc mount"@,
            self.stage == Stage::IdentityUnshare ==> s@ == "identity unshare"@,
            self.stage == Stage::Exec ==> s@ == "exec handoff"@,
    {
        self.stage.name()
    }
}

} // verus!
