//! Namespace and mount flag sets.
//!
//! The kernel's mount and process-creation interfaces take bit masks.  The
//! numeric values below are the ones Linux's mount and clone interfaces
//! define; the trusted wrappers convert these raw bits to the typed flag
//! values of the system-call crate without touching them.

use vstd::prelude::*;

verus! {

/// Mount attribute: disallow set-user-ID bits on the mounted tree.
pub const MS_NOSUID: u64 = 0x2;
/// Mount attribute: no device files on the mounted tree.
pub const MS_NODEV: u64 = 0x4;
/// Mount attribute: no execution from the mounted tree.
pub const MS_NOEXEC: u64 = 0x8;
/// Mount mode: bind an existing tree to a (possibly identical) target.
pub const MS_BIND: u64 = 0x1000;
/// Mount modifier: apply the operation recursively to the whole subtree.
pub const MS_REC: u64 = 0x4000;
/// Propagation type: make the mount private, cutting event propagation.
pub const MS_PRIVATE: u64 = 0x40000;
/// Mount attribute: relaxed access-time updates.
pub const MS_RELATIME: u64 = 0x200000;

/// Unmount mode: detach now, release resources once unreferenced.
pub const MNT_DETACH: u64 = 0x2;

/// Process-creation bit: fresh mount namespace.
pub const CLONE_NEWNS: u64 = 0x20000;
/// Process-creation bit: fresh hostname (UTS) namespace.
pub const CLONE_NEWUTS: u64 = 0x4000000;
/// Process-creation bit: fresh inter-process-communication namespace.
pub const CLONE_NEWIPC: u64 = 0x8000000;
/// Process-creation bit: fresh identity (user) namespace.
pub const CLONE_NEWUSER: u64 = 0x10000000;
/// Process-creation bit: fresh process-ID namespace.
pub const CLONE_NEWPID: u64 = 0x20000000;

/// The isolation kinds a spawned container process may request.
///
/// Mount isolation is mandatory: the root switch corrupts the view of any
/// mount namespace it does not own exclusively, so a flag set is well formed
/// only when `mount` is set.
#[derive(Clone, Copy, PartialEq, Eq, Structural, Debug)]
pub struct NamespaceFlagSet {
    pub mount: bool,
    pub pid: bool,
    pub hostname: bool,
    pub ipc: bool,
    pub identity: bool,
}

/// The raw process-creation bits a flag set stands for.
pub open spec fn spec_clone_bits(s: NamespaceFlagSet) -> u64 {
    (if s.mount { CLONE_NEWNS } else { 0u64 })
        | (if s.pid { CLONE_NEWPID } else { 0u64 })
        | (if s.hostname { CLONE_NEWUTS } else { 0u64 })
        | (if s.ipc { CLONE_NEWIPC } else { 0u64 })
        | (if s.identity { CLONE_NEWUSER } else { 0u64 })
}

impl NamespaceFlagSet {
    /// A flag set is fit for a launch only with mount isolation present.
    pub open spec fn wf(&self) -> bool {
        self.mount
    }

    /// The flag set the launcher uses: mount, process-ID, hostname and
    /// inter-process-communication isolation always; identity isolation on
    /// request.
    pub fn for_launch(identity: bool) -> (r: NamespaceFlagSet)
        ensures
            r.mount,
            r.pid,
            r.hostname,
            r.ipc,
            r.identity == identity,
            r.wf(),
    {
        NamespaceFlagSet { mount: true, pid: true, hostname: true, ipc: true, identity }
    }

    /// The raw bits handed to the process-creation call.
    pub fn clone_bits(&self) -> (r: u64)
        ensures
            r == spec_clone_bits(*self),
    {
        let m: u64 = if self.mount {
            CLONE_NEWNS
        } else {
            0
        };
        let p: u64 = if self.pid {
            CLONE_NEWPID
        } else {
            0
        };
        let h: u64 = if self.hostname {
            CLONE_NEWUTS
        } else {
            0
        };
        let i: u64 = if self.ipc {
            CLONE_NEWIPC
        } else {
            0
        };
        let u: u64 = if self.identity {
            CLONE_NEWUSER
        } else {
            0
        };
        m | p | h | i | u
    }

    /// The raw bits used at process creation.  Identity isolation is not
    /// taken at creation: when selected, it is realised by the explicit
    /// unshare stage that runs just before the hand-off.
    pub fn spawn_bits(&self) -> (r: u64)
        ensures
            r == spec_clone_bits((NamespaceFlagSet { identity: false, ..*self })),
    {
        let m: u64 = if self.mount {
            CLONE_NEWNS
        } else {
            0
        };
        let p: u64 = if self.pid {
            CLONE_NEWPID
        } else {
            0
        };
        let h: u64 = if self.hostname {
            CLONE_NEWUTS
        } else {
            0
        };
        let i: u64 = if self.ipc {
            CLONE_NEWIPC
        } else {
            0
        };
        let u: u64 = 0;
        m | p | h | i | u
    }
}

/// Each isolation kind is readable back from the raw bits: the five
/// process-creation bits are distinct, so no request is lost or invented.
pub proof fn lemma_clone_bits_faithful(s: NamespaceFlagSet)
    ensures
        (spec_clone_bits(s) & CLONE_NEWNS != 0) == s.mount,
        (spec_clone_bits(s) & CLONE_NEWPID != 0) == s.pid,
        (spec_clone_bits(s) & CLONE_NEWUTS != 0) == s.hostname,
        (spec_clone_bits(s) & CLONE_NEWIPC != 0) == s.ipc,
        (spec_clone_bits(s) & CLONE_NEWUSER != 0) == s.identity,
{
    let m: u64 = if s.mount {
        CLONE_NEWNS
    } else {
        0u64
    };
    let p: u64 = if s.pid {
        CLONE_NEWPID
    } else {
        0u64
    };
    let h: u64 = if s.hostname {
        CLONE_NEWUTS
    } else {
        0u64
    };
    let i: u64 = if s.ipc {
        CLONE_NEWIPC
    } else {
        0u64
    };
    let u: u64 = if s.identity {
        CLONE_NEWUSER
    } else {
        0u64
    };
    let b: u64 = spec_clone_bits(s);
    assert(b == m | p | h | i | u);
    assert(((b & CLONE_NEWNS != 0) == (m != 0)) && ((b & CLONE_NEWPID != 0) == (p != 0)) && ((b
        & CLONE_NEWUTS != 0) == (h != 0)) && ((b & CLONE_NEWIPC != 0) == (i != 0)) && ((b
        & CLONE_NEWUSER != 0) == (u != 0))) by (bit_vector)
        requires
            b == m | p | h | i | u,
            m == CLONE_NEWNS || m == 0,
            p == CLONE_NEWPID || p == 0,
            h == CLONE_NEWUTS || h == 0,
            i == CLONE_NEWIPC || i == 0,
            u == CLONE_NEWUSER || u == 0,
    ;
}

/// The remount flags of the propagation isolation stage: recursive and
/// private, nothing else.
pub fn rprivate_bits() -> (r: u64)
    ensures
        r == (MS_REC | MS_PRIVATE),
{
    MS_REC | MS_PRIVATE
}

/// The propagation remount asks for recursion and privacy and nothing else:
/// no bind and no mount attributes, so it changes propagation alone.
pub proof fn lemma_rprivate_bits_exact()
    ensures
        (MS_REC | MS_PRIVATE) & MS_REC == MS_REC,
        (MS_REC | MS_PRIVATE) & MS_PRIVATE == MS_PRIVATE,
        (MS_REC | MS_PRIVATE) & MS_BIND == 0,
        (MS_REC | MS_PRIVATE) & (MS_NODEV | MS_NOEXEC | MS_NOSUID | MS_RELATIME) == 0,
{
    assert(((MS_REC | MS_PRIVATE) & MS_REC == MS_REC) && ((MS_REC | MS_PRIVATE) & MS_PRIVATE
        == MS_PRIVATE) && ((MS_REC | MS_PRIVATE) & MS_BIND == 0) && ((MS_REC | MS_PRIVATE) & (
    MS_NODEV | MS_NOEXEC | MS_NOSUID | MS_RELATIME) == 0)) by (bit_vector);
}

/// The process-filesystem mount asks for exactly its four attributes: it
/// neither binds nor touches propagation.
pub proof fn lemma_procfs_bits_exact()
    ensures
        (MS_NODEV | MS_NOEXEC | MS_NOSUID | MS_RELATIME) & MS_NODEV == MS_NODEV,
        (MS_NODEV | MS_NOEXEC | MS_NOSUID | MS_RELATIME) & MS_NOEXEC == MS_NOEXEC,
        (MS_NODEV | MS_NOEXEC | MS_NOSUID | MS_RELATIME) & MS_NOSUID == MS_NOSUID,
        (MS_NODEV | MS_NOEXEC | MS_NOSUID | MS_RELATIME) & MS_RELATIME == MS_RELATIME,
        (MS_NODEV | MS_NOEXEC | MS_NOSUID | MS_RELATIME) & (MS_BIND | MS_REC | MS_PRIVATE) == 0,
{
    assert(((MS_NODEV | MS_NOEXEC | MS_NOSUID | MS_RELATIME) & MS_NODEV == MS_NODEV) && ((MS_NODEV
        | MS_NOEXEC | MS_NOSUID | MS_RELATIME) & MS_NOEXEC == MS_NOEXEC) && ((MS_NODEV | MS_NOEXEC
        | MS_NOSUID | MS_RELATIME) & MS_NOSUID == MS_NOSUID) && ((MS_NODEV | MS_NOEXEC | MS_NOSUID
        | MS_RELATIME) & MS_RELATIME == MS_RELATIME) && ((MS_NODEV | MS_NOEXEC | MS_NOSUID
        | MS_RELATIME) & (MS_BIND | MS_REC | MS_PRIVATE) == 0)) by (bit_vector);
}

/// The mount flags of the process-filesystem stage: no device files, no
/// execution, no set-user-ID, relaxed access time.
pub fn procfs_bits() -> (r: u64)
    ensures
        r == (MS_NODEV | MS_NOEXEC | MS_NOSUID | MS_RELATIME),
{
    MS_NODEV | MS_NOEXEC | MS_NOSUID | MS_RELATIME
}

} // verus!
