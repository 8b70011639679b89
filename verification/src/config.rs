//! The immutable launch configuration.
//!
//! Everything the spawned process needs must be captured here, validated,
//! before the new process is created: no ambient mutable state may be shared
//! across that boundary.

use vstd::prelude::*;

verus! {

/// A validated, immutable snapshot of one launch request.
pub struct LaunchConfig {
    /// Absolute path to the prepared filesystem tree, as seen before the
    /// root switch.
    pub root_path: String,
    /// Path of the executable to run as the container's first process,
    /// resolved against the new root.
    pub cmd_path: String,
    /// Arguments forwarded verbatim to the target command.
    pub cmd_args: Vec<String>,
    /// Cosmetic label used only as the zeroth argument of the target.
    pub display_name: String,
}

impl LaunchConfig {
    /// A configuration is well formed when its paths and its display name
    /// are non-empty.
    pub open spec fn wf(&self) -> bool {
        &&& self.root_path@.len() > 0
        &&& self.cmd_path@.len() > 0
        &&& self.display_name@.len() > 0
    }

    /// Capture a launch request.  The display name defaults to the command
    /// path when none is given.
    pub fn new(root_path: String, cmd_path: String, cmd_args: Vec<String>, display_name: Option<
        String,
    >) -> (r: LaunchConfig)
        requires
            root_path@.len() > 0,
            cmd_path@.len() > 0,
            display_name matches Some(n) ==> n@.len() > 0,
        ensures
            r.wf(),
            r.root_path == root_path,
            r.cmd_path@ == cmd_path@,
            r.cmd_args == cmd_args,
            display_name matches Some(n) ==> r.display_name == n,
            display_name is None ==> r.display_name@ == cmd_path@,
    {
        let name: String = match display_name {
            Some(n) => n,
            None => cmd_path.as_str().to_owned(),
        };
        LaunchConfig { root_path, cmd_path, cmd_args, display_name: name }
    }

    /// The argument vector of the target command: the display name as the
    /// zeroth argument, the configured arguments after it, verbatim and in
    /// order.
    pub fn build_argv(&self) -> (r: Vec<String>)
        ensures
            r@.len() == 1 + self.cmd_args@.len(),
            r@[0]@ == self.display_name@,
            forall|i: int| 0 <= i < self.cmd_args@.len() ==> r@[i + 1]@ == self.cmd_args@[i]@,
    {
        let mut argv: Vec<String> = Vec::new();
        argv.push(self.display_name.as_str().to_owned());
        let mut i: usize = 0;
        while i < self.cmd_args.len()
            invariant
                0 <= i <= self.cmd_args@.len(),
                argv@.len() == 1 + i,
                argv@[0]@ == self.display_name@,
                forall|j: int| 0 <= j < i ==> argv@[j + 1]@ == self.cmd_args@[j]@,
            decreases self.cmd_args@.len() - i,
        {
            argv.push(self.cmd_args[i].as_str().to_owned());
            i = i + 1;
        }
        argv
    }
}

} // verus!
