//! The spawned process's execution stack.
//!
//! The process-creation call needs a caller-supplied stack.  The region is a
//! fixed-size, exclusively owned buffer; it must stay valid for the whole
//! window between process creation and the child's exec, after which the
//! child's fresh image makes it irrelevant.  It is never aliased or resized
//! while in use.

use vstd::prelude::*;

verus! {

/// The fixed stack size: one mebibyte.
pub const STACK_SIZE: usize = 1024 * 1024;

/// A fixed-size memory region whose only consumer is the process-creation
/// call.
pub struct StackRegion {
    pub mem: Vec<u8>,
}

impl StackRegion {
    /// The region always holds exactly the fixed stack size.
    pub open spec fn wf(&self) -> bool {
        self.mem@.len() == STACK_SIZE
    }

    /// Reserve a zero-filled stack region of the fixed size.
    pub fn new() -> (r: StackRegion)
        ensures
            r.wf(),
            r.mem@.len() == STACK_SIZE,
    {
        StackRegion { mem: vec![0u8; STACK_SIZE] }
    }
}

} // verus!
