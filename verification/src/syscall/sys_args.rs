//! The arguments of a system call and what each of them is.
use vstd::prelude::*;

verus! {

/// What a system call argument is.
#[derive(Clone, Copy, Debug, PartialEq, Eq, Structural)]
pub enum SysArgType {
    Int,
    Ptr,
    MutPtr,
    Void,
}

/// The six arguments of a system call, with what each of them is.
pub struct SysArgs {
    pub args: [usize; 6],
    pub atype: [SysArgType; 6],
}

} // verus!
