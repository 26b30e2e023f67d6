use vstd::prelude::*;

verus! {

/// A descriptor that the file table has handed out.
pub type FileDescriptor = u32;

} // verus!
