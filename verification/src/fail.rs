use vstd::prelude::*;

verus! {

/// The failure type that every operation of the runtime reports.
#[derive(Clone, Copy, Debug, PartialEq, Eq)]
pub enum Fail {
    /// The request or the received data does not have the required shape.
    Malformed { details: &'static str },
}

} // verus!
