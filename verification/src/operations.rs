//! What an operation on a socket comes to, and the bookkeeping for an
//! operation that is not done when it is started.

use crate::fail::Fail;
use crate::protocols::ipv4::Endpoint;
use vstd::prelude::*;

verus! {

/// What polling a task gives: its result, or word that it has to be polled
/// again after its waker was invoked.
#[derive(Debug, PartialEq, Eq)]
pub enum Poll<T> {
    Ready(T),
    Pending,
}

/// The outcome of an operation, as it is reported to the caller.
#[derive(Debug, PartialEq, Eq)]
pub enum OperationResult {
    Connect,
    Push,
    Pop(Option<Endpoint>, Vec<u8>),
    Failed(Fail),
}

/// A task together with the slot for its result. The slot is empty until a
/// poll has found the task ready.
#[derive(Debug, PartialEq, Eq)]
pub struct ResultFuture<F, T> {
    pub future: F,
    pub done: Option<T>,
}

impl<F, T> ResultFuture<F, T> {
    /// Wraps a task that has not been polled yet.
    pub fn new(future: F) -> (wrapped: ResultFuture<F, T>)
        ensures
            wrapped.future == future,
            wrapped.done is None,
    {
        ResultFuture { future, done: None }
    }
}

} // verus!
