//! The channel on which the peer leaves the sends that have to wait for the
//! link-layer address of their destination. It is a bounded channel of
//! `futures_intrusive`; the peer holds its sending end, and the task that
//! resolves the addresses holds the receiving end.
//!
//! Nothing in this file is proved. What the channel holds is not modelled:
//! the receiving end takes sends out at times that the peer does not see, so
//! the contracts say only what holds whatever the other end has done.

use crate::protocols::ipv4::Endpoint;
use futures_intrusive::buffer::GrowingHeapBuf;
use futures_intrusive::channel::shared::{generic_channel, GenericReceiver, GenericSender};
use futures_intrusive::channel::TrySendError;
use futures_intrusive::NoopLock;
use vstd::prelude::*;

verus! {

/// A send that waits: where it comes from, if the socket is bound, where it
/// goes, and what it carries.
#[derive(Debug, PartialEq, Eq)]
pub struct OutgoingReq {
    pub local: Option<Endpoint>,
    pub remote: Endpoint,
    pub buf: Vec<u8>,
}

/// A waiting send with its payload as a sequence of bytes.
pub struct OutgoingReqView {
    pub local: Option<Endpoint>,
    pub remote: Endpoint,
    pub buf: Seq<u8>,
}

impl View for OutgoingReq {
    type V = OutgoingReqView;

    open spec fn view(&self) -> OutgoingReqView {
        OutgoingReqView { local: self.local, remote: self.remote, buf: self.buf@ }
    }
}

/// The sending end of the channel, a `futures_intrusive` `GenericSender`.
#[verifier::external_body]
pub struct OutgoingSender {
    tx: GenericSender<NoopLock, OutgoingReq, GrowingHeapBuf<OutgoingReq>>,
}

/// The receiving end of the channel, a `futures_intrusive` `GenericReceiver`.
/// The task that drains the channel awaits `rx.receive()`.
#[verifier::external_body]
pub struct OutgoingReceiver {
    pub rx: GenericReceiver<NoopLock, OutgoingReq, GrowingHeapBuf<OutgoingReq>>,
}

/// Why the channel did not take a send. The send comes back with the reason.
#[derive(Debug, PartialEq, Eq)]
pub enum Rejected {
    /// The channel holds as many sends as it was made for.
    Full(OutgoingReq),
    /// The receiving end is gone.
    Closed(OutgoingReq),
}

impl Rejected {
    /// The send that was not taken.
    pub open spec fn request(self) -> OutgoingReq {
        match self {
            Rejected::Full(req) => req,
            Rejected::Closed(req) => req,
        }
    }
}

/// The number of sends that the channel was made to hold.
pub uninterp spec fn channel_capacity(sender: OutgoingSender) -> nat;

/// `generic_channel`: the two ends of a new channel that buffers up to
/// `capacity` values.
#[verifier::external_body]
pub(crate) fn outgoing_channel(capacity: usize) -> (ends: (OutgoingSender, OutgoingReceiver))
    ensures
        channel_capacity(ends.0) == capacity,
{
    let (tx, rx) = generic_channel(capacity);
    (OutgoingSender { tx }, OutgoingReceiver { rx })
}

/// `GenericSender::try_send`: puts the value into the channel without
/// waiting, if the channel is open and has room. Whether it does depends on
/// what the other end has taken out so far, so all that is claimed is that a
/// value that was not taken comes back as it was. The call is not made for a
/// channel without a buffer, on which `try_send` panics.
#[verifier::external_body]
pub(crate) fn try_send(sender: &OutgoingSender, req: OutgoingReq) -> (sent: Result<(), Rejected>)
    requires
        channel_capacity(*sender) > 0,
    ensures
        sent matches Err(rejected) ==> rejected.request() == req,
{
    match sender.tx.try_send(req) {
        Ok(()) => Ok(()),
        Err(TrySendError::Full(req)) => Err(Rejected::Full(req)),
        Err(TrySendError::Closed(req)) => Err(Rejected::Closed(req)),
    }
}

} // verus!
