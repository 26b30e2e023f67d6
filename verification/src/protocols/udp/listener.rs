//! The listener of an endpoint: its receive queue, the task that waits on it
//! and the pops that hold it.

use crate::protocols::ipv4::Endpoint;
use std::collections::VecDeque;
use std::task::Waker;
use vstd::prelude::*;

verus! {

/// `std::task::Waker`, the handle by which a task asks to be polled again. A
/// value of it is carried, never looked into.
#[verifier::external_type_specification]
#[verifier::external_body]
pub struct ExWaker(Waker);

/// Calls `Waker::wake`, which tells the executor that the task of the waker
/// is to be polled again. Nothing is claimed of its effect.
#[verifier::external_body]
pub(crate) fn wake_consumer(waker: Waker) {
    waker.wake()
}

/// One received datagram: who sent it, if the sender gave a port, and what it
/// carried.
pub type Arrival = (Option<Endpoint>, Vec<u8>);

/// An arrival with its payload as a sequence of bytes.
pub type ArrivalView = (Option<Endpoint>, Seq<u8>);

/// The arrivals of a queue with their payloads as sequences of bytes.
pub open spec fn arrivals_view(queue: Seq<Arrival>) -> Seq<ArrivalView> {
    queue.map_values(|arrival: Arrival| (arrival.0, arrival.1@))
}

/// What names a listener for as long as the peer lives. No two listeners of
/// a peer have the same name, not even one after the other.
pub type ListenerId = u64;

/// What is kept for an endpoint from the moment it is bound: the datagrams
/// that arrived and were not popped yet, oldest first, the waker of the one
/// task that waits for the next arrival, if there is such a task, the number
/// of pops that were started on the listener and not given up, and the
/// endpoint itself for as long as it is bound.
pub struct Listener {
    buf: VecDeque<Arrival>,
    waker: Option<Waker>,
    pops: u64,
    local: Option<Endpoint>,
}

/// A listener with the payloads of its queue as sequences of bytes.
pub struct ListenerView {
    pub queue: Seq<ArrivalView>,
    pub waker: Option<Waker>,
    pub pops: nat,
    pub local: Option<Endpoint>,
}

impl ListenerView {
    /// The listener of an endpoint that was just bound.
    pub open spec fn empty(local: Endpoint) -> ListenerView {
        ListenerView { queue: Seq::empty(), waker: None, pops: 0, local: Some(local) }
    }

    /// The listener after an arrival: it is last in the queue, and the task
    /// that waited was woken and waits no more.
    pub open spec fn deliver(self, arrival: ArrivalView) -> ListenerView {
        ListenerView { queue: self.queue.push(arrival), waker: None, ..self }
    }

    /// The listener after a poll by a task whose waker is `waker`: the oldest
    /// arrival is taken, or, where there is none, the task is the one that
    /// waits now.
    pub open spec fn poll(self, waker: Waker) -> ListenerView {
        if self.queue.len() > 0 {
            ListenerView { queue: self.queue.drop_first(), ..self }
        } else {
            ListenerView { waker: Some(waker), ..self }
        }
    }

    /// The listener with one more pop started on it.
    pub open spec fn hold(self) -> ListenerView {
        ListenerView { pops: self.pops + 1, ..self }
    }

    /// The listener with one pop given up.
    pub open spec fn release(self) -> ListenerView {
        ListenerView { pops: (self.pops - 1) as nat, ..self }
    }

    /// The listener after its socket was closed.
    pub open spec fn unbind(self) -> ListenerView {
        ListenerView { local: None, ..self }
    }

    /// Whether the listener is still of use: its endpoint is bound, or a pop
    /// holds it.
    pub open spec fn in_use(self) -> bool {
        self.local is Some || self.pops > 0
    }
}

impl View for Listener {
    type V = ListenerView;

    closed spec fn view(&self) -> ListenerView {
        ListenerView {
            queue: arrivals_view(self.buf@),
            waker: self.waker,
            pops: self.pops as nat,
            local: self.local,
        }
    }
}

impl Listener {
    /// The listener of the endpoint `local`, which was just bound: nothing is
    /// queued, no task waits and no pop holds it.
    pub fn new(local: Endpoint) -> (listener: Listener)
        ensures
            listener@ == ListenerView::empty(local),
    {
        let listener = Listener { buf: VecDeque::new(), waker: None, pops: 0, local: Some(local) };
        assert(listener@.queue =~= Seq::empty());
        listener
    }

    /// Queues an arrival and hands out the waker of the task that waited for
    /// it, if there was one.
    pub fn deliver(&mut self, remote: Option<Endpoint>, data: Vec<u8>) -> (waiting: Option<Waker>)
        ensures
            final(self)@ == old(self)@.deliver((remote, data@)),
            waiting == old(self)@.waker,
    {
        self.buf.push_back((remote, data));
        assert(arrivals_view(self.buf@) =~= arrivals_view(old(self).buf@).push((remote, data@)));
        self.waker.take()
    }

    /// Takes the oldest arrival. Where there is none, the task with the waker
    /// `waker` becomes the one that waits, in place of any other.
    pub fn poll(&mut self, waker: Waker) -> (arrival: Option<Arrival>)
        ensures
            final(self)@ == old(self)@.poll(waker),
            match arrival {
                Some((remote, data)) => old(self)@.queue.len() > 0 && old(self)@.queue[0] == (
                    remote,
                    data@,
                ),
                None => old(self)@.queue.len() == 0,
            },
    {
        match self.buf.pop_front() {
            Some(arrival) => {
                assert(arrivals_view(self.buf@) =~= arrivals_view(old(self).buf@).drop_first());
                Some(arrival)
            },
            None => {
                self.waker = Some(waker);
                None
            },
        }
    }

    /// The number of pops that hold the listener.
    pub fn pops(&self) -> (pops: u64)
        ensures
            pops == self@.pops,
    {
        self.pops
    }

    /// Whether the endpoint of the listener is still bound.
    pub fn is_bound(&self) -> (bound: bool)
        ensures
            bound == self@.local is Some,
    {
        self.local.is_some()
    }

    /// Counts one more pop.
    pub fn hold(&mut self)
        requires
            old(self)@.pops < u64::MAX,
        ensures
            final(self)@ == old(self)@.hold(),
    {
        self.pops = self.pops + 1;
    }

    /// Counts one pop less.
    pub fn release(&mut self)
        requires
            old(self)@.pops > 0,
        ensures
            final(self)@ == old(self)@.release(),
    {
        self.pops = self.pops - 1;
    }

    /// Takes note that the socket of the listener was closed.
    pub fn unbind(&mut self)
        ensures
            final(self)@ == old(self)@.unbind(),
    {
        self.local = None;
    }
}

} // verus!
