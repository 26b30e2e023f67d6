//! The UDP peer: sockets that are bound, connected, pushed to, popped from
//! and closed.
//!
//! The peer decides; its caller acts. A push yields the send to make, and the
//! caller hands it back together with what the ARP cache says of the
//! destination. The peer then yields the datagram to transmit, or leaves the
//! send on the channel for the task that waits for the address. That task
//! gets its datagram here too, once the address has been resolved.
//!
//! A pop is a plain value that names the listener it was started on. It is
//! polled with the peer at hand, and it holds its listener until it is given
//! up, also after its socket was closed.

use crate::fail::Fail;
use crate::file_table::FileDescriptor;
use crate::operations::{OperationResult, Poll, ResultFuture};
use crate::protocols::ethernet2::MacAddress;
use crate::protocols::ipv4::{Endpoint, Ipv4Addr, Ipv4Header};
use crate::protocols::udp::datagram::{outgoing_datagram, UdpDatagram, UdpDatagramView, UdpHeader};
use crate::protocols::udp::listener::{
    wake_consumer, Arrival, ArrivalView, Listener, ListenerId, ListenerView,
};
use crate::protocols::udp::model::{
    lemma_bind_keeps_wf, lemma_cancel_keeps_wf, lemma_close_keeps_wf, lemma_connect_keeps_wf,
    lemma_poll_keeps_wf, lemma_pop_keeps_wf, lemma_receive_keeps_wf, lemma_socket_keeps_wf,
    PeerView, Socket,
};
use crate::protocols::udp::outgoing::{
    channel_capacity, outgoing_channel, try_send, OutgoingReceiver, OutgoingReq, OutgoingSender,
    Rejected,
};
use crate::protocols::udp::tables::{
    binding_entries, binding_table_get, binding_table_insert, binding_table_new,
    binding_table_remove, socket_entries, socket_table_get, socket_table_insert,
    socket_table_new, socket_table_remove, BindingTable, SocketTable,
};
use std::collections::HashMap;
use std::task::Waker;
use vstd::prelude::*;

verus! {

broadcast use vstd::std_specs::hash::group_hash_axioms;

/// The number of sends that can wait for an address at one time.
pub const OUTGOING_CAPACITY: usize = 16;

/// The listeners of a peer as the model has them.
pub open spec fn listeners_view(entries: Map<ListenerId, Listener>) -> Map<ListenerId, ListenerView> {
    Map::new(|id: ListenerId| entries.contains_key(id), |id: ListenerId| entries[id]@)
}

/// What became of a send.
#[derive(Debug, PartialEq, Eq)]
pub enum SendOutcome {
    /// The address of the destination was at hand: the datagram is to be
    /// transmitted now.
    Transmit(UdpDatagram),
    /// The send waits on the channel for the address to be resolved.
    Deferred,
    /// The channel did not take the send.
    Rejected(Rejected),
}

impl SendOutcome {
    /// What became of a send that was left to the channel, given what the
    /// channel said.
    pub fn deferred(sent: Result<(), Rejected>) -> (outcome: SendOutcome)
        ensures
            outcome == (match sent {
                Ok(()) => SendOutcome::Deferred,
                Err(rejected) => SendOutcome::Rejected(rejected),
            }),
    {
        match sent {
            Ok(()) => SendOutcome::Deferred,
            Err(rejected) => SendOutcome::Rejected(rejected),
        }
    }
}

/// The datagram for a send that waited, once the resolver has answered: the
/// one that would have been transmitted at once had the address been at hand.
/// Where the resolver failed there is none, and the send is dropped.
pub open spec fn resolved_datagram(
    req: OutgoingReq,
    resolved: Result<MacAddress, Fail>,
    src_link: MacAddress,
    src_ip: Ipv4Addr,
) -> Result<UdpDatagramView, Fail> {
    match resolved {
        Ok(link_addr) => Ok(
            outgoing_datagram(link_addr, src_link, src_ip, req.local, req.remote, req.buf@),
        ),
        Err(e) => Err(e),
    }
}

/// The sockets of one host and what arrives for them.
pub struct UdpPeer {
    sockets: SocketTable,
    bound: BindingTable,
    listeners: HashMap<ListenerId, Listener>,
    next_listener: ListenerId,
    outgoing: OutgoingSender,
}

impl View for UdpPeer {
    type V = PeerView;

    closed spec fn view(&self) -> PeerView {
        PeerView {
            sockets: socket_entries(self.sockets),
            bound: binding_entries(self.bound),
            listeners: listeners_view(self.listeners@),
            next_listener: self.next_listener,
        }
    }
}

impl UdpPeer {
    /// The number of sends that the channel of the peer was made to hold.
    pub closed spec fn outgoing_capacity(&self) -> nat {
        channel_capacity(self.outgoing)
    }

    /// What every operation needs of the peer and leaves as it found it.
    pub open spec fn wf(&self) -> bool {
        self@.wf() && self.outgoing_capacity() == OUTGOING_CAPACITY
    }

    /// A peer without sockets, and the receiving end of its channel for the
    /// task that resolves addresses.
    pub fn new() -> (made: (UdpPeer, OutgoingReceiver))
        ensures
            made.0.wf(),
            made.0@ == PeerView::empty(),
    {
        let (outgoing, receiver) = outgoing_channel(OUTGOING_CAPACITY);
        let peer = UdpPeer {
            sockets: socket_table_new(),
            bound: binding_table_new(),
            listeners: HashMap::new(),
            next_listener: 0,
            outgoing,
        };
        assert(peer@.listeners =~= Map::empty());
        (peer, receiver)
    }

    /// What `accept` comes to: a UDP socket does not accept.
    pub fn accept(&self) -> (failure: Fail)
        ensures
            failure == (Fail::Malformed { details: "Operation not supported" }),
    {
        Fail::Malformed { details: "Operation not supported" }
    }

    /// Whether `fd` is the descriptor of a socket of this peer.
    pub fn has_socket(&self, fd: FileDescriptor) -> (known: bool)
        ensures
            known == self@.sockets.contains_key(fd),
    {
        socket_table_get(&self.sockets, fd).is_some()
    }

    /// Takes up the descriptor `fd`, which the file table has just handed
    /// out, as a socket that is neither bound nor connected.
    pub fn socket(&mut self, fd: FileDescriptor)
        requires
            old(self).wf(),
            !old(self)@.sockets.contains_key(fd),
        ensures
            final(self).wf(),
            final(self)@ == old(self)@.socket(fd),
    {
        proof {
            lemma_socket_keeps_wf(self@, fd);
        }
        socket_table_insert(&mut self.sockets, fd, Socket { local: None, remote: None });
    }

    /// Whether there is a name left for one more listener, which a bind
    /// needs.
    pub fn can_bind(&self) -> (room: bool)
        ensures
            room == (self@.next_listener < u64::MAX),
    {
        self.next_listener < u64::MAX
    }

    /// Binds the socket to a local endpoint, at which it listens from now on.
    pub fn bind(&mut self, fd: FileDescriptor, addr: Endpoint) -> (bound: Result<(), Fail>)
        requires
            old(self).wf(),
            old(self)@.next_listener < u64::MAX,
        ensures
            final(self).wf(),
            bound == old(self)@.bind_result(fd, addr),
            final(self)@ == old(self)@.bind(fd, addr),
    {
        proof {
            lemma_bind_keeps_wf(self@, fd, addr);
        }
        if binding_table_get(&self.bound, addr).is_some() {
            return Err(Fail::Malformed { details: "Port already listening" });
        }
        match socket_table_get(&self.sockets, fd) {
            Some(socket) => {
                if socket.local.is_some() {
                    return Err(Fail::Malformed { details: "Invalid file descriptor on bind" });
                }
                socket_table_insert(
                    &mut self.sockets,
                    fd,
                    Socket { local: Some(addr), remote: socket.remote },
                );
            },
            None => {
                return Err(Fail::Malformed { details: "Invalid file descriptor on bind" });
            },
        }
        let id = self.next_listener;
        self.listeners.insert(id, Listener::new(addr));
        binding_table_insert(&mut self.bound, addr, id);
        self.next_listener = id + 1;
        assert(self@.listeners =~= old(self)@.listeners.insert(id, ListenerView::empty(addr)));
        Ok(())
    }

    /// Fixes the remote endpoint of the socket.
    pub fn connect(&mut self, fd: FileDescriptor, addr: Endpoint) -> (connected: Result<(), Fail>)
        requires
            old(self).wf(),
        ensures
            final(self).wf(),
            connected == old(self)@.connect_result(fd),
            final(self)@ == old(self)@.connect(fd, addr),
    {
        proof {
            lemma_connect_keeps_wf(self@, fd, addr);
        }
        match socket_table_get(&self.sockets, fd) {
            Some(socket) => {
                if socket.remote.is_some() {
                    return Err(Fail::Malformed { details: "Invalid file descriptor on connect" });
                }
                socket_table_insert(
                    &mut self.sockets,
                    fd,
                    Socket { local: socket.local, remote: Some(addr) },
                );
                Ok(())
            },
            None => Err(Fail::Malformed { details: "Invalid file descriptor on connect" }),
        }
    }

    /// Takes a segment that the IPv4 layer received under `ipv4_header`. Its
    /// sender and payload are queued at the endpoint that it is for, and the
    /// task that waits there is woken.
    pub fn receive(&mut self, ipv4_header: &Ipv4Header, buf: Vec<u8>) -> (received: Result<(), Fail>)
        requires
            old(self).wf(),
        ensures
            final(self).wf(),
            received == old(self)@.receive_result(*ipv4_header, buf@),
            final(self)@ == old(self)@.receive(*ipv4_header, buf@),
    {
        proof {
            lemma_receive_keeps_wf(self@, *ipv4_header, buf@);
        }
        let (header, data) = match UdpHeader::parse(&buf) {
            Ok(parsed) => parsed,
            Err(e) => {
                return Err(e);
            },
        };
        let local = Endpoint::new(ipv4_header.dst_addr, header.dst_port);
        let remote = match header.src_port {
            Some(port) => Some(Endpoint::new(ipv4_header.src_addr, port)),
            None => None,
        };
        let id = match binding_table_get(&self.bound, local) {
            Some(id) => id,
            None => {
                return Err(Fail::Malformed { details: "Port not bound" });
            },
        };
        match self.listeners.remove(&id) {
            Some(listener) => {
                let mut listener = listener;
                let waiting = listener.deliver(remote, data);
                self.listeners.insert(id, listener);
                assert(self@.listeners =~= old(self)@.listeners.insert(
                    id,
                    old(self)@.listeners[id].deliver((remote, data@)),
                ));
                match waiting {
                    Some(waker) => wake_consumer(waker),
                    None => {},
                }
                Ok(())
            },
            // A bound endpoint has its listener.
            None => vstd::pervasive::unreached(),
        }
    }

    /// The send of `buf` to the endpoint that the socket is connected to.
    pub fn push(&self, fd: FileDescriptor, buf: Vec<u8>) -> (send: Result<OutgoingReq, Fail>)
        ensures
            self@.push_result(fd, buf@) == (match send {
                Ok(req) => Ok(req@),
                Err(e) => Err(e),
            }),
    {
        match socket_table_get(&self.sockets, fd) {
            Some(socket) => match socket.remote {
                Some(remote) => Ok(OutgoingReq { local: socket.local, remote, buf }),
                None => Err(Fail::Malformed { details: "Invalid file descriptor on push" }),
            },
            None => Err(Fail::Malformed { details: "Invalid file descriptor on push" }),
        }
    }

    /// The send of `buf` to `to`, whether or not the socket is connected.
    pub fn pushto(&self, fd: FileDescriptor, buf: Vec<u8>, to: Endpoint) -> (send: Result<
        OutgoingReq,
        Fail,
    >)
        ensures
            self@.pushto_result(fd, buf@, to) == (match send {
                Ok(req) => Ok(req@),
                Err(e) => Err(e),
            }),
    {
        match socket_table_get(&self.sockets, fd) {
            Some(socket) => Ok(OutgoingReq { local: socket.local, remote: to, buf }),
            None => Err(Fail::Malformed { details: "Invalid file descriptor on pushto" }),
        }
    }

    /// Makes a send. `link_addr` is what the ARP cache holds for the address
    /// of the destination, `src_link` and `src_ip` are the addresses of this
    /// host. With the link address at hand the datagram comes back, to be
    /// transmitted at once. Without it the send is left to the channel, which
    /// takes it unless it is full or closed.
    pub fn send_datagram(
        &self,
        req: OutgoingReq,
        link_addr: Option<MacAddress>,
        src_link: MacAddress,
        src_ip: Ipv4Addr,
    ) -> (outcome: SendOutcome)
        requires
            self.wf(),
        ensures
            match link_addr {
                Some(link_addr) => outcome matches SendOutcome::Transmit(datagram) && datagram@
                    == outgoing_datagram(
                    link_addr,
                    src_link,
                    src_ip,
                    req.local,
                    req.remote,
                    req.buf@,
                ),
                None => outcome is Deferred || (outcome matches SendOutcome::Rejected(rejected)
                    && rejected.request() == req),
            },
    {
        match link_addr {
            Some(link_addr) => SendOutcome::Transmit(
                UdpDatagram::outgoing(link_addr, src_link, src_ip, req.local, req.remote, req.buf),
            ),
            None => SendOutcome::deferred(try_send(&self.outgoing, req)),
        }
    }

    /// One step of the task that drains the channel: `req` is the send that
    /// it took out, `resolved` the answer of the resolver for the address of
    /// its destination. The datagram to transmit comes back, or the failure
    /// of the resolver, on which the send is dropped.
    pub fn background(
        req: OutgoingReq,
        resolved: Result<MacAddress, Fail>,
        src_link: MacAddress,
        src_ip: Ipv4Addr,
    ) -> (transmission: Result<UdpDatagram, Fail>)
        ensures
            resolved_datagram(req, resolved, src_link, src_ip) == (match transmission {
                Ok(datagram) => Ok(datagram@),
                Err(e) => Err(e),
            }),
    {
        match resolved {
            Ok(link_addr) => Ok(
                UdpDatagram::outgoing(link_addr, src_link, src_ip, req.local, req.remote, req.buf),
            ),
            Err(e) => Err(e),
        }
    }

    /// Whether a pop can be started on `fd`: the listener of the socket, if
    /// it has one, must be able to count one pop more.
    pub fn can_pop(&self, fd: FileDescriptor) -> (room: bool)
        requires
            self.wf(),
        ensures
            room == self@.pop_fits(fd),
    {
        let local = match socket_table_get(&self.sockets, fd) {
            Some(socket) => match socket.local {
                Some(local) => local,
                None => {
                    return true;
                },
            },
            None => {
                return true;
            },
        };
        match binding_table_get(&self.bound, local) {
            Some(id) => match self.listeners.get(&id) {
                Some(listener) => listener.pops() < u64::MAX,
                // A bound endpoint has its listener.
                None => vstd::pervasive::unreached(),
            },
            // The local endpoint of a socket is bound.
            None => vstd::pervasive::unreached(),
        }
    }

    /// Starts a pop on `fd`. The pop holds the listener that the socket has
    /// now, and keeps it until the pop is given up, whatever becomes of the
    /// socket.
    pub fn pop(&mut self, fd: FileDescriptor) -> (future: PopFuture)
        requires
            old(self).wf(),
            old(self)@.pop_fits(fd),
        ensures
            final(self).wf(),
            future.fd == fd,
            future.listener == old(self)@.pop_listener(fd),
            final(self)@ == old(self)@.pop(fd),
    {
        proof {
            lemma_pop_keeps_wf(self@, fd);
        }
        let failed = PopFuture { fd, listener: Err(Fail::Malformed { details: "Invalid file descriptor" }) };
        let local = match socket_table_get(&self.sockets, fd) {
            Some(socket) => match socket.local {
                Some(local) => local,
                None => {
                    return failed;
                },
            },
            None => {
                return failed;
            },
        };
        let id = match binding_table_get(&self.bound, local) {
            Some(id) => id,
            // The local endpoint of a socket is bound.
            None => vstd::pervasive::unreached(),
        };
        match self.listeners.remove(&id) {
            Some(listener) => {
                let mut listener = listener;
                listener.hold();
                self.listeners.insert(id, listener);
            },
            // A bound endpoint has its listener.
            None => vstd::pervasive::unreached(),
        }
        assert(self@.listeners =~= old(self)@.listeners.insert(
            id,
            old(self)@.listeners[id].hold(),
        ));
        PopFuture { fd, listener: Ok(id) }
    }

    /// Closes the socket. Its endpoint is free again. Its listener stays for
    /// the pops that hold it, and goes where none does. The descriptor is the
    /// caller's to free.
    pub fn close(&mut self, fd: FileDescriptor) -> (closed: Result<(), Fail>)
        requires
            old(self).wf(),
        ensures
            final(self).wf(),
            closed == old(self)@.close_result(fd),
            final(self)@ == old(self)@.close(fd),
    {
        proof {
            lemma_close_keeps_wf(self@, fd);
        }
        let socket = match socket_table_remove(&mut self.sockets, fd) {
            Some(socket) => socket,
            None => {
                assert(self@.sockets =~= old(self)@.sockets);
                return Err(Fail::Malformed { details: "Invalid file descriptor" });
            },
        };
        match socket.local {
            Some(local) => {
                let id = match binding_table_remove(&mut self.bound, local) {
                    Some(id) => id,
                    // The local endpoint of a socket is bound.
                    None => vstd::pervasive::unreached(),
                };
                match self.listeners.remove(&id) {
                    Some(listener) => {
                        let mut listener = listener;
                        listener.unbind();
                        if listener.pops() > 0 {
                            self.listeners.insert(id, listener);
                        }
                    },
                    // A bound endpoint has its listener.
                    None => vstd::pervasive::unreached(),
                }
                assert(self@.listeners =~= old(self)@.close(fd).listeners);
            },
            None => {
                assert(self@.listeners =~= old(self)@.listeners);
            },
        }
        Ok(())
    }
}

/// What a pop has produced, with the payload as a sequence of bytes.
pub open spec fn pop_output_view(output: Result<Arrival, Fail>) -> Result<ArrivalView, Fail> {
    match output {
        Ok((remote, data)) => Ok((remote, data@)),
        Err(e) => Err(e),
    }
}

/// What a poll of a pop has given, with the payload as a sequence of bytes.
pub open spec fn pop_poll_view(polled: Poll<Result<Arrival, Fail>>) -> Poll<Result<ArrivalView, Fail>> {
    match polled {
        Poll::Ready(output) => Poll::Ready(pop_output_view(output)),
        Poll::Pending => Poll::Pending,
    }
}

/// A pop that was started. It holds a listener until it is given up with
/// `cancel`.
#[derive(Debug, PartialEq, Eq)]
pub struct PopFuture {
    /// The descriptor that the pop is on.
    pub fd: FileDescriptor,
    /// The listener that the pop holds, or the failure that it started with.
    pub listener: Result<ListenerId, Fail>,
}

impl PopFuture {
    /// Polls the pop on behalf of a task whose waker is `waker`. A pop that
    /// failed at its start gives its failure at every poll. Any other takes
    /// the oldest arrival of the listener that it holds, or, where there is
    /// none, leaves the waker in that listener and waits. That the socket was
    /// closed in the meantime changes nothing: what was queued then is still
    /// given, and nothing that arrives for a later socket is.
    pub fn poll(&self, peer: &mut UdpPeer, waker: Waker) -> (polled: Poll<Result<Arrival, Fail>>)
        requires
            old(peer).wf(),
        ensures
            final(peer).wf(),
            pop_poll_view(polled) == old(peer)@.poll_result(self.listener),
            final(peer)@ == old(peer)@.poll(self.listener, waker),
    {
        proof {
            lemma_poll_keeps_wf(peer@, self.listener, waker);
        }
        let id = match self.listener {
            Ok(id) => id,
            Err(e) => {
                return Poll::Ready(Err(e));
            },
        };
        match peer.listeners.remove(&id) {
            None => {
                assert(peer@.listeners =~= old(peer)@.listeners);
                Poll::Pending
            },
            Some(listener) => {
                let mut listener = listener;
                let arrival = listener.poll(waker);
                peer.listeners.insert(id, listener);
                assert(peer@.listeners =~= old(peer)@.listeners.insert(
                    id,
                    old(peer)@.listeners[id].poll(waker),
                ));
                match arrival {
                    Some(arrival) => Poll::Ready(Ok(arrival)),
                    None => Poll::Pending,
                }
            },
        }
    }

    /// Gives the pop up, done or not. The listener that it held goes where
    /// its socket is closed and no other pop holds it.
    pub fn cancel(self, peer: &mut UdpPeer)
        requires
            old(peer).wf(),
        ensures
            final(peer).wf(),
            final(peer)@ == old(peer)@.cancel(self.listener),
    {
        proof {
            lemma_cancel_keeps_wf(peer@, self.listener);
        }
        let id = match self.listener {
            Ok(id) => id,
            Err(e) => {
                return ;
            },
        };
        match peer.listeners.remove(&id) {
            None => {
                assert(peer@.listeners =~= old(peer)@.listeners);
            },
            Some(listener) => {
                let mut listener = listener;
                if listener.pops() > 0 {
                    listener.release();
                    if listener.is_bound() || listener.pops() > 0 {
                        peer.listeners.insert(id, listener);
                    }
                } else {
                    peer.listeners.insert(id, listener);
                }
                assert(peer@.listeners =~= old(peer)@.cancel(self.listener).listeners);
            },
        }
    }
}

/// An operation on a socket that the caller can poll and, once it is ready,
/// ask for its result.
#[derive(Debug, PartialEq, Eq)]
pub enum UdpOperation {
    Accept(FileDescriptor, Fail),
    Connect(FileDescriptor, Result<(), Fail>),
    Push(FileDescriptor, Result<(), Fail>),
    Pop(ResultFuture<PopFuture, Result<Arrival, Fail>>),
}

impl UdpOperation {
    /// Whether the operation has its result. Only a pop can be without.
    pub open spec fn ready(self) -> bool {
        self matches UdpOperation::Pop(pop) ==> pop.done is Some
    }

    /// The descriptor that the operation is on, and what came of it.
    pub open spec fn result(self) -> (FileDescriptor, OperationResult)
        recommends
            self.ready(),
    {
        match self {
            UdpOperation::Accept(fd, e) => (fd, OperationResult::Failed(e)),
            UdpOperation::Connect(fd, Err(e)) => (fd, OperationResult::Failed(e)),
            UdpOperation::Connect(fd, Ok(())) => (fd, OperationResult::Connect),
            UdpOperation::Push(fd, Err(e)) => (fd, OperationResult::Failed(e)),
            UdpOperation::Push(fd, Ok(())) => (fd, OperationResult::Push),
            UdpOperation::Pop(pop) => match pop.done {
                Some(Ok((addr, bytes))) => (pop.future.fd, OperationResult::Pop(addr, bytes)),
                Some(Err(e)) => (pop.future.fd, OperationResult::Failed(e)),
                None => arbitrary(),
            },
        }
    }

    /// Whether the operation has its result.
    pub fn is_ready(&self) -> (ready: bool)
        ensures
            ready == self.ready(),
    {
        match self {
            UdpOperation::Pop(pop) => pop.done.is_some(),
            _ => true,
        }
    }

    /// Polls the operation on behalf of a task whose waker is `waker`. Only
    /// a pop that has no result yet does anything: its pop is polled, and what
    /// that gives is kept as the result.
    pub fn poll(&mut self, peer: &mut UdpPeer, waker: Waker) -> (polled: Poll<()>)
        requires
            old(peer).wf(),
        ensures
            final(peer).wf(),
            old(self).ready() ==> polled == Poll::Ready(()) && *final(self) == *old(self)
                && final(peer)@ == old(peer)@,
            !old(self).ready() ==> ({
                let pop = old(self)->Pop_0;
                &&& final(peer)@ == old(peer)@.poll(pop.future.listener, waker)
                &&& match old(peer)@.poll_result(pop.future.listener) {
                    Poll::Ready(output) => {
                        &&& polled == Poll::Ready(())
                        &&& *final(self) matches UdpOperation::Pop(done)
                        &&& done.future == pop.future
                        &&& done.done matches Some(kept)
                        &&& pop_output_view(kept) == output
                    },
                    Poll::Pending => polled == Poll::<()>::Pending && *final(self) == *old(self),
                }
            }),
    {
        match self {
            UdpOperation::Pop(pop) => {
                if pop.done.is_some() {
                    return Poll::Ready(());
                }
                match pop.future.poll(peer, waker) {
                    Poll::Ready(output) => {
                        pop.done = Some(output);
                        Poll::Ready(())
                    },
                    Poll::Pending => Poll::Pending,
                }
            },
            _ => Poll::Ready(()),
        }
    }

    /// Gives the operation up without asking for its result. A pop is given
    /// up with it, so the listener that it held is let go.
    pub fn cancel(self, peer: &mut UdpPeer)
        requires
            old(peer).wf(),
        ensures
            final(peer).wf(),
            final(peer)@ == (match self {
                UdpOperation::Pop(pop) => old(peer)@.cancel(pop.future.listener),
                _ => old(peer)@,
            }),
    {
        match self {
            UdpOperation::Pop(pop) => {
                let ResultFuture { future, done } = pop;
                future.cancel(peer);
            },
            _ => {},
        }
    }

    /// The descriptor that the operation is on, and what came of it. A pop
    /// is given up with this, so the listener that it held is let go.
    pub fn expect_result(self, peer: &mut UdpPeer) -> (result: (FileDescriptor, OperationResult))
        requires
            self.ready(),
            old(peer).wf(),
        ensures
            result == self.result(),
            final(peer).wf(),
            final(peer)@ == (match self {
                UdpOperation::Pop(pop) => old(peer)@.cancel(pop.future.listener),
                _ => old(peer)@,
            }),
    {
        match self {
            UdpOperation::Accept(fd, e) => (fd, OperationResult::Failed(e)),
            UdpOperation::Connect(fd, Err(e)) => (fd, OperationResult::Failed(e)),
            UdpOperation::Connect(fd, Ok(())) => (fd, OperationResult::Connect),
            UdpOperation::Push(fd, Err(e)) => (fd, OperationResult::Failed(e)),
            UdpOperation::Push(fd, Ok(())) => (fd, OperationResult::Push),
            UdpOperation::Pop(pop) => {
                let ResultFuture { future, done } = pop;
                let fd = future.fd;
                future.cancel(peer);
                match done {
                    Some(Ok((addr, bytes))) => (fd, OperationResult::Pop(addr, bytes)),
                    Some(Err(e)) => (fd, OperationResult::Failed(e)),
                    None => vstd::pervasive::unreached(),
                }
            },
        }
    }
}

/// A send that had to wait is transmitted as it would have been at once: for
/// the address that the resolver finds, the task that drains the channel gets
/// the very datagram that `send_datagram` yields when the ARP cache holds that
/// address. Where the resolver fails, nothing is transmitted.
pub proof fn lemma_deferred_send_is_the_same(
    req: OutgoingReq,
    link_addr: MacAddress,
    failure: Fail,
    src_link: MacAddress,
    src_ip: Ipv4Addr,
)
    ensures
        resolved_datagram(req, Ok(link_addr), src_link, src_ip) == Ok::<UdpDatagramView, Fail>(
            outgoing_datagram(link_addr, src_link, src_ip, req.local, req.remote, req.buf@),
        ),
        resolved_datagram(req, Err(failure), src_link, src_ip) is Err,
{
}

} // verus!
