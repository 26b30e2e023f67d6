//! The peer as a mathematical state: which sockets there are, what is bound,
//! which listeners live, and what each operation makes of them. The executable peer is specified
//! against these functions, and the laws at the end of the file are proved
//! of them.

use crate::fail::Fail;
use crate::file_table::FileDescriptor;
use crate::operations::Poll;
use crate::protocols::ipv4::{Endpoint, Ipv4Header};
use crate::protocols::ethernet2::MacAddress;
use crate::protocols::udp::datagram::{outgoing_datagram, UdpHeader};
use crate::protocols::udp::listener::{ArrivalView, ListenerId, ListenerView};
use crate::protocols::udp::outgoing::OutgoingReqView;
use std::task::Waker;
use vstd::prelude::*;

verus! {

/// What `bind` and `connect` have fixed for a socket.
#[derive(Clone, Copy, Debug, PartialEq, Eq)]
pub struct Socket {
    /// The local endpoint, once the socket is bound.
    pub local: Option<Endpoint>,
    /// The remote endpoint, once the socket is connected.
    pub remote: Option<Endpoint>,
}

/// The local endpoint that a received datagram is for.
pub open spec fn arrival_local(ipv4_header: Ipv4Header, udp_header: UdpHeader) -> Endpoint {
    Endpoint { addr: ipv4_header.dst_addr, port: udp_header.dst_port }
}

/// The remote endpoint that a received datagram is from, where its header
/// gives a source port.
pub open spec fn arrival_remote(ipv4_header: Ipv4Header, udp_header: UdpHeader) -> Option<
    Endpoint,
> {
    match udp_header.src_port {
        Some(port) => Some(Endpoint { addr: ipv4_header.src_addr, port }),
        None => None,
    }
}

/// The sockets of a peer by their descriptor, the listener of each bound
/// endpoint, the listeners that live, and the name that the next listener
/// gets. A listener lives from the bind that makes it until its socket is
/// closed and every pop that was started on it is given up.
pub struct PeerView {
    pub sockets: Map<FileDescriptor, Socket>,
    pub bound: Map<Endpoint, ListenerId>,
    pub listeners: Map<ListenerId, ListenerView>,
    pub next_listener: ListenerId,
}

impl PeerView {
    /// Whether `fd` is the socket that is bound to `local`.
    pub open spec fn owns(self, fd: FileDescriptor, local: Endpoint) -> bool {
        self.sockets.contains_key(fd) && self.sockets[fd].local == Some(local)
    }

    /// What holds of the sockets of every peer: the local endpoint of a
    /// socket is bound, no two sockets have the same local endpoint, and no
    /// endpoint is bound without its socket.
    pub open spec fn sockets_wf(self) -> bool {
        &&& forall|fd: FileDescriptor| #[trigger]
            self.sockets.contains_key(fd) ==> (self.sockets[fd].local matches Some(local)
                ==> self.bound.contains_key(local))
        &&& forall|fd: FileDescriptor, other: FileDescriptor|
            #![trigger self.sockets.contains_key(fd), self.sockets.contains_key(other)]
            self.sockets.contains_key(fd) && self.sockets.contains_key(other) && fd != other
                && self.sockets[fd].local is Some ==> self.sockets[fd].local
                != self.sockets[other].local
        &&& forall|local: Endpoint| #[trigger]
            self.bound.contains_key(local) ==> exists|fd: FileDescriptor| self.owns(fd, local)
    }

    /// What holds of the listeners of every peer: a bound endpoint has its
    /// listener, which knows the endpoint; a listener that knows an endpoint
    /// is the one of that endpoint; every listener got its name before the
    /// next one; and a listener whose endpoint is not bound any more is held
    /// by a pop.
    pub open spec fn listeners_wf(self) -> bool {
        &&& forall|local: Endpoint| #[trigger]
            self.bound.contains_key(local) ==> self.listeners.contains_key(self.bound[local])
                && self.listeners[self.bound[local]].local == Some(local)
        &&& forall|id: ListenerId| #[trigger]
            self.listeners.contains_key(id) ==> (self.listeners[id].local matches Some(local)
                ==> self.bound.contains_key(local) && self.bound[local] == id)
        &&& forall|id: ListenerId| #[trigger]
            self.listeners.contains_key(id) ==> id < self.next_listener
        &&& forall|id: ListenerId| #[trigger]
            self.listeners.contains_key(id) ==> self.listeners[id].in_use()
    }

    /// What holds of every peer.
    pub open spec fn wf(self) -> bool {
        self.sockets_wf() && self.listeners_wf()
    }

    /// A peer without sockets.
    pub open spec fn empty() -> PeerView {
        PeerView {
            sockets: Map::empty(),
            bound: Map::empty(),
            listeners: Map::empty(),
            next_listener: 0,
        }
    }

    /// The peer with a new socket under `fd`, neither bound nor connected.
    pub open spec fn socket(self, fd: FileDescriptor) -> PeerView {
        PeerView { sockets: self.sockets.insert(fd, Socket { local: None, remote: None }), ..self }
    }

    /// Whether `fd` can be bound to `addr`: the endpoint must be free, and the
    /// descriptor that of a socket that is not bound yet.
    pub open spec fn bind_result(self, fd: FileDescriptor, addr: Endpoint) -> Result<(), Fail> {
        if self.bound.contains_key(addr) {
            Err(Fail::Malformed { details: "Port already listening" })
        } else if !self.sockets.contains_key(fd) || self.sockets[fd].local is Some {
            Err(Fail::Malformed { details: "Invalid file descriptor on bind" })
        } else {
            Ok(())
        }
    }

    /// The peer after `fd` was to be bound to `addr`: where that can be, the
    /// socket has the local endpoint, and the endpoint a new, empty listener
    /// under a name that no listener had before.
    pub open spec fn bind(self, fd: FileDescriptor, addr: Endpoint) -> PeerView {
        if self.bind_result(fd, addr) is Ok {
            PeerView {
                sockets: self.sockets.insert(
                    fd,
                    Socket { local: Some(addr), remote: self.sockets[fd].remote },
                ),
                bound: self.bound.insert(addr, self.next_listener),
                listeners: self.listeners.insert(self.next_listener, ListenerView::empty(addr)),
                next_listener: (self.next_listener + 1) as ListenerId,
            }
        } else {
            self
        }
    }

    /// Whether `fd` can be connected: it must be the descriptor of a socket
    /// that is not connected yet.
    pub open spec fn connect_result(self, fd: FileDescriptor) -> Result<(), Fail> {
        if self.sockets.contains_key(fd) && self.sockets[fd].remote is None {
            Ok(())
        } else {
            Err(Fail::Malformed { details: "Invalid file descriptor on connect" })
        }
    }

    /// The peer after `fd` was to be connected to `addr`.
    pub open spec fn connect(self, fd: FileDescriptor, addr: Endpoint) -> PeerView {
        if self.connect_result(fd) is Ok {
            PeerView {
                sockets: self.sockets.insert(
                    fd,
                    Socket { local: self.sockets[fd].local, remote: Some(addr) },
                ),
                ..self
            }
        } else {
            self
        }
    }

    /// Whether the segment `buf`, which came under `ipv4_header`, is taken:
    /// it must hold a header, and its destination must be bound.
    pub open spec fn receive_result(self, ipv4_header: Ipv4Header, buf: Seq<u8>) -> Result<
        (),
        Fail,
    > {
        match UdpHeader::parse_spec(buf) {
            Err(e) => Err(e),
            Ok((udp_header, data)) => if self.bound.contains_key(
                arrival_local(ipv4_header, udp_header),
            ) {
                Ok(())
            } else {
                Err(Fail::Malformed { details: "Port not bound" })
            },
        }
    }

    /// The peer after the segment `buf` came under `ipv4_header`: where it is
    /// taken, its sender and payload are last in the queue of the listener of
    /// its destination.
    pub open spec fn receive(self, ipv4_header: Ipv4Header, buf: Seq<u8>) -> PeerView {
        match UdpHeader::parse_spec(buf) {
            Err(e) => self,
            Ok((udp_header, data)) => {
                let local = arrival_local(ipv4_header, udp_header);
                if self.bound.contains_key(local) {
                    let id = self.bound[local];
                    PeerView {
                        listeners: self.listeners.insert(
                            id,
                            self.listeners[id].deliver(
                                (arrival_remote(ipv4_header, udp_header), data),
                            ),
                        ),
                        ..self
                    }
                } else {
                    self
                }
            },
        }
    }

    /// The send that `push` makes of `buf` on `fd`: it goes to the endpoint
    /// that the socket is connected to. There is none where the descriptor is
    /// not that of a connected socket.
    pub open spec fn push_result(self, fd: FileDescriptor, buf: Seq<u8>) -> Result<
        OutgoingReqView,
        Fail,
    > {
        if self.sockets.contains_key(fd) && self.sockets[fd].remote is Some {
            Ok(
                OutgoingReqView {
                    local: self.sockets[fd].local,
                    remote: self.sockets[fd].remote->0,
                    buf,
                },
            )
        } else {
            Err(Fail::Malformed { details: "Invalid file descriptor on push" })
        }
    }

    /// The send that `pushto` makes of `buf` on `fd`: it goes to `to`. There
    /// is none where the descriptor is not that of a socket.
    pub open spec fn pushto_result(self, fd: FileDescriptor, buf: Seq<u8>, to: Endpoint) -> Result<
        OutgoingReqView,
        Fail,
    > {
        if self.sockets.contains_key(fd) {
            Ok(OutgoingReqView { local: self.sockets[fd].local, remote: to, buf })
        } else {
            Err(Fail::Malformed { details: "Invalid file descriptor on pushto" })
        }
    }

    /// The listener that a pop on `fd` holds from its start: the one of the
    /// local endpoint of the socket, as it is then. A pop on a descriptor
    /// that is not that of a bound socket has failed from the start.
    pub open spec fn pop_listener(self, fd: FileDescriptor) -> Result<ListenerId, Fail> {
        if self.sockets.contains_key(fd) && self.sockets[fd].local is Some {
            Ok(self.bound[self.sockets[fd].local->0])
        } else {
            Err(Fail::Malformed { details: "Invalid file descriptor" })
        }
    }

    /// Whether one more pop can be counted on the listener of `fd`.
    pub open spec fn pop_fits(self, fd: FileDescriptor) -> bool {
        self.pop_listener(fd) matches Ok(id) ==> self.listeners[id].pops < u64::MAX
    }

    /// The peer after a pop was started on `fd`: the listener that the pop
    /// holds counts one pop more.
    pub open spec fn pop(self, fd: FileDescriptor) -> PeerView {
        match self.pop_listener(fd) {
            Ok(id) => PeerView {
                listeners: self.listeners.insert(id, self.listeners[id].hold()),
                ..self
            },
            Err(e) => self,
        }
    }

    /// What a poll of a pop gives: its failure, the oldest arrival of the
    /// listener that it holds, or word to wait where that listener has
    /// nothing queued. Whether the socket is still open does not matter.
    pub open spec fn poll_result(self, listener: Result<ListenerId, Fail>) -> Poll<
        Result<ArrivalView, Fail>,
    > {
        match listener {
            Err(e) => Poll::Ready(Err(e)),
            Ok(id) => if self.listeners.contains_key(id) && self.listeners[id].queue.len() > 0 {
                Poll::Ready(Ok(self.listeners[id].queue[0]))
            } else {
                Poll::Pending
            },
        }
    }

    /// The peer after a poll of a pop by a task whose waker is `waker`: the
    /// arrival that the poll gives has left the queue of the listener that
    /// the pop holds, or the task is the one that this listener will wake.
    pub open spec fn poll(self, listener: Result<ListenerId, Fail>, waker: Waker) -> PeerView {
        match listener {
            Err(e) => self,
            Ok(id) => if self.listeners.contains_key(id) {
                PeerView {
                    listeners: self.listeners.insert(id, self.listeners[id].poll(waker)),
                    ..self
                }
            } else {
                self
            },
        }
    }

    /// The peer after a pop was given up: the listener that it held counts
    /// one pop less, and goes where its endpoint is not bound any more and
    /// this was the last pop that held it.
    pub open spec fn cancel(self, listener: Result<ListenerId, Fail>) -> PeerView {
        match listener {
            Err(e) => self,
            Ok(id) => if self.listeners.contains_key(id) && self.listeners[id].pops > 0 {
                let released = self.listeners[id].release();
                PeerView {
                    listeners: if released.in_use() {
                        self.listeners.insert(id, released)
                    } else {
                        self.listeners.remove(id)
                    },
                    ..self
                }
            } else {
                self
            },
        }
    }

    /// Whether `fd` can be closed: it must be the descriptor of a socket.
    pub open spec fn close_result(self, fd: FileDescriptor) -> Result<(), Fail> {
        if self.sockets.contains_key(fd) {
            Ok(())
        } else {
            Err(Fail::Malformed { details: "Invalid file descriptor" })
        }
    }

    /// The peer after `fd` was to be closed: the socket is gone and its local
    /// endpoint is free. The listener of that endpoint stays, with all that
    /// is queued in it, for as long as a pop holds it; else it goes too.
    pub open spec fn close(self, fd: FileDescriptor) -> PeerView {
        if self.sockets.contains_key(fd) {
            match self.sockets[fd].local {
                Some(local) => {
                    let id = self.bound[local];
                    let unbound = self.listeners[id].unbind();
                    PeerView {
                        sockets: self.sockets.remove(fd),
                        bound: self.bound.remove(local),
                        listeners: if unbound.in_use() {
                            self.listeners.insert(id, unbound)
                        } else {
                            self.listeners.remove(id)
                        },
                        ..self
                    }
                },
                None => PeerView { sockets: self.sockets.remove(fd), ..self },
            }
        } else {
            self
        }
    }
}

/// A segment for an endpoint that is not bound is refused, and the peer stays
/// as it was.
pub proof fn lemma_receive_unbound(peer: PeerView, ipv4_header: Ipv4Header, buf: Seq<u8>)
    requires
        UdpHeader::parse_spec(buf) matches Ok((udp_header, data)) && !peer.bound.contains_key(
            arrival_local(ipv4_header, udp_header),
        ),
    ensures
        peer.receive_result(ipv4_header, buf) == Err::<(), Fail>(
            Fail::Malformed { details: "Port not bound" },
        ),
        peer.receive(ipv4_header, buf) == peer,
{
}

/// A segment for a bound endpoint is taken: its sender and payload are last in
/// the queue of the listener of the endpoint, behind all that was queued
/// before, and no task waits there any more. Where the queue was empty, the
/// next poll of a pop on the socket of that endpoint gives exactly that sender
/// and payload, and leaves the queue empty again.
pub proof fn lemma_receive_then_pop(
    peer: PeerView,
    fd: FileDescriptor,
    ipv4_header: Ipv4Header,
    buf: Seq<u8>,
    waker: Waker,
)
    requires
        peer.wf(),
        UdpHeader::parse_spec(buf) is Ok,
        peer.sockets.contains_key(fd),
        peer.sockets[fd].local == Some(
            arrival_local(ipv4_header, UdpHeader::parse_spec(buf)->Ok_0.0),
        ),
    ensures
        ({
            let (udp_header, data) = UdpHeader::parse_spec(buf)->Ok_0;
            let local = arrival_local(ipv4_header, udp_header);
            let id = peer.bound[local];
            let arrival = (arrival_remote(ipv4_header, udp_header), data);
            let after = peer.receive(ipv4_header, buf);
            let popping = after.pop(fd);
            &&& peer.receive_result(ipv4_header, buf) is Ok
            &&& after.sockets == peer.sockets
            &&& after.bound == peer.bound
            &&& after.listeners[id].queue == peer.listeners[id].queue.push(arrival)
            &&& after.listeners[id].waker is None
            &&& after.pop_listener(fd) == Ok::<ListenerId, Fail>(id)
            &&& peer.listeners[id].queue.len() == 0 ==> {
                &&& popping.poll_result(Ok(id)) == Poll::Ready(Ok::<ArrivalView, Fail>(arrival))
                &&& popping.poll(Ok(id), waker).listeners[id].queue == Seq::<ArrivalView>::empty()
            }
        }),
{
    let (udp_header, data) = UdpHeader::parse_spec(buf)->Ok_0;
    let local = arrival_local(ipv4_header, udp_header);
    let id = peer.bound[local];
    let after = peer.receive(ipv4_header, buf);
    assert(peer.bound.contains_key(local));
    if peer.listeners[id].queue.len() == 0 {
        assert(after.pop(fd).listeners[id].queue.drop_first() =~= Seq::<ArrivalView>::empty());
    }
}

/// A pop keeps its listener: after the socket of a pop was closed, the
/// listener that the pop holds is still there with all that was queued in it,
/// so the next poll gives the oldest arrival that was queued when the socket
/// was closed, and waits only where nothing was queued.
pub proof fn lemma_pop_keeps_its_listener(peer: PeerView, fd: FileDescriptor)
    requires
        peer.wf(),
        peer.pop_listener(fd) is Ok,
    ensures
        ({
            let id = peer.pop_listener(fd)->Ok_0;
            let closed = peer.pop(fd).close(fd);
            &&& peer.listeners.contains_key(id)
            &&& peer.pop(fd).close_result(fd) is Ok
            &&& closed.listeners.contains_key(id)
            &&& closed.listeners[id].queue == peer.listeners[id].queue
            &&& closed.poll_result(Ok(id)) == peer.poll_result(Ok(id))
        }),
{
}

/// A listener whose endpoint is not bound any more is out of reach of the
/// sockets: no socket that is taken up, bound, connected or closed and no
/// segment that arrives changes it, and no later bind gives its name away.
/// So a pop that holds it never takes what arrives for a later socket, be it
/// on the same descriptor and at the same endpoint.
pub proof fn lemma_unbound_listener_is_apart(
    peer: PeerView,
    id: ListenerId,
    fd: FileDescriptor,
    addr: Endpoint,
    ipv4_header: Ipv4Header,
    buf: Seq<u8>,
)
    requires
        peer.wf(),
        peer.listeners.contains_key(id),
        peer.listeners[id].local is None,
    ensures
        peer.socket(fd).listeners.contains_key(id) && peer.socket(fd).listeners[id]
            == peer.listeners[id],
        peer.bind(fd, addr).listeners.contains_key(id) && peer.bind(fd, addr).listeners[id]
            == peer.listeners[id],
        peer.bind_result(fd, addr) is Ok ==> peer.bind(fd, addr).bound[addr] != id,
        peer.connect(fd, addr).listeners.contains_key(id) && peer.connect(fd, addr).listeners[id]
            == peer.listeners[id],
        peer.receive(ipv4_header, buf).listeners.contains_key(id) && peer.receive(
            ipv4_header,
            buf,
        ).listeners[id] == peer.listeners[id],
        peer.close(fd).listeners.contains_key(id) && peer.close(fd).listeners[id]
            == peer.listeners[id],
{
    if peer.sockets.contains_key(fd) && peer.sockets[fd].local is Some {
        assert(peer.bound.contains_key(peer.sockets[fd].local->0));
    }
}

/// As long as a pop holds it, a listener stays: a pop that was started finds
/// its listener at every poll until the pop is given up.
pub proof fn lemma_held_listener_stays(
    peer: PeerView,
    id: ListenerId,
    fd: FileDescriptor,
    addr: Endpoint,
    ipv4_header: Ipv4Header,
    buf: Seq<u8>,
    waker: Waker,
)
    requires
        peer.wf(),
        peer.listeners.contains_key(id),
        peer.listeners[id].pops > 0,
    ensures
        peer.socket(fd).listeners.contains_key(id) && peer.socket(fd).listeners[id].pops > 0,
        peer.bind(fd, addr).listeners.contains_key(id) && peer.bind(fd, addr).listeners[id].pops
            > 0,
        peer.connect(fd, addr).listeners.contains_key(id) && peer.connect(
            fd,
            addr,
        ).listeners[id].pops > 0,
        peer.receive(ipv4_header, buf).listeners.contains_key(id) && peer.receive(
            ipv4_header,
            buf,
        ).listeners[id].pops > 0,
        peer.pop(fd).listeners.contains_key(id) && peer.pop(fd).listeners[id].pops > 0,
        peer.poll(Ok(id), waker).listeners.contains_key(id) && peer.poll(
            Ok(id),
            waker,
        ).listeners[id].pops > 0,
        peer.close(fd).listeners.contains_key(id) && peer.close(fd).listeners[id].pops > 0,
        forall|other: ListenerId|
            other != id ==> #[trigger] peer.cancel(Ok(other)).listeners.contains_key(id)
                && peer.cancel(Ok(other)).listeners[id] == peer.listeners[id],
        peer.listeners[id].pops > 1 ==> peer.cancel(Ok(id)).listeners.contains_key(id)
            && peer.cancel(Ok(id)).listeners[id].pops > 0,
{
    if peer.sockets.contains_key(fd) && peer.sockets[fd].local is Some {
        assert(peer.bound.contains_key(peer.sockets[fd].local->0));
    }
}

/// What one socket of a peer sends to another arrives there: a bound socket
/// `sender` whose remote endpoint is the local endpoint of the socket
/// `receiver` pushes `payload`; the datagram that the push comes to goes over
/// the wire as the segment `wire`, under its own IPv4 header; the peer takes
/// it, and a pop on `receiver`, whose queue was empty, gives the endpoint of
/// `sender` and `payload`.
pub proof fn lemma_loopback(
    peer: PeerView,
    sender: FileDescriptor,
    receiver: FileDescriptor,
    payload: Seq<u8>,
    link_addr: MacAddress,
    src_link: MacAddress,
    wire: Seq<u8>,
)
    requires
        peer.wf(),
        peer.sockets.contains_key(sender),
        peer.sockets.contains_key(receiver),
        peer.sockets[sender].local is Some,
        peer.sockets[receiver].local is Some,
        peer.sockets[sender].remote == peer.sockets[receiver].local,
        peer.listeners[peer.pop_listener(receiver)->Ok_0].queue.len() == 0,
        ({
            let from = peer.sockets[sender].local->0;
            let to = peer.sockets[receiver].local->0;
            let datagram = outgoing_datagram(link_addr, src_link, from.addr, Some(from), to, payload);
            UdpHeader::parse_spec(wire) == Ok::<_, Fail>((datagram.udp_hdr, datagram.data))
        }),
    ensures
        ({
            let from = peer.sockets[sender].local->0;
            let to = peer.sockets[receiver].local->0;
            let datagram = outgoing_datagram(link_addr, src_link, from.addr, Some(from), to, payload);
            let arrived = peer.receive(datagram.ipv4_hdr, wire).pop(receiver);
            &&& peer.push_result(sender, payload) == Ok::<OutgoingReqView, Fail>(
                OutgoingReqView { local: Some(from), remote: to, buf: payload },
            )
            &&& peer.receive_result(datagram.ipv4_hdr, wire) is Ok
            &&& arrived.poll_result(peer.pop_listener(receiver)) == Poll::Ready(
                Ok::<ArrivalView, Fail>((Some(from), payload)),
            )
        }),
{
    let to = peer.sockets[receiver].local->0;
    assert(peer.bound.contains_key(to));
}

/// An endpoint is bound once: after a bind to `addr` went through, every
/// further bind to `addr` is refused, on the same descriptor or on another.
pub proof fn lemma_second_bind_fails(
    peer: PeerView,
    first: FileDescriptor,
    second: FileDescriptor,
    addr: Endpoint,
)
    requires
        peer.bind_result(first, addr) is Ok,
    ensures
        peer.bind(first, addr).bind_result(second, addr) == Err::<(), Fail>(
            Fail::Malformed { details: "Port already listening" },
        ),
{
}

/// On a socket that is not connected a push fails, and a push to a given
/// destination goes through, from the local endpoint of the socket if it has
/// one.
pub proof fn lemma_push_needs_connect(
    peer: PeerView,
    fd: FileDescriptor,
    buf: Seq<u8>,
    to: Endpoint,
)
    requires
        peer.sockets.contains_key(fd),
        peer.sockets[fd].remote is None,
    ensures
        peer.push_result(fd, buf) == Err::<OutgoingReqView, Fail>(
            Fail::Malformed { details: "Invalid file descriptor on push" },
        ),
        peer.pushto_result(fd, buf, to) == Ok::<OutgoingReqView, Fail>(
            OutgoingReqView { local: peer.sockets[fd].local, remote: to, buf },
        ),
{
}

/// What carries the rule that no endpoint is bound without its socket from a
/// peer to its successor: the successor binds no endpoint that is new, and
/// every socket that was bound is still there, bound as it was.
proof fn lemma_owners_stay(peer: PeerView, next: PeerView)
    requires
        peer.wf(),
        forall|local: Endpoint| #[trigger]
            next.bound.contains_key(local) ==> peer.bound.contains_key(local),
        forall|fd: FileDescriptor, local: Endpoint| #[trigger]
            peer.owns(fd, local) && next.bound.contains_key(local) ==> next.owns(fd, local),
    ensures
        forall|local: Endpoint| #[trigger]
            next.bound.contains_key(local) ==> exists|fd: FileDescriptor| next.owns(fd, local),
{
    assert forall|local: Endpoint| #[trigger] next.bound.contains_key(local) implies exists|
        fd: FileDescriptor,
    |
        next.owns(fd, local) by {
        let owner = choose|fd: FileDescriptor| peer.owns(fd, local);
        assert(peer.owns(owner, local));
        assert(next.owns(owner, local));
    }
}

/// A new socket leaves the peer well-formed.
pub proof fn lemma_socket_keeps_wf(peer: PeerView, fd: FileDescriptor)
    requires
        peer.wf(),
        !peer.sockets.contains_key(fd),
    ensures
        peer.socket(fd).wf(),
{
    lemma_owners_stay(peer, peer.socket(fd));
}

/// A bind leaves the peer well-formed, whether it goes through or not, as
/// long as there is a name left for a new listener.
pub proof fn lemma_bind_keeps_wf(peer: PeerView, fd: FileDescriptor, addr: Endpoint)
    requires
        peer.wf(),
        peer.next_listener < u64::MAX,
    ensures
        peer.bind(fd, addr).wf(),
{
    let next = peer.bind(fd, addr);
    if peer.bind_result(fd, addr) is Ok {
        assert forall|local: Endpoint| #[trigger] next.bound.contains_key(local) implies exists|
            other: FileDescriptor,
        |
            next.owns(other, local) by {
            if local == addr {
                assert(next.owns(fd, local));
            } else {
                let owner = choose|other: FileDescriptor| peer.owns(other, local);
                assert(peer.owns(owner, local));
                assert(next.owns(owner, local));
            }
        }
        assert(next.sockets_wf());
        assert(next.listeners_wf());
    }
}

/// A connect leaves the peer well-formed, whether it goes through or not.
pub proof fn lemma_connect_keeps_wf(peer: PeerView, fd: FileDescriptor, addr: Endpoint)
    requires
        peer.wf(),
    ensures
        peer.connect(fd, addr).wf(),
{
    lemma_owners_stay(peer, peer.connect(fd, addr));
}

/// A received segment leaves the peer well-formed, whether it is taken or
/// not.
pub proof fn lemma_receive_keeps_wf(peer: PeerView, ipv4_header: Ipv4Header, buf: Seq<u8>)
    requires
        peer.wf(),
    ensures
        peer.receive(ipv4_header, buf).wf(),
{
    lemma_owners_stay(peer, peer.receive(ipv4_header, buf));
}

/// The start of a pop leaves the peer well-formed.
pub proof fn lemma_pop_keeps_wf(peer: PeerView, fd: FileDescriptor)
    requires
        peer.wf(),
    ensures
        peer.pop(fd).wf(),
{
    lemma_owners_stay(peer, peer.pop(fd));
    if peer.pop_listener(fd) is Ok {
        assert(peer.bound.contains_key(peer.sockets[fd].local->0));
    }
}

/// The poll of a pop leaves the peer well-formed.
pub proof fn lemma_poll_keeps_wf(peer: PeerView, listener: Result<ListenerId, Fail>, waker: Waker)
    requires
        peer.wf(),
    ensures
        peer.poll(listener, waker).wf(),
{
    lemma_owners_stay(peer, peer.poll(listener, waker));
}

/// Giving a pop up leaves the peer well-formed.
pub proof fn lemma_cancel_keeps_wf(peer: PeerView, listener: Result<ListenerId, Fail>)
    requires
        peer.wf(),
    ensures
        peer.cancel(listener).wf(),
{
    lemma_owners_stay(peer, peer.cancel(listener));
}

/// A close leaves the peer well-formed, whether it goes through or not.
pub proof fn lemma_close_keeps_wf(peer: PeerView, fd: FileDescriptor)
    requires
        peer.wf(),
    ensures
        peer.close(fd).wf(),
{
    lemma_owners_stay(peer, peer.close(fd));
    if peer.sockets.contains_key(fd) && peer.sockets[fd].local is Some {
        assert(peer.bound.contains_key(peer.sockets[fd].local->0));
    }
}

} // verus!
