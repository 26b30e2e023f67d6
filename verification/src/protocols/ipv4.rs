use vstd::prelude::*;

verus! {

/// An IPv4 address, held as the 32-bit number that its four octets spell in
/// network order.
#[derive(Clone, Copy, Debug, PartialEq, Eq, Structural)]
pub struct Ipv4Addr {
    pub bits: u32,
}

impl Ipv4Addr {
    /// The address `a.b.c.d`.
    pub fn new(a: u8, b: u8, c: u8, d: u8) -> (addr: Ipv4Addr)
        ensures
            addr.bits == a * 0x100_0000 + b * 0x1_0000 + c * 0x100 + d,
    {
        Ipv4Addr { bits: (a as u32) * 0x100_0000 + (b as u32) * 0x1_0000 + (c as u32) * 0x100 + (d as u32) }
    }
}

/// An address and a port.
#[derive(Clone, Copy, Debug, PartialEq, Eq, Structural)]
pub struct Endpoint {
    pub addr: Ipv4Addr,
    pub port: u16,
}

impl Endpoint {
    pub fn new(addr: Ipv4Addr, port: u16) -> (endpoint: Endpoint)
        ensures
            endpoint == (Endpoint { addr, port }),
    {
        Endpoint { addr, port }
    }
}

/// The protocol that an IPv4 datagram carries.
#[derive(Clone, Copy, Debug, PartialEq, Eq)]
pub enum Ipv4Protocol2 {
    Icmpv4,
    Tcp,
    Udp,
}

#[derive(Clone, Copy, Debug, PartialEq, Eq)]
pub struct Ipv4Header {
    pub src_addr: Ipv4Addr,
    pub dst_addr: Ipv4Addr,
    pub protocol: Ipv4Protocol2,
}

impl Ipv4Header {
    pub fn new(src_addr: Ipv4Addr, dst_addr: Ipv4Addr, protocol: Ipv4Protocol2) -> (header: Ipv4Header)
        ensures
            header == (Ipv4Header { src_addr, dst_addr, protocol }),
    {
        Ipv4Header { src_addr, dst_addr, protocol }
    }
}

} // verus!
