//! The UDP header as it stands on the wire, and the datagram that the peer
//! hands to the transmit path.

use crate::fail::Fail;
use crate::protocols::ethernet2::{EtherType2, Ethernet2Header, MacAddress};
use crate::protocols::ipv4::{Endpoint, Ipv4Addr, Ipv4Header, Ipv4Protocol2};
use vstd::prelude::*;

verus! {

/// The header takes eight bytes: source port, destination port, length and
/// checksum, two bytes each, in network order.
pub const UDP_HEADER_SIZE: usize = 8;

/// The number that two bytes spell in network order.
pub open spec fn network_u16(high: u8, low: u8) -> u16 {
    (high * 256 + low) as u16
}

/// What the header of a datagram says of its ports. A source port of zero on
/// the wire stands for no source port.
#[derive(Clone, Copy, Debug, PartialEq, Eq)]
pub struct UdpHeader {
    pub src_port: Option<u16>,
    pub dst_port: u16,
}

impl UdpHeader {
    /// The header that the first eight bytes of `buf` spell.
    pub open spec fn of_bytes(buf: Seq<u8>) -> UdpHeader
        recommends
            buf.len() >= UDP_HEADER_SIZE,
    {
        UdpHeader {
            src_port: if network_u16(buf[0], buf[1]) == 0 {
                None
            } else {
                Some(network_u16(buf[0], buf[1]))
            },
            dst_port: network_u16(buf[2], buf[3]),
        }
    }

    /// What parsing `buf` gives: the header and the bytes that follow it, or
    /// a failure where `buf` is too short to hold a header.
    pub open spec fn parse_spec(buf: Seq<u8>) -> Result<(UdpHeader, Seq<u8>), Fail> {
        if buf.len() < UDP_HEADER_SIZE {
            Err(Fail::Malformed { details: "UDP segment too small" })
        } else {
            Ok((UdpHeader::of_bytes(buf), buf.subrange(UDP_HEADER_SIZE as int, buf.len() as int)))
        }
    }

    /// Splits a received segment into its header and its payload.
    pub fn parse(buf: &Vec<u8>) -> (parsed: Result<(UdpHeader, Vec<u8>), Fail>)
        ensures
            match parsed {
                Ok((header, data)) => UdpHeader::parse_spec(buf@) == Ok::<_, Fail>((header, data@)),
                Err(e) => UdpHeader::parse_spec(buf@) == Err::<(UdpHeader, Seq<u8>), _>(e),
            },
    {
        if buf.len() < UDP_HEADER_SIZE {
            return Err(Fail::Malformed { details: "UDP segment too small" });
        }
        let src_port = read_network_u16(buf[0], buf[1]);
        let dst_port = read_network_u16(buf[2], buf[3]);
        let mut data: Vec<u8> = Vec::new();
        let mut i: usize = UDP_HEADER_SIZE;
        while i < buf.len()
            invariant
                UDP_HEADER_SIZE <= i <= buf.len(),
                data@ == buf@.subrange(UDP_HEADER_SIZE as int, i as int),
            decreases buf.len() - i,
        {
            data.push(buf[i]);
            i = i + 1;
        }
        let header = UdpHeader { src_port: if src_port == 0 { None } else { Some(src_port) }, dst_port };
        Ok((header, data))
    }
}

/// Reads two bytes as a number in network order.
fn read_network_u16(high: u8, low: u8) -> (value: u16)
    ensures
        value == network_u16(high, low),
{
    (high as u16) * 256 + (low as u16)
}

/// A datagram that is ready for the transmit path.
#[derive(Debug, PartialEq, Eq)]
pub struct UdpDatagram {
    pub ethernet2_hdr: Ethernet2Header,
    pub ipv4_hdr: Ipv4Header,
    pub udp_hdr: UdpHeader,
    pub data: Vec<u8>,
}

/// A datagram with its payload as a sequence of bytes.
pub struct UdpDatagramView {
    pub ethernet2_hdr: Ethernet2Header,
    pub ipv4_hdr: Ipv4Header,
    pub udp_hdr: UdpHeader,
    pub data: Seq<u8>,
}

impl View for UdpDatagram {
    type V = UdpDatagramView;

    open spec fn view(&self) -> UdpDatagramView {
        UdpDatagramView {
            ethernet2_hdr: self.ethernet2_hdr,
            ipv4_hdr: self.ipv4_hdr,
            udp_hdr: self.udp_hdr,
            data: self.data@,
        }
    }
}

/// The datagram that carries `data` from `local`, if the socket is bound, to
/// `remote`, whose link-layer address is `link_addr`. The frame is an IPv4
/// frame from `src_link`, the packet a UDP packet from `src_ip`, and the
/// source port is that of `local`.
pub open spec fn outgoing_datagram(
    link_addr: MacAddress,
    src_link: MacAddress,
    src_ip: Ipv4Addr,
    local: Option<Endpoint>,
    remote: Endpoint,
    data: Seq<u8>,
) -> UdpDatagramView {
    UdpDatagramView {
        ethernet2_hdr: Ethernet2Header {
            dst_addr: link_addr,
            src_addr: src_link,
            ether_type: EtherType2::Ipv4,
        },
        ipv4_hdr: Ipv4Header { src_addr: src_ip, dst_addr: remote.addr, protocol: Ipv4Protocol2::Udp },
        udp_hdr: UdpHeader {
            src_port: match local {
                Some(l) => Some(l.port),
                None => None,
            },
            dst_port: remote.port,
        },
        data,
    }
}

impl UdpDatagram {
    /// Builds the datagram for one send.
    pub fn outgoing(
        link_addr: MacAddress,
        src_link: MacAddress,
        src_ip: Ipv4Addr,
        local: Option<Endpoint>,
        remote: Endpoint,
        data: Vec<u8>,
    ) -> (datagram: UdpDatagram)
        ensures
            datagram@ == outgoing_datagram(link_addr, src_link, src_ip, local, remote, data@),
    {
        UdpDatagram {
            ethernet2_hdr: Ethernet2Header {
                dst_addr: link_addr,
                src_addr: src_link,
                ether_type: EtherType2::Ipv4,
            },
            ipv4_hdr: Ipv4Header::new(src_ip, remote.addr, Ipv4Protocol2::Udp),
            udp_hdr: UdpHeader {
                src_port: match local {
                    Some(l) => Some(l.port),
                    None => None,
                },
                dst_port: remote.port,
            },
            data,
        }
    }
}

} // verus!
