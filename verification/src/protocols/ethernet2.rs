use vstd::prelude::*;

verus! {

/// A link-layer address.
#[derive(Clone, Copy, Debug, PartialEq, Eq)]
pub struct MacAddress {
    pub bytes: [u8; 6],
}

impl MacAddress {
    pub fn new(bytes: [u8; 6]) -> (addr: MacAddress)
        ensures
            addr.bytes == bytes,
    {
        MacAddress { bytes }
    }
}

/// What an Ethernet II frame carries.
#[derive(Clone, Copy, Debug, PartialEq, Eq)]
pub enum EtherType2 {
    Arp,
    Ipv4,
}

#[derive(Clone, Copy, Debug, PartialEq, Eq)]
pub struct Ethernet2Header {
    pub dst_addr: MacAddress,
    pub src_addr: MacAddress,
    pub ether_type: EtherType2,
}

} // verus!
