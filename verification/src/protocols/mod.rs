pub mod ethernet2;
pub mod ipv4;
pub mod udp;
