pub mod datagram;
pub mod listener;
pub mod model;
pub mod outgoing;
pub mod peer;
pub mod tables;
