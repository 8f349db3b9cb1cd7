//! Verified core of a screen-casting bridge that tunnels video to an iOS
//! device over an IPv6/UDP tunnel.
pub mod wire;
pub mod datagram;
pub mod inbound;
pub mod forwarding;
pub mod device;
pub mod pipeline;
