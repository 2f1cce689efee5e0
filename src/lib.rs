//! Platform-agnostic layer-3 tunnel (TUN) devices: the verified logic behind
//! device creation, address configuration, packet framing and teardown.
//!
//! The system calls themselves are made by a backend around this library; it
//! hands each result back, and the functions here decide what it means and
//! what comes next.

pub mod addr;
pub mod channel;
pub mod config;
pub mod error;
pub mod ifname;
pub mod ioctl;
pub mod lifecycle;
pub mod netlink;
pub mod order;
pub mod pktinfo;
pub mod tun;

pub use error::TunError;
