//! Errors reported by tunnel devices.
use vstd::prelude::*;

verus! {

/// Every way an operation on a tunnel device can fail.
#[derive(Debug, Clone, PartialEq, Eq)]
pub enum TunError {
    /// A string did not hold exactly one terminating NUL byte.
    InvalidCString,
    /// The backend needs a device name and none was configured.
    DeviceNameRequired,
    /// The device name holds a NUL byte at byte offset `pos`.
    DeviceNameContainsNuls { pos: usize },
    /// The device name is `len` bytes long; the kernel field holds `max` bytes
    /// including the terminating NUL.
    DeviceNameTooLong { len: usize, max: usize },
    /// The device name is not valid UTF-8.
    DeviceNameNotUnicode,
    /// The device node could not be opened.
    DeviceOpenFailed,
    /// The kernel refused to create the device.
    DeviceCreateFailed,
    /// The device's identity (name or interface index) could not be resolved.
    DeviceNotFound,
    /// An IPv4 prefix length above 32.
    Ipv4InvalidCidr { cidr: u8 },
    /// IPv6 addresses cannot be assigned.
    Ipv6Unsupported,
    /// The buffer cannot hold what was asked for.
    BufferTooSmall,
    /// A read returned fewer bytes than the packet-info header needs.
    NotEnoughData,
    /// A system call failed with the given OS error code.
    IO { code: i32 },
    /// Any other failure, described in words.
    Generic(String),
}

} // verus!
