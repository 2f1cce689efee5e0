//! Route-netlink requests that assign an address to an interface and set its
//! administrative state, described field by field.
use vstd::prelude::*;

use crate::addr::{ipv4_target, target_result};
use crate::config::IpAddress;
use crate::error::TunError;
use crate::ioctl::AF_INET;

verus! {

/// Message type: add an address.
pub const RTM_NEWADDR: u16 = 20;

/// Message type: create or modify a link.
pub const RTM_NEWLINK: u16 = 16;

/// Message flag: a request.
pub const NLM_F_REQUEST: u16 = 0x1;

/// Message flag: fail if the object exists.
pub const NLM_F_EXCL: u16 = 0x200;

/// Message flag: create the object.
pub const NLM_F_CREATE: u16 = 0x400;

/// Address flag: permanent, with no lifetime.
pub const IFA_F_PERMANENT: u8 = 0x80;

/// Address scope: global.
pub const RT_SCOPE_UNIVERSE: u8 = 0;

/// Address attribute: the interface address.
pub const IFA_ADDRESS: u16 = 1;

/// Address attribute: the local address.
pub const IFA_LOCAL: u16 = 2;

/// Link flag: administratively up.
pub const IFF_UP: u32 = 0x1;

/// A request to add an IPv4 address to an interface.
#[derive(Debug, Clone)]
pub struct AddressRequest {
    /// Message type.
    pub kind: u16,
    /// Message flags.
    pub flags: u16,
    /// Address family.
    pub family: u8,
    /// Prefix length.
    pub prefix_len: u8,
    /// Address flags.
    pub addr_flags: u8,
    /// Address scope.
    pub scope: u8,
    /// Index of the interface.
    pub index: i32,
    /// Attributes, each a type and its payload.
    pub attributes: Vec<(u16, [u8; 4])>,
}

/// A request to set or clear the up flag of a link.
#[derive(Debug, Clone, Copy)]
pub struct LinkRequest {
    /// Message type.
    pub kind: u16,
    /// Message flags.
    pub flags: u16,
    /// Index of the interface.
    pub index: i32,
    /// New values of the flags selected by `change`.
    pub link_flags: u32,
    /// The flags that the request changes.
    pub change: u32,
}

/// The request adds `octets` with `prefix` to interface `index`: a new,
/// exclusive, permanent address of universe scope, given both as the address
/// and as the local address.
pub open spec fn is_address_request(r: AddressRequest, index: i32, octets: [u8; 4], prefix: u8) -> bool {
    &&& r.kind == RTM_NEWADDR
    &&& r.flags == NLM_F_REQUEST | NLM_F_CREATE | NLM_F_EXCL
    &&& r.family == AF_INET
    &&& r.prefix_len == prefix
    &&& r.addr_flags == IFA_F_PERMANENT
    &&& r.scope == RT_SCOPE_UNIVERSE
    &&& r.index == index
    &&& r.attributes@ == seq![(IFA_ADDRESS, octets), (IFA_LOCAL, octets)]
}

/// The request for assigning `ip` with prefix length `prefix` to interface
/// `index`; or why it cannot be made (IPv6, or a prefix above 32).
pub fn address_request(index: i32, ip: IpAddress, prefix: u8) -> (r: Result<AddressRequest, TunError>)
    ensures
        match target_result(ip, prefix) {
            Ok((octets, _)) => r is Ok && is_address_request(r->Ok_0, index, octets, prefix),
            Err(e) => r == Err::<AddressRequest, TunError>(e),
        },
{
    match ipv4_target(ip, prefix) {
        Err(e) => Err(e),
        Ok((octets, _)) => {
            let attributes = vec![(IFA_ADDRESS, octets), (IFA_LOCAL, octets)];
            assert(attributes@ =~= seq![(IFA_ADDRESS, octets), (IFA_LOCAL, octets)]);
            Ok(
                AddressRequest {
                    kind: RTM_NEWADDR,
                    flags: NLM_F_REQUEST | NLM_F_CREATE | NLM_F_EXCL,
                    family: AF_INET,
                    prefix_len: prefix,
                    addr_flags: IFA_F_PERMANENT,
                    scope: RT_SCOPE_UNIVERSE,
                    index,
                    attributes,
                },
            )
        },
    }
}

/// The request that brings interface `index` up (`up`) or down: it changes
/// the up flag alone.
pub fn link_request(index: i32, up: bool) -> (r: LinkRequest)
    ensures
        r.kind == RTM_NEWLINK,
        r.flags == NLM_F_REQUEST,
        r.index == index,
        r.change == IFF_UP,
        r.link_flags == if up {
            IFF_UP
        } else {
            0u32
        },
{
    LinkRequest {
        kind: RTM_NEWLINK,
        flags: NLM_F_REQUEST,
        index,
        link_flags: if up {
            IFF_UP
        } else {
            0
        },
        change: IFF_UP,
    }
}

} // verus!
