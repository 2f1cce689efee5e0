//! The configuration a device is created with.
use vstd::prelude::*;
use vstd::utf8::encode_utf8;

use crate::error::TunError;
use crate::ifname::{name_check, InterfaceName};

verus! {

/// An IP address, as its octets in network order.
#[derive(Debug, Clone, Copy, PartialEq, Eq)]
pub enum IpAddress {
    V4([u8; 4]),
    V6([u8; 16]),
}

impl From<[u8; 4]> for IpAddress {
    fn from(octets: [u8; 4]) -> (r: IpAddress)
        ensures
            r == IpAddress::V4(octets),
    {
        IpAddress::V4(octets)
    }
}

impl vstd::std_specs::convert::FromSpecImpl<[u8; 4]> for IpAddress {
    open spec fn obeys_from_spec() -> bool {
        true
    }

    open spec fn from_spec(v: [u8; 4]) -> IpAddress {
        IpAddress::V4(v)
    }
}

impl From<[u8; 16]> for IpAddress {
    fn from(octets: [u8; 16]) -> (r: IpAddress)
        ensures
            r == IpAddress::V6(octets),
    {
        IpAddress::V6(octets)
    }
}

impl vstd::std_specs::convert::FromSpecImpl<[u8; 16]> for IpAddress {
    open spec fn obeys_from_spec() -> bool {
        true
    }

    open spec fn from_spec(v: [u8; 16]) -> IpAddress {
        IpAddress::V6(v)
    }
}

/// Configuration for a new TUN device, built up by chained calls and handed
/// once to the device's `create`.
#[derive(Debug, Clone)]
pub struct TunConfig {
    /// IP address and prefix length to assign the device.
    pub ip: Option<(IpAddress, u8)>,
    /// Name to give the interface.
    pub name: Option<String>,
    /// Whether each packet carries a packet-info header.
    pub packet_info: bool,
}

impl Default for TunConfig {
    fn default() -> (r: TunConfig)
        ensures
            r.ip is None,
            r.name is None,
            !r.packet_info,
    {
        TunConfig { ip: None, name: None, packet_info: false }
    }
}

impl TunConfig {
    /// Sets the IP address and prefix length to assign the device. The prefix
    /// is checked when the address is applied: at most 32 for IPv4.
    pub fn ip<A>(self, ip: A, cidr: u8) -> (r: TunConfig) where IpAddress: From<A>
        ensures
            <IpAddress as vstd::std_specs::convert::FromSpec<A>>::obeys_from_spec() ==> r.ip == Some(
                (<IpAddress as vstd::std_specs::convert::FromSpec<A>>::from_spec(ip), cidr),
            ),
            r.ip is Some && r.ip->Some_0.1 == cidr,
            r.name == self.name,
            r.packet_info == self.packet_info,
    {
        let addr = IpAddress::from(ip);
        TunConfig { ip: Some((addr, cidr)), ..self }
    }

    /// Sets the name of the interface.
    pub fn name(self, name: &str) -> (r: TunConfig)
        ensures
            r.name is Some && r.name->Some_0@ == name@,
            r.ip == self.ip,
            r.packet_info == self.packet_info,
    {
        TunConfig { name: Some(name.to_owned()), ..self }
    }

    /// The validated interface name that the configuration asks for, or
    /// `DeviceNameRequired` when it names none.
    pub fn required_name(&self) -> (r: Result<InterfaceName, TunError>)
        ensures
            self.name is None ==> r == Err::<InterfaceName, TunError>(TunError::DeviceNameRequired),
            self.name is Some ==> name_check(encode_utf8(self.name->Some_0@), r),
            r is Ok ==> r->Ok_0.wf(),
    {
        match &self.name {
            Some(name) => InterfaceName::new(name.as_str()),
            None => Err(TunError::DeviceNameRequired),
        }
    }

    /// Turns packet-info mode on or off: whether each packet read or written
    /// is preceded by a packet-info header.
    pub fn packet_info(self, enabled: bool) -> (r: TunConfig)
        ensures
            r.packet_info == enabled,
            r.ip == self.ip,
            r.name == self.name,
    {
        TunConfig { packet_info: enabled, ..self }
    }
}

} // verus!
