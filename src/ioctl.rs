//! Byte images of the request structures handed to device and socket ioctls.
//! Integers are in the host's byte order, which the caller passes in;
//! addresses are in network order.
use vstd::prelude::*;

use crate::addr::{broadcast, broadcast_of, ipv4_target, target_result};
use crate::config::IpAddress;
use crate::error::TunError;
use crate::ifname::{name_field, InterfaceName, IFNAMSIZ};
use crate::order::{decode_u32, encode_u16, encode_u32, u16_bytes, u32_bytes, u32_of, ByteOrder};
use crate::pktinfo::{encode_family_header, family_header, family_info};

verus! {

/// Device-creation flag: a layer-3 (TUN) device.
pub const IFF_TUN: u16 = 0x0001;

/// Device-creation flag: no packet-info header on the data channel.
pub const IFF_NO_PI: u16 = 0x1000;

/// Interface flag: administratively up.
pub const IFF_UP: i32 = 0x1;

/// Interface flag: broadcast address valid.
pub const IFF_BROADCAST: i32 = 0x2;

/// Interface flag: supports multicast.
pub const IFF_MULTICAST: i32 = 0x8000;

/// Address family of IPv4.
pub const AF_INET: u8 = 2;

/// Size of an IPv4 socket address record.
pub const SOCKADDR_IN_LEN: u8 = 16;

/// `n` zero bytes.
pub open spec fn zeros(n: nat) -> Seq<u8> {
    Seq::new(n, |i: int| 0u8)
}

/// The creation flags of a TUN device: no header unless packet info is on.
pub open spec fn tun_flags(packet_info: bool) -> u16 {
    if packet_info {
        IFF_TUN
    } else {
        IFF_TUN | IFF_NO_PI
    }
}

/// The device-creation request: the name field, the flags, and 64 bytes of
/// padding for the rest of the union.
pub open spec fn create_request_bytes(name: Seq<u8>, packet_info: bool, order: ByteOrder) -> Seq<
    u8,
> {
    name_field(name) + u16_bytes(tun_flags(packet_info), order) + zeros(64)
}

/// An IPv4 socket address record: length, family, port 0, the address bytes
/// in network order, then 8 bytes of zero.
pub open spec fn sockaddr_in(addr: Seq<u8>) -> Seq<u8> {
    seq![SOCKADDR_IN_LEN, AF_INET, 0u8, 0u8] + addr + zeros(8)
}

/// The address-alias request: name field, then the address, broadcast and
/// mask records, then a zero host id.
pub open spec fn alias_request_bytes(name: Seq<u8>, octets: Seq<u8>, mask: u32) -> Seq<u8> {
    let addr = family_info(octets);
    name_field(name) + sockaddr_in(octets) + sockaddr_in(family_header(broadcast_of(addr, mask)))
        + sockaddr_in(family_header(mask)) + zeros(4)
}

/// The interface-flags request: name field, the flags, 12 bytes of padding.
pub open spec fn flags_request_bytes(name: Seq<u8>, flags: i32, order: ByteOrder) -> Seq<u8> {
    name_field(name) + u32_bytes(flags as u32, order) + zeros(12)
}

/// Size of the interface-flags request.
pub const FLAGS_REQUEST_LEN: usize = 32;

fn push_zeros(v: &mut Vec<u8>, n: usize)
    ensures
        final(v)@ == old(v)@ + zeros(n as nat),
{
    let ghost start = v@;
    let mut i: usize = 0;
    while i < n
        invariant
            i <= n,
            v@ == start + zeros(i as nat),
        decreases n - i,
    {
        v.push(0u8);
        i = i + 1;
        assert(v@ =~= start + zeros(i as nat));
    }
}

fn push_all(v: &mut Vec<u8>, b: &[u8])
    ensures
        final(v)@ == old(v)@ + b@,
{
    let ghost start = v@;
    let mut i: usize = 0;
    while i < b.len()
        invariant
            i <= b@.len(),
            v@ == start + b@.subrange(0, i as int),
        decreases b@.len() - i,
    {
        v.push(b[i]);
        i = i + 1;
        assert(v@ =~= start + b@.subrange(0, i as int));
    }
    assert(b@.subrange(0, b@.len() as int) =~= b@);
}

fn push_sockaddr_in(v: &mut Vec<u8>, addr: &[u8; 4])
    ensures
        final(v)@ == old(v)@ + sockaddr_in(addr@),
{
    let ghost start = v@;
    v.push(SOCKADDR_IN_LEN);
    v.push(AF_INET);
    v.push(0u8);
    v.push(0u8);
    push_all(v, addr);
    push_zeros(v, 8);
    assert(v@ =~= start + sockaddr_in(addr@));
}

/// The device-creation request for `name`, with creation flags chosen by
/// packet-info mode.
pub fn create_request(name: &InterfaceName, packet_info: bool, order: ByteOrder) -> (r: Vec<u8>)
    requires
        name.wf(),
    ensures
        r@ == create_request_bytes(name@, packet_info, order),
{
    let mut r = name.field();
    let flags: u16 = if packet_info {
        IFF_TUN
    } else {
        IFF_TUN | IFF_NO_PI
    };
    let b = encode_u16(flags, order);
    push_all(&mut r, &b);
    push_zeros(&mut r, 64);
    assert(r@ =~= create_request_bytes(name@, packet_info, order));
    r
}

/// The request that assigns `ip` with prefix length `prefix` to the interface
/// `name`, with the broadcast address of the network; or why it cannot be
/// made.
pub fn alias_request(name: &InterfaceName, ip: IpAddress, prefix: u8) -> (r: Result<
    Vec<u8>,
    TunError,
>)
    requires
        name.wf(),
    ensures
        match target_result(ip, prefix) {
            Ok((octets, mask)) => r is Ok && r->Ok_0@ == alias_request_bytes(name@, octets@, mask),
            Err(e) => r == Err::<Vec<u8>, TunError>(e),
        },
{
    match ipv4_target(ip, prefix) {
        Err(e) => Err(e),
        Ok((octets, mask)) => {
            let addr = crate::pktinfo::decode_family_header(&octets);
            let bcast = encode_family_header(broadcast(addr, mask));
            let mask_bytes = encode_family_header(mask);
            let mut r = name.field();
            push_sockaddr_in(&mut r, &octets);
            push_sockaddr_in(&mut r, &bcast);
            push_sockaddr_in(&mut r, &mask_bytes);
            push_zeros(&mut r, 4);
            assert(r@ =~= alias_request_bytes(name@, octets@, mask));
            Ok(r)
        },
    }
}

/// The interface-flags request for `name` carrying `flags`.
pub fn flags_request(name: &InterfaceName, flags: i32, order: ByteOrder) -> (r: Vec<u8>)
    requires
        name.wf(),
    ensures
        r@ == flags_request_bytes(name@, flags, order),
        r@.len() == FLAGS_REQUEST_LEN,
{
    let mut r = name.field();
    let b = encode_u32(flags as u32, order);
    push_all(&mut r, &b);
    push_zeros(&mut r, 12);
    assert(r@ =~= flags_request_bytes(name@, flags, order));
    r
}

/// The flags that the kernel wrote into an interface-flags request.
pub fn flags_of_reply(reply: &[u8], order: ByteOrder) -> (r: i32)
    requires
        reply@.len() == FLAGS_REQUEST_LEN,
    ensures
        r == u32_of(reply@.subrange(IFNAMSIZ as int, IFNAMSIZ + 4), order) as i32,
{
    let field = [reply[16], reply[17], reply[18], reply[19]];
    assert(field@ =~= reply@.subrange(IFNAMSIZ as int, IFNAMSIZ + 4));
    decode_u32(&field, order) as i32
}

/// The flags with the up bit set (`up`) or cleared, every other bit kept.
pub open spec fn with_up_spec(flags: i32, up: bool) -> i32 {
    if up {
        flags | IFF_UP
    } else {
        flags & !IFF_UP
    }
}

/// Sets or clears the up bit of interface flags.
pub fn with_up(flags: i32, up: bool) -> (r: i32)
    ensures
        r == with_up_spec(flags, up),
{
    if up {
        flags | IFF_UP
    } else {
        flags & !IFF_UP
    }
}

/// Setting or clearing the up bit changes that bit alone: the result has it
/// exactly when `up`, and agrees with `flags` on every other bit.
pub proof fn lemma_with_up(flags: i32, up: bool)
    ensures
        (with_up_spec(flags, up) & IFF_UP != 0) == up,
        with_up_spec(flags, up) & !IFF_UP == flags & !IFF_UP,
{
    assert((flags | 1i32) & 1i32 != 0) by (bit_vector);
    assert((flags & !1i32) & 1i32 == 0) by (bit_vector);
    assert((flags | 1i32) & !1i32 == flags & !1i32) by (bit_vector);
    assert((flags & !1i32) & !1i32 == flags & !1i32) by (bit_vector);
}

} // verus!
