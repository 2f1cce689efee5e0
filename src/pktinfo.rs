//! The packet-info header that precedes each packet on the data channel when
//! packet-info mode is on, and the meaning of a read or write system call's
//! result in either mode.
//!
//! Two layouts exist. With flags: 2 bytes of flags in the host's byte order,
//! then the 2-byte address family in network (big-endian) order. Family only:
//! the 4-byte address family in network order.
use vstd::prelude::*;

use crate::error::TunError;
use crate::order::{
    be32_bytes, be32_of, decode_u16, decode_u32, encode_u16, encode_u32, lemma_order_round_trip,
    u16_bytes, u16_of, ByteOrder,
};

verus! {

/// Length of the packet-info header in both layouts.
pub const HEADER_LEN: usize = 4;

/// Packet info in the layout with flags: `(flags, address family)`.
pub type FlagsInfo = (u16, u16);

/// The header bytes for `(flags, family)` in the layout with flags, the flags
/// in the host's byte order `order`.
pub open spec fn flags_header(info: FlagsInfo, order: ByteOrder) -> Seq<u8> {
    u16_bytes(info.0, order) + u16_bytes(info.1, ByteOrder::Big)
}

/// The `(flags, family)` pair that a 4-byte header in the layout with flags
/// holds, the flags read in the host's byte order `order`.
pub open spec fn flags_info(h: Seq<u8>, order: ByteOrder) -> FlagsInfo {
    (u16_of(h[0], h[1], order), u16_of(h[2], h[3], ByteOrder::Big))
}

/// The header bytes for an address family in the family-only layout.
pub open spec fn family_header(af: u32) -> Seq<u8> {
    be32_bytes(af)
}

/// The address family that a 4-byte header in the family-only layout holds.
pub open spec fn family_info(h: Seq<u8>) -> u32 {
    be32_of(h)
}

/// Encodes `(flags, family)` as a header in the layout with flags.
pub fn encode_flags_header(info: FlagsInfo, order: ByteOrder) -> (r: [u8; 4])
    ensures
        r@ == flags_header(info, order),
{
    let f = encode_u16(info.0, order);
    let a = encode_u16(info.1, ByteOrder::Big);
    let r = [f[0], f[1], a[0], a[1]];
    assert(r@ =~= flags_header(info, order));
    r
}

/// Decodes a header in the layout with flags.
pub fn decode_flags_header(h: &[u8; 4], order: ByteOrder) -> (r: FlagsInfo)
    ensures
        r == flags_info(h@, order),
{
    (decode_u16(h[0], h[1], order), decode_u16(h[2], h[3], ByteOrder::Big))
}

/// Encodes an address family as a header in the family-only layout.
pub fn encode_family_header(af: u32) -> (r: [u8; 4])
    ensures
        r@ == family_header(af),
{
    encode_u32(af, ByteOrder::Big)
}

/// Decodes a header in the family-only layout.
pub fn decode_family_header(h: &[u8; 4]) -> (r: u32)
    ensures
        r == family_info(h@),
{
    decode_u32(h, ByteOrder::Big)
}

/// Encoding packet info and decoding the header gives the same packet info
/// back, in both layouts and either host byte order; and every 4-byte header
/// is the encoding of what it decodes to.
pub proof fn lemma_header_round_trip(info: FlagsInfo, af: u32, h: Seq<u8>, order: ByteOrder)
    requires
        h.len() == HEADER_LEN,
    ensures
        flags_info(flags_header(info, order), order) == info,
        family_info(family_header(af)) == af,
        flags_header(flags_info(h, order), order) == h,
        family_header(family_info(h)) == h,
{
    lemma_order_round_trip(info.0, af, h[0], h[1], h, order);
    lemma_order_round_trip(info.1, af, h[2], h[3], h, ByteOrder::Big);
    assert(flags_header(flags_info(h, order), order) =~= h);
}

/// Number of header bytes that precede each packet in the given mode.
pub open spec fn header_len(packet_info: bool) -> nat {
    if packet_info {
        HEADER_LEN as nat
    } else {
        0
    }
}

/// What a packet read means, given the system call's return value `n` (the
/// bytes transferred, or negative on failure with OS error `errno`), the
/// mode, and what `decode` makes of the header bytes.
pub open spec fn read_outcome<I>(
    packet_info: bool,
    n: isize,
    errno: i32,
    decoded: I,
    blank: I,
) -> Result<(usize, I), TunError> {
    if n < 0 {
        Err(TunError::IO { code: errno })
    } else if !packet_info {
        Ok((n as usize, blank))
    } else if n < HEADER_LEN {
        Err(TunError::NotEnoughData)
    } else {
        Ok(((n - HEADER_LEN) as usize, decoded))
    }
}

/// Interprets a read in the layout with flags: the payload length and the
/// decoded header, or the blank `(0, 0)` when packet-info mode is off. A read
/// too short to hold the header fails with `NotEnoughData`.
pub fn finish_flags_read(
    packet_info: bool,
    n: isize,
    errno: i32,
    hdr: &[u8; 4],
    order: ByteOrder,
) -> (r: Result<
    (usize, FlagsInfo),
    TunError,
>)
    ensures
        r == read_outcome(packet_info, n, errno, flags_info(hdr@, order), (0u16, 0u16)),
{
    if n < 0 {
        Err(TunError::IO { code: errno })
    } else if !packet_info {
        Ok((n as usize, (0u16, 0u16)))
    } else if n < 4 {
        Err(TunError::NotEnoughData)
    } else {
        Ok(((n - 4) as usize, decode_flags_header(hdr, order)))
    }
}

/// Interprets a read in the family-only layout: the payload length and the
/// address family, or the blank `0` when packet-info mode is off. A read too
/// short to hold the header fails with `NotEnoughData`.
pub fn finish_family_read(packet_info: bool, n: isize, errno: i32, hdr: &[u8; 4]) -> (r: Result<
    (usize, u32),
    TunError,
>)
    ensures
        r == read_outcome(packet_info, n, errno, family_info(hdr@), 0u32),
{
    if n < 0 {
        Err(TunError::IO { code: errno })
    } else if !packet_info {
        Ok((n as usize, 0u32))
    } else if n < 4 {
        Err(TunError::NotEnoughData)
    } else {
        Ok(((n - 4) as usize, decode_family_header(hdr)))
    }
}

/// The bytes written before the payload in the layout with flags: the header
/// when packet-info mode is on, nothing otherwise.
pub fn flags_write_prefix(packet_info: bool, info: FlagsInfo, order: ByteOrder) -> (r: Vec<u8>)
    ensures
        packet_info ==> r@ == flags_header(info, order),
        !packet_info ==> r@.len() == 0,
{
    if packet_info {
        let h = encode_flags_header(info, order);
        let r = vec![h[0], h[1], h[2], h[3]];
        assert(r@ =~= flags_header(info, order));
        r
    } else {
        Vec::new()
    }
}

/// The bytes written before the payload in the family-only layout: the header
/// when packet-info mode is on, nothing otherwise.
pub fn family_write_prefix(packet_info: bool, af: u32) -> (r: Vec<u8>)
    ensures
        packet_info ==> r@ == family_header(af),
        !packet_info ==> r@.len() == 0,
{
    if packet_info {
        let h = encode_family_header(af);
        let r = vec![h[0], h[1], h[2], h[3]];
        assert(r@ =~= family_header(af));
        r
    } else {
        Vec::new()
    }
}

/// Interprets a plain read or write: the bytes transferred (for a packet
/// write, header included), or the OS error.
pub fn finish_transfer(n: isize, errno: i32) -> (r: Result<usize, TunError>)
    ensures
        n >= 0 ==> r == Ok::<usize, TunError>(n as usize),
        n < 0 ==> r == Err::<usize, TunError>(TunError::IO { code: errno }),
{
    if n < 0 {
        Err(TunError::IO { code: errno })
    } else {
        Ok(n as usize)
    }
}

/// With packet-info mode off, a read of `n` bytes yields all `n` as payload
/// and the blank packet info; no byte is taken for a header.
pub proof fn lemma_plain_read_keeps_all<I>(n: isize, errno: i32, decoded: I, blank: I)
    requires
        n >= 0,
    ensures
        read_outcome(false, n, errno, decoded, blank) == Ok::<(usize, I), TunError>((n as usize, blank)),
        header_len(false) == 0,
{
}

/// A packet written with a header and read back whole: the read yields the
/// packet info that was encoded and a payload length of the bytes transferred
/// minus the header; a read shorter than a header fails.
pub proof fn lemma_packet_round_trip(info: FlagsInfo, af: u32, n: isize, errno: i32, order: ByteOrder)
    requires
        n >= 0,
    ensures
        n >= HEADER_LEN ==> read_outcome(true, n, errno, flags_info(flags_header(info, order), order), (0u16, 0u16))
            == Ok::<(usize, FlagsInfo), TunError>(((n - HEADER_LEN) as usize, info)),
        n >= HEADER_LEN ==> read_outcome(true, n, errno, family_info(family_header(af)), 0u32)
            == Ok::<(usize, u32), TunError>(((n - HEADER_LEN) as usize, af)),
        n < HEADER_LEN ==> read_outcome(true, n, errno, flags_info(flags_header(info, order), order), (0u16, 0u16))
            == Err::<(usize, FlagsInfo), TunError>(TunError::NotEnoughData),
{
    lemma_header_round_trip(info, af, flags_header(info, order), order);
}

} // verus!
