//! Integers as bytes, in either byte order. Fields that the kernel reads in
//! the host's own order take that order as an argument; addresses and
//! address families are always in network (big-endian) order.
use vstd::prelude::*;

verus! {

/// The order of an integer's bytes in memory.
#[derive(Debug, Clone, Copy, PartialEq, Eq)]
pub enum ByteOrder {
    /// Least significant byte first.
    Little,
    /// Most significant byte first; network order.
    Big,
}

/// The two bytes of `x` in `order`.
pub open spec fn u16_bytes(x: u16, order: ByteOrder) -> Seq<u8> {
    match order {
        ByteOrder::Little => seq![(x % 256) as u8, (x / 256) as u8],
        ByteOrder::Big => seq![(x / 256) as u8, (x % 256) as u8],
    }
}

/// The 16-bit value of the bytes `b0`, `b1` (in that order in memory).
pub open spec fn u16_of(b0: u8, b1: u8, order: ByteOrder) -> u16 {
    match order {
        ByteOrder::Little => (b0 + 256 * b1) as u16,
        ByteOrder::Big => (256 * b0 + b1) as u16,
    }
}

/// The four bytes of `x` in network order.
pub open spec fn be32_bytes(x: u32) -> Seq<u8> {
    seq![
        (x / 0x100_0000) as u8,
        (x / 0x1_0000 % 256) as u8,
        (x / 256 % 256) as u8,
        (x % 256) as u8,
    ]
}

/// The four bytes of `x` in `order`.
pub open spec fn u32_bytes(x: u32, order: ByteOrder) -> Seq<u8> {
    match order {
        ByteOrder::Big => be32_bytes(x),
        ByteOrder::Little => be32_bytes(x).reverse(),
    }
}

/// The 32-bit value of four bytes in network order.
pub open spec fn be32_of(b: Seq<u8>) -> u32 {
    (0x100_0000 * b[0] + 0x1_0000 * b[1] + 256 * b[2] + b[3]) as u32
}

/// The 32-bit value of four bytes in `order`.
pub open spec fn u32_of(b: Seq<u8>, order: ByteOrder) -> u32 {
    match order {
        ByteOrder::Big => be32_of(b),
        ByteOrder::Little => be32_of(b.reverse()),
    }
}

/// The bytes of `x` in `order`.
pub fn encode_u16(x: u16, order: ByteOrder) -> (r: [u8; 2])
    ensures
        r@ == u16_bytes(x, order),
{
    let r = match order {
        ByteOrder::Little => [(x % 256) as u8, (x / 256) as u8],
        ByteOrder::Big => [(x / 256) as u8, (x % 256) as u8],
    };
    assert(r@ =~= u16_bytes(x, order));
    r
}

/// The value of the bytes `b0`, `b1` in `order`.
pub fn decode_u16(b0: u8, b1: u8, order: ByteOrder) -> (r: u16)
    ensures
        r == u16_of(b0, b1, order),
{
    match order {
        ByteOrder::Little => b0 as u16 + 256 * (b1 as u16),
        ByteOrder::Big => 256 * (b0 as u16) + b1 as u16,
    }
}

/// The bytes of `x` in `order`.
pub fn encode_u32(x: u32, order: ByteOrder) -> (r: [u8; 4])
    ensures
        r@ == u32_bytes(x, order),
{
    let b0 = (x / 0x100_0000) as u8;
    let b1 = (x / 0x1_0000 % 256) as u8;
    let b2 = (x / 256 % 256) as u8;
    let b3 = (x % 256) as u8;
    let r = match order {
        ByteOrder::Big => [b0, b1, b2, b3],
        ByteOrder::Little => [b3, b2, b1, b0],
    };
    assert(r@ =~= u32_bytes(x, order));
    r
}

/// The value of four bytes in `order`.
pub fn decode_u32(b: &[u8], order: ByteOrder) -> (r: u32)
    requires
        b@.len() == 4,
    ensures
        r == u32_of(b@, order),
{
    let (b0, b1, b2, b3) = match order {
        ByteOrder::Big => (b[0], b[1], b[2], b[3]),
        ByteOrder::Little => (b[3], b[2], b[1], b[0]),
    };
    proof {
        if order == ByteOrder::Little {
            assert(b@.reverse()[0] == b0 && b@.reverse()[1] == b1 && b@.reverse()[2] == b2
                && b@.reverse()[3] == b3);
        }
    }
    0x100_0000 * (b0 as u32) + 0x1_0000 * (b1 as u32) + 256 * (b2 as u32) + b3 as u32
}

proof fn lemma_u16_bits(x: u16, b0: u8, b1: u8)
    ensures
        ((x % 256) as u8 + 256 * ((x / 256) as u8)) as u16 == x,
        (((b0 + 256 * b1) as u16) % 256) as u8 == b0,
        (((b0 + 256 * b1) as u16) / 256) as u8 == b1,
{
    assert(((x % 256) as u8 + 256 * ((x / 256) as u8)) as u16 == x) by (bit_vector);
    assert((((b0 + 256 * b1) as u16) % 256) as u8 == b0) by (bit_vector);
    assert((((b0 + 256 * b1) as u16) / 256) as u8 == b1) by (bit_vector);
}

proof fn lemma_u32_bits(x: u32, b0: u8, b1: u8, b2: u8, b3: u8)
    ensures
        (0x100_0000 * ((x / 0x100_0000) as u8) + 0x1_0000 * ((x / 0x1_0000 % 256) as u8) + 256 * ((x
            / 256 % 256) as u8) + ((x % 256) as u8)) as u32 == x,
        ({
            let y = (0x100_0000 * b0 + 0x1_0000 * b1 + 256 * b2 + b3) as u32;
            &&& (y / 0x100_0000) as u8 == b0
            &&& (y / 0x1_0000 % 256) as u8 == b1
            &&& (y / 256 % 256) as u8 == b2
            &&& (y % 256) as u8 == b3
        }),
{
    assert((0x100_0000 * ((x / 0x100_0000) as u8) + 0x1_0000 * ((x / 0x1_0000 % 256) as u8) + 256 * ((
    x / 256 % 256) as u8) + ((x % 256) as u8)) as u32 == x) by (bit_vector);
    assert(({
        let y = (0x100_0000 * b0 + 0x1_0000 * b1 + 256 * b2 + b3) as u32;
        &&& (y / 0x100_0000) as u8 == b0
        &&& (y / 0x1_0000 % 256) as u8 == b1
        &&& (y / 256 % 256) as u8 == b2
        &&& (y % 256) as u8 == b3
    })) by (bit_vector);
}

/// Writing an integer as bytes and reading them back gives the integer, in
/// either order; and two or four bytes are the encoding of what they read as.
pub proof fn lemma_order_round_trip(x: u16, y: u32, b0: u8, b1: u8, b: Seq<u8>, order: ByteOrder)
    requires
        b.len() == 4,
    ensures
        ({
            let e = u16_bytes(x, order);
            u16_of(e[0], e[1], order) == x
        }),
        u16_bytes(u16_of(b0, b1, order), order) == seq![b0, b1],
        u32_of(u32_bytes(y, order), order) == y,
        u32_bytes(u32_of(b, order), order) == b,
{
    lemma_u16_bits(x, 0, 0);
    lemma_u16_bits(0, b0, b1);
    lemma_u16_bits(0, b1, b0);
    lemma_u32_bits(y, 0, 0, 0, 0);
    assert(be32_bytes(y).reverse().reverse() =~= be32_bytes(y));
    let c = match order {
        ByteOrder::Big => b,
        ByteOrder::Little => b.reverse(),
    };
    lemma_u32_bits(0, c[0], c[1], c[2], c[3]);
    assert(be32_bytes(be32_of(c)) =~= c);
    assert(b.reverse().reverse() =~= b);
    assert(u16_bytes(u16_of(b0, b1, order), order) =~= seq![b0, b1]);
}

} // verus!
