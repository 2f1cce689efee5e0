//! IPv4 address arithmetic: subnet masks from prefix lengths and broadcast
//! addresses.
use vstd::prelude::*;

use crate::config::IpAddress;
use crate::error::TunError;

verus! {

/// The mask of a prefix length: `!0 << (32 - prefix)`, and no bits for a
/// prefix of zero (where the shift would be by the full width).
pub open spec fn prefix_mask(prefix: u32) -> u32 {
    if prefix == 0 {
        0
    } else {
        0xffff_ffffu32 << ((32 - prefix) as u32)
    }
}

/// Bit `i` (counted from the least significant) of `x`.
pub open spec fn bit_set(x: u32, i: u32) -> bool {
    (x >> i) & 1u32 == 1u32
}

/// Number of set bits among the `n` least significant bits of `x`.
pub open spec fn popcount_low(x: u32, n: nat) -> nat
    decreases n,
{
    if n == 0 {
        0
    } else {
        popcount_low(x, (n - 1) as nat) + if bit_set(x, (n - 1) as u32) { 1nat } else { 0nat }
    }
}

/// Number of set bits of `x`.
pub open spec fn popcount(x: u32) -> nat {
    popcount_low(x, 32)
}

/// What deriving a mask from a prefix length gives: the mask, or an error for
/// a prefix above 32.
pub open spec fn mask_result(prefix: u8) -> Result<u32, TunError> {
    if prefix <= 32 {
        Ok(prefix_mask(prefix as u32))
    } else {
        Err(TunError::Ipv4InvalidCidr { cidr: prefix })
    }
}

/// The broadcast address of `addr` under `mask`: the host bits all set.
pub open spec fn broadcast_of(addr: u32, mask: u32) -> u32 {
    !mask | addr
}

/// The subnet mask for an IPv4 prefix length, or `Ipv4InvalidCidr` for a
/// prefix above 32.
pub fn ipv4_mask(prefix: u8) -> (r: Result<u32, TunError>)
    ensures
        r == mask_result(prefix),
{
    if prefix > 32 {
        Err(TunError::Ipv4InvalidCidr { cidr: prefix })
    } else if prefix == 0 {
        Ok(0)
    } else {
        let shift: u32 = 32 - prefix as u32;
        Ok(0xffff_ffffu32 << shift)
    }
}

/// The broadcast address of `addr` in the network given by `mask`.
pub fn broadcast(addr: u32, mask: u32) -> (r: u32)
    ensures
        r == broadcast_of(addr, mask),
{
    !mask | addr
}

/// The IPv4 octets and mask that an address assignment targets, or why it
/// cannot be made: IPv6 is not supported, and a prefix above 32 is invalid.
pub open spec fn target_result(ip: IpAddress, prefix: u8) -> Result<([u8; 4], u32), TunError> {
    match ip {
        IpAddress::V6(_) => Err(TunError::Ipv6Unsupported),
        IpAddress::V4(octets) => if prefix <= 32 {
            Ok((octets, prefix_mask(prefix as u32)))
        } else {
            Err(TunError::Ipv4InvalidCidr { cidr: prefix })
        },
    }
}

/// Checks an address to assign: its IPv4 octets and the mask of `prefix`.
pub fn ipv4_target(ip: IpAddress, prefix: u8) -> (r: Result<([u8; 4], u32), TunError>)
    ensures
        r == target_result(ip, prefix),
{
    match ip {
        IpAddress::V6(_) => Err(TunError::Ipv6Unsupported),
        IpAddress::V4(octets) => match ipv4_mask(prefix) {
            Ok(mask) => Ok((octets, mask)),
            Err(e) => Err(e),
        },
    }
}

/// A mask derived from a prefix length is a left-aligned run of ones: bit `i`
/// is set exactly when `i` lies among the `prefix` most significant bits.
pub proof fn lemma_mask_left_aligned(prefix: u32)
    requires
        prefix <= 32,
    ensures
        forall|i: u32| i < 32 ==> (#[trigger] bit_set(prefix_mask(prefix), i) <==> i >= 32 - prefix),
{
    assert forall|i: u32| i < 32 implies (#[trigger] bit_set(prefix_mask(prefix), i) <==> i >= 32
        - prefix) by {
        if prefix == 0 {
            assert((0u32 >> i) & 1u32 != 1u32) by (bit_vector);
        } else {
            let s: u32 = (32 - prefix) as u32;
            assert(s < 32 && i < 32 ==> ((((0xffff_ffffu32 << s) >> i) & 1u32 == 1u32) <==> i >= s))
                by (bit_vector);
        }
    }
}

/// The broadcast address under a prefix mask has every host bit set and
/// keeps the address's network bits.
pub proof fn lemma_broadcast_bits(addr: u32, prefix: u32)
    requires
        prefix <= 32,
    ensures
        forall|i: u32|
            i < 32 ==> (#[trigger] bit_set(broadcast_of(addr, prefix_mask(prefix)), i) <==> (i < 32
                - prefix || bit_set(addr, i))),
{
    assert forall|i: u32| i < 32 implies (#[trigger] bit_set(
        broadcast_of(addr, prefix_mask(prefix)),
        i,
    ) <==> (i < 32 - prefix || bit_set(addr, i))) by {
        if prefix == 0 {
            assert(i < 32 ==> ((!0u32 | addr) >> i) & 1u32 == 1u32) by (bit_vector);
        } else {
            let s: u32 = (32 - prefix) as u32;
            assert(s < 32 && i < 32 ==> (((((!(0xffff_ffffu32 << s)) | addr) >> i) & 1u32 == 1u32)
                <==> (i < s || (addr >> i) & 1u32 == 1u32))) by (bit_vector);
        }
    }
}

/// Among the `n` low bits of a prefix mask, the set ones are those at or
/// above position `32 - prefix`.
proof fn lemma_popcount_low_mask(prefix: u32, n: nat)
    requires
        prefix <= 32,
        n <= 32,
    ensures
        popcount_low(prefix_mask(prefix), n) == if n + prefix >= 32 {
            (n + prefix - 32) as nat
        } else {
            0nat
        },
    decreases n,
{
    if n > 0 {
        lemma_mask_left_aligned(prefix);
        lemma_popcount_low_mask(prefix, (n - 1) as nat);
        assert(bit_set(prefix_mask(prefix), (n - 1) as u32) <==> (n - 1) as u32 >= 32 - prefix);
    }
}

/// A mask derived from a valid prefix length has exactly `prefix` bits set,
/// and they form a left-aligned run; a prefix above 32 is refused.
pub proof fn lemma_prefix_mask(prefix: u8)
    ensures
        prefix <= 32 ==> popcount(prefix_mask(prefix as u32)) == prefix as nat,
        prefix <= 32 ==> forall|i: u32|
            i < 32 ==> (#[trigger] bit_set(prefix_mask(prefix as u32), i) <==> i >= 32 - prefix),
        prefix > 32 ==> mask_result(prefix) == Err::<u32, TunError>(
            TunError::Ipv4InvalidCidr { cidr: prefix },
        ),
{
    if prefix <= 32 {
        lemma_mask_left_aligned(prefix as u32);
        lemma_popcount_low_mask(prefix as u32, 32);
    }
}

} // verus!
