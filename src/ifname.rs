//! Interface names as the kernel stores them: a fixed-size, NUL-terminated
//! byte field.
use vstd::prelude::*;
use vstd::string::*;

use crate::error::TunError;

verus! {

/// Size of the kernel's interface-name field, terminating NUL included.
pub const IFNAMSIZ: usize = 16;

/// No byte of `b` is NUL.
pub open spec fn nul_free(b: Seq<u8>) -> bool {
    forall|j: int| 0 <= j < b.len() ==> b[j] != 0u8
}

/// `pos` is the offset of the first NUL byte of `b`.
pub open spec fn first_nul(b: Seq<u8>, pos: int) -> bool {
    &&& 0 <= pos < b.len()
    &&& b[pos] == 0u8
    &&& nul_free(b.subrange(0, pos))
}

/// `b` can name an interface: no NUL, and room left for the terminator.
pub open spec fn valid_name(b: Seq<u8>) -> bool {
    nul_free(b) && b.len() < IFNAMSIZ
}

/// The name field holding `b`: its bytes, then NUL padding up to `IFNAMSIZ`.
pub open spec fn name_field(b: Seq<u8>) -> Seq<u8> {
    b + Seq::new((IFNAMSIZ - b.len()) as nat, |i: int| 0u8)
}

/// What validating the bytes `b` of a requested name gives.
pub open spec fn name_check(b: Seq<u8>, r: Result<InterfaceName, TunError>) -> bool {
    match r {
        Ok(n) => valid_name(b) && n@ == b,
        Err(TunError::DeviceNameContainsNuls { pos }) => first_nul(b, pos as int),
        Err(TunError::DeviceNameTooLong { len, max }) => {
            &&& nul_free(b)
            &&& b.len() >= IFNAMSIZ
            &&& len == b.len()
            &&& max == IFNAMSIZ
        },
        Err(_) => false,
    }
}

/// A validated interface name, without its terminating NUL.
#[derive(Debug, Clone, PartialEq, Eq)]
pub struct InterfaceName {
    bytes: Vec<u8>,
}

impl View for InterfaceName {
    type V = Seq<u8>;

    closed spec fn view(&self) -> Seq<u8> {
        self.bytes@
    }
}

/// Offset of the first NUL byte of `b`, if there is one.
fn find_nul(b: &[u8]) -> (r: Option<usize>)
    ensures
        match r {
            Some(pos) => first_nul(b@, pos as int),
            None => nul_free(b@),
        },
{
    let mut i: usize = 0;
    while i < b.len()
        invariant
            i <= b@.len(),
            nul_free(b@.subrange(0, i as int)),
        decreases b@.len() - i,
    {
        if b[i] == 0 {
            return Some(i);
        }
        assert(b@.subrange(0, (i + 1) as int) =~= b@.subrange(0, i as int).push(b@[i as int]));
        i = i + 1;
    }
    assert(b@.subrange(0, i as int) =~= b@);
    None
}

/// Copy of the first `len` bytes of `b`.
fn prefix_copy(b: &[u8], len: usize) -> (r: Vec<u8>)
    requires
        len <= b@.len(),
    ensures
        r@ == b@.subrange(0, len as int),
{
    let mut r: Vec<u8> = Vec::new();
    let mut i: usize = 0;
    while i < len
        invariant
            i <= len <= b@.len(),
            r@ == b@.subrange(0, i as int),
        decreases len - i,
    {
        r.push(b[i]);
        assert(r@ =~= b@.subrange(0, (i + 1) as int));
        i = i + 1;
    }
    r
}

impl InterfaceName {
    pub open spec fn wf(&self) -> bool {
        valid_name(self@)
    }

    /// Validates the bytes of a requested name: no NUL byte, at most
    /// `IFNAMSIZ - 1` bytes long.
    pub fn from_bytes(b: &[u8]) -> (r: Result<InterfaceName, TunError>)
        ensures
            name_check(b@, r),
            r is Ok ==> r->Ok_0.wf(),
    {
        match find_nul(b) {
            Some(pos) => Err(TunError::DeviceNameContainsNuls { pos }),
            None => {
                if b.len() > IFNAMSIZ - 1 {
                    Err(TunError::DeviceNameTooLong { len: b.len(), max: IFNAMSIZ })
                } else {
                    let bytes = prefix_copy(b, b.len());
                    assert(bytes@ =~= b@);
                    Ok(InterfaceName { bytes })
                }
            },
        }
    }

    /// Validates a requested name, as its UTF-8 bytes.
    pub fn new(name: &str) -> (r: Result<InterfaceName, TunError>)
        ensures
            name_check(name.spec_bytes(), r),
            r is Ok ==> r->Ok_0.wf(),
    {
        InterfaceName::from_bytes(name.as_bytes())
    }

    /// Reads the name that the kernel wrote into a name field: the bytes
    /// before the first NUL. A field without a NUL is refused.
    pub fn from_field(field: &[u8]) -> (r: Result<InterfaceName, TunError>)
        ensures
            match r {
                Ok(n) => exists|pos: int|
                    first_nul(field@, pos) && pos < IFNAMSIZ && n@ == field@.subrange(0, pos),
                Err(e) => e == TunError::InvalidCString && (nul_free(field@) || (exists|pos: int|
                    first_nul(field@, pos) && pos >= IFNAMSIZ)),
            },
            r is Ok ==> r->Ok_0.wf(),
    {
        match find_nul(field) {
            Some(pos) => {
                if pos > IFNAMSIZ - 1 {
                    Err(TunError::InvalidCString)
                } else {
                    let bytes = prefix_copy(field, pos);
                    Ok(InterfaceName { bytes })
                }
            },
            None => Err(TunError::InvalidCString),
        }
    }

    /// The name's bytes, without terminator.
    pub fn to_bytes(&self) -> (r: Vec<u8>)
        ensures
            r@ == self@,
    {
        self.bytes.clone()
    }

    /// The kernel's name field for this name: `IFNAMSIZ` bytes, NUL padded.
    pub fn field(&self) -> (r: Vec<u8>)
        requires
            self.wf(),
        ensures
            r@ == name_field(self@),
            r@.len() == IFNAMSIZ,
    {
        let mut r = self.bytes.clone();
        while r.len() < IFNAMSIZ
            invariant
                self@.len() <= r@.len() <= IFNAMSIZ,
                r@ == self@ + Seq::new((r@.len() - self@.len()) as nat, |i: int| 0u8),
            decreases IFNAMSIZ - r@.len(),
        {
            r.push(0u8);
            assert(r@ =~= self@ + Seq::new((r@.len() - self@.len()) as nat, |i: int| 0u8));
        }
        assert(r@ =~= name_field(self@));
        r
    }
}

} // verus!
