//! Byte-addressed memory model and the in-process backend of the accessor.
//!
//! All typed reads and writes of the engine are specified against a partial
//! map from 32-bit addresses to bytes.  [`MemoryImage`] is an executable
//! backend over that model: a synthetic image of an address space, used to
//! run and test the resolution and snapshot logic without an OS process.
//! The OS-backed accessor of the surrounding application performs the same
//! typed transfers against a live process; a transfer that does not
//! complete for the full requested width is reported as
//! [`CaptureError::MemoryAccessFailed`], never conflated with a zero value.

use std::collections::HashMap;
use vstd::prelude::*;

use crate::errors::CaptureError;

verus! {

broadcast use vstd::std_specs::hash::group_hash_axioms;

/// The unsigned value encoded little-endian by four bytes.
pub open spec fn le_u32(b0: u8, b1: u8, b2: u8, b3: u8) -> u32 {
    (b0 + b1 * 0x100 + b2 * 0x10000 + b3 * 0x1000000) as u32
}

/// Whether `m` holds all four bytes of a 32-bit value at `a`.
pub open spec fn mem_has_u32(m: Map<u32, u8>, a: u32) -> bool {
    &&& a + 3 <= u32::MAX
    &&& m.contains_key(a)
    &&& m.contains_key((a + 1) as u32)
    &&& m.contains_key((a + 2) as u32)
    &&& m.contains_key((a + 3) as u32)
}

/// The 32-bit unsigned value stored little-endian at `a`, if all four
/// bytes are present.
pub open spec fn spec_read_u32(m: Map<u32, u8>, a: u32) -> Option<u32> {
    if mem_has_u32(m, a) {
        Some(le_u32(m[a], m[(a + 1) as u32], m[(a + 2) as u32], m[(a + 3) as u32]))
    } else {
        None
    }
}

/// The 32-bit signed value stored little-endian at `a`: the unsigned
/// value reinterpreted in two's complement.
pub open spec fn spec_read_i32(m: Map<u32, u8>, a: u32) -> Option<i32> {
    match spec_read_u32(m, a) {
        Some(v) => Some(v as i32),
        None => None,
    }
}

/// The two maps agree, in domain and in value, on every address outside
/// `[lo, lo + len)`.
pub open spec fn same_outside(m1: Map<u32, u8>, m2: Map<u32, u8>, lo: int, len: int) -> bool {
    &&& forall|x: u32|
        !(lo <= x < lo + len) ==> #[trigger] m2.contains_key(x) == m1.contains_key(x)
    &&& forall|x: u32|
        !(lo <= x < lo + len) && m1.contains_key(x) ==> #[trigger] m2[x] == m1[x]
}

/// A synthetic image of a 32-bit address space: a finite set of populated
/// byte addresses.  Reads of absent addresses fail; writes populate.
pub struct MemoryImage {
    bytes: HashMap<u32, u8>,
}

impl View for MemoryImage {
    type V = Map<u32, u8>;

    closed spec fn view(&self) -> Map<u32, u8> {
        self.bytes@
    }
}

impl MemoryImage {
    /// An image with no populated addresses.
    pub fn new() -> (r: Self)
        ensures
            r@ == Map::<u32, u8>::empty(),
    {
        MemoryImage { bytes: HashMap::new() }
    }

    /// Reads the byte at `addr`, failing if the address is not populated.
    pub fn read_u8(&self, addr: u32) -> (r: Result<u8, CaptureError>)
        ensures
            match r {
                Ok(b) => self@.contains_key(addr) && b == self@[addr],
                Err(e) => !self@.contains_key(addr) && e == CaptureError::MemoryAccessFailed,
            },
    {
        match self.bytes.get(&addr) {
            Some(b) => Ok(*b),
            None => Err(CaptureError::MemoryAccessFailed),
        }
    }

    /// Populates the byte at `addr`.
    pub fn write_u8(&mut self, addr: u32, value: u8)
        ensures
            final(self)@ == old(self)@.insert(addr, value),
    {
        self.bytes.insert(addr, value);
    }

    /// Reads the 32-bit unsigned value stored little-endian at `addr`,
    /// failing if any of the four bytes is absent or the address range
    /// leaves the address space.
    pub fn read_u32(&self, addr: u32) -> (r: Result<u32, CaptureError>)
        ensures
            match r {
                Ok(v) => spec_read_u32(self@, addr) == Some(v),
                Err(e) => spec_read_u32(self@, addr) is None && e == CaptureError::MemoryAccessFailed,
            },
    {
        if addr > u32::MAX - 3 {
            return Err(CaptureError::MemoryAccessFailed);
        }
        let b0 = self.read_u8(addr)?;
        let b1 = self.read_u8(addr + 1)?;
        let b2 = self.read_u8(addr + 2)?;
        let b3 = self.read_u8(addr + 3)?;
        Ok((b0 as u32) + (b1 as u32) * 0x100 + (b2 as u32) * 0x10000 + (b3 as u32) * 0x1000000)
    }

    /// Reads the 32-bit signed value stored little-endian at `addr`.
    pub fn read_i32(&self, addr: u32) -> (r: Result<i32, CaptureError>)
        ensures
            match r {
                Ok(v) => spec_read_i32(self@, addr) == Some(v),
                Err(e) => spec_read_i32(self@, addr) is None && e == CaptureError::MemoryAccessFailed,
            },
    {
        let v = self.read_u32(addr)?;
        Ok(v as i32)
    }

    /// Reads the raw bit pattern of the 32-bit float stored at `addr`.
    /// Float values never leave this crate decoded; the caller
    /// reinterprets the bits.
    pub fn read_f32_bits(&self, addr: u32) -> (r: Result<u32, CaptureError>)
        ensures
            match r {
                Ok(v) => spec_read_u32(self@, addr) == Some(v),
                Err(e) => spec_read_u32(self@, addr) is None && e == CaptureError::MemoryAccessFailed,
            },
    {
        self.read_u32(addr)
    }

    /// Writes `value` little-endian at `addr`, failing without change if
    /// the four-byte range leaves the address space.
    pub fn write_u32(&mut self, addr: u32, value: u32) -> (r: Result<(), CaptureError>)
        ensures
            match r {
                Ok(()) => {
                    &&& spec_read_u32(final(self)@, addr) == Some(value)
                    &&& same_outside(old(self)@, final(self)@, addr as int, 4)
                },
                Err(e) => {
                    &&& addr + 3 > u32::MAX
                    &&& final(self)@ == old(self)@
                    &&& e == CaptureError::MemoryAccessFailed
                },
            },
    {
        if addr > u32::MAX - 3 {
            return Err(CaptureError::MemoryAccessFailed);
        }
        let b0 = (value % 0x100) as u8;
        let b1 = ((value / 0x100) % 0x100) as u8;
        let b2 = ((value / 0x10000) % 0x100) as u8;
        let b3 = (value / 0x1000000) as u8;
        self.write_u8(addr, b0);
        self.write_u8(addr + 1, b1);
        self.write_u8(addr + 2, b2);
        self.write_u8(addr + 3, b3);
        proof {
            assert(le_u32(b0, b1, b2, b3) == value) by (nonlinear_arith)
                requires
                    b0 == value % 0x100,
                    b1 == (value / 0x100) % 0x100,
                    b2 == (value / 0x10000) % 0x100,
                    b3 == value / 0x1000000,
            ;
        }
        Ok(())
    }

    /// Writes the 32-bit signed value little-endian at `addr`.
    pub fn write_i32(&mut self, addr: u32, value: i32) -> (r: Result<(), CaptureError>)
        ensures
            match r {
                Ok(()) => {
                    &&& spec_read_i32(final(self)@, addr) == Some(value)
                    &&& same_outside(old(self)@, final(self)@, addr as int, 4)
                },
                Err(e) => {
                    &&& addr + 3 > u32::MAX
                    &&& final(self)@ == old(self)@
                    &&& e == CaptureError::MemoryAccessFailed
                },
            },
    {
        let r = self.write_u32(addr, value as u32);
        proof {
            assert((value as u32) as i32 == value) by (bit_vector);
        }
        r
    }

    /// Writes the raw bit pattern of a 32-bit float at `addr`.
    pub fn write_f32_bits(&mut self, addr: u32, bits: u32) -> (r: Result<(), CaptureError>)
        ensures
            match r {
                Ok(()) => {
                    &&& spec_read_u32(final(self)@, addr) == Some(bits)
                    &&& same_outside(old(self)@, final(self)@, addr as int, 4)
                },
                Err(e) => {
                    &&& addr + 3 > u32::MAX
                    &&& final(self)@ == old(self)@
                    &&& e == CaptureError::MemoryAccessFailed
                },
            },
    {
        self.write_u32(addr, bits)
    }

    /// Populates the image with `bytes` as one contiguous region starting
    /// at `base`.
    pub fn load_region(&mut self, base: u32, bytes: &[u8])
        requires
            base + bytes@.len() <= u32::MAX + 1,
        ensures
            forall|i: int|
                #![trigger final(self)@[(base + i) as u32]]
                #![trigger final(self)@.contains_key((base + i) as u32)]
                0 <= i < bytes@.len() ==> {
                    &&& final(self)@.contains_key((base + i) as u32)
                    &&& final(self)@[(base + i) as u32] == bytes@[i]
                },
            same_outside(old(self)@, final(self)@, base as int, bytes@.len() as int),
    {
        let n = bytes.len();
        let mut i: usize = 0;
        while i < n
            invariant
                n == bytes@.len(),
                i <= n,
                base + n <= u32::MAX + 1,
                forall|j: int|
                    #![trigger self@[(base + j) as u32]]
                    #![trigger self@.contains_key((base + j) as u32)]
                    0 <= j < i ==> {
                        &&& self@.contains_key((base + j) as u32)
                        &&& self@[(base + j) as u32] == bytes@[j]
                    },
                same_outside(old(self)@, self@, base as int, n as int),
            decreases n - i,
        {
            let b = bytes[i];
            let ghost pre = self@;
            self.write_u8(base + i as u32, b);
            proof {
                assert forall|j: int| 0 <= j < i + 1 implies self@.contains_key((base + j) as u32)
                    && self@[(base + j) as u32] == bytes@[j] by {
                    assert(base + j <= u32::MAX);
                    if j < i {
                        assert(pre.contains_key((base + j) as u32));
                        assert(pre[(base + j) as u32] == bytes@[j]);
                        assert((base + j) as u32 != (base + i as u32));
                    }
                }
            }
            i = i + 1;
        }
    }
}

} // verus!
