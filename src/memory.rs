//! A region of host-process memory, seen as a run of bytes at a base address.
//!
//! Reads and writes through a `ForeignMemory` are typed but not validated:
//! nothing here knows which object lives at an address, or whether the bytes
//! there were meant to be read as the type asked for. What the region does
//! check is that every byte touched lies inside it.
use vstd::bytes::{
    lemma_auto_spec_u32_to_from_le_bytes, lemma_auto_spec_u64_to_from_le_bytes,
    spec_u32_from_le_bytes, spec_u32_to_le_bytes, spec_u64_from_le_bytes, spec_u64_to_le_bytes,
    u32_from_le_bytes, u32_to_le_bytes, u64_from_le_bytes, u64_to_le_bytes,
};
use vstd::prelude::*;

use crate::address::Ptr;

verus! {

/// `s` with the bytes from index `at` on replaced by `data`.
pub open spec fn overwrite(s: Seq<u8>, at: int, data: Seq<u8>) -> Seq<u8> {
    Seq::new(s.len(), |i: int| if at <= i < at + data.len() { data[i - at] } else { s[i] })
}

/// The number of bytes a pointer takes in the host process.
pub open spec fn ptr_width() -> nat {
    if usize::BITS == 32 { 4 } else { 8 }
}

/// The bytes that store the pointer `p`, least significant first.
pub open spec fn ptr_to_bytes(p: Ptr) -> Seq<u8> {
    if usize::BITS == 32 {
        spec_u32_to_le_bytes(p as u32)
    } else {
        spec_u64_to_le_bytes(p as u64)
    }
}

/// The pointer stored in `b`, least significant byte first.
pub open spec fn ptr_from_bytes(b: Seq<u8>) -> Ptr {
    if usize::BITS == 32 {
        spec_u32_from_le_bytes(b) as Ptr
    } else {
        spec_u64_from_le_bytes(b) as Ptr
    }
}

/// Reading back the bytes of a pointer gives the pointer.
pub proof fn lemma_ptr_bytes_round_trip(p: Ptr)
    ensures
        ptr_to_bytes(p).len() == ptr_width(),
        ptr_from_bytes(ptr_to_bytes(p)) == p,
{
    lemma_auto_spec_u32_to_from_le_bytes();
    lemma_auto_spec_u64_to_from_le_bytes();
    if usize::BITS == 32 {
        assert(usize::BITS == 32 ==> p as u32 as usize == p) by (bit_vector);
        assert(spec_u32_to_le_bytes(p as u32).len() == 4);
    } else {
        assert(usize::BITS != 32 ==> p as u64 as usize == p) by (bit_vector);
        assert(spec_u64_to_le_bytes(p as u64).len() == 8);
    }
}

/// A copy of the bytes of the host process from `base` on.
pub struct ForeignMemory {
    base: Ptr,
    bytes: Vec<u8>,
}

impl ForeignMemory {
    /// The address of the first byte of the region.
    pub closed spec fn base(&self) -> int {
        self.base as int
    }

    /// The bytes of the region, the first at `base()`.
    pub closed spec fn contents(&self) -> Seq<u8> {
        self.bytes@
    }

    /// Whether the `len` bytes at `address` all lie in the region.
    pub open spec fn maps(&self, address: int, len: int) -> bool {
        &&& self.base() <= address
        &&& 0 <= len
        &&& address + len <= self.base() + self.contents().len()
    }

    /// The `len` bytes at `address`.
    pub open spec fn bytes_at(&self, address: int, len: int) -> Seq<u8> {
        self.contents().subrange(address - self.base(), address - self.base() + len)
    }

    /// Whether `self` is `before` with `data` written at `address`.
    pub open spec fn written(&self, before: &ForeignMemory, address: int, data: Seq<u8>) -> bool {
        &&& self.base() == before.base()
        &&& self.contents() == overwrite(before.contents(), address - before.base(), data)
    }

    /// Whether a string of `n` bytes starts at `address` and is ended by a
    /// zero byte: the `n` bytes are all non-zero and the byte after them is
    /// zero.
    pub open spec fn terminated_at(&self, address: int, n: int) -> bool {
        &&& 0 <= n
        &&& self.maps(address, n + 1)
        &&& self.contents()[address + n - self.base()] == 0
        &&& forall|k: int|
            address - self.base() <= k < address - self.base() + n ==> #[trigger] self.contents()[k]
                != 0
    }

    /// A region holding `bytes` at `base`; none where the region would run
    /// past the top of the address space.
    pub fn new(base: Ptr, bytes: Vec<u8>) -> (r: Option<ForeignMemory>)
        ensures
            r is Some <==> base + bytes@.len() <= usize::MAX,
            r matches Some(m) ==> m.base() == base && m.contents() == bytes@,
    {
        if bytes.len() <= usize::MAX - base {
            Some(ForeignMemory { base, bytes })
        } else {
            None
        }
    }

    /// The address of the first byte of the region.
    pub fn base_address(&self) -> (r: Ptr)
        ensures
            r == self.base(),
    {
        self.base
    }

    /// The number of bytes in the region.
    pub fn len(&self) -> (r: usize)
        ensures
            r == self.contents().len(),
    {
        self.bytes.len()
    }

    /// The bytes of the region, handed back.
    pub fn into_bytes(self) -> (r: Vec<u8>)
        ensures
            r@ == self.contents(),
    {
        self.bytes
    }

    /// Whether the `len` bytes at `address` all lie in the region.
    pub fn contains(&self, address: Ptr, len: usize) -> (r: bool)
        ensures
            r == self.maps(address as int, len as int),
    {
        address >= self.base && address - self.base <= self.bytes.len() && len <= self.bytes.len()
            - (address - self.base)
    }

    /// The byte at `address`.
    pub fn read_u8(&self, address: Ptr) -> (r: u8)
        requires
            self.maps(address as int, 1),
        ensures
            r == self.contents()[address - self.base()],
    {
        self.bytes[address - self.base]
    }

    /// The `len` bytes at `address`.
    pub fn read_bytes(&self, address: Ptr, len: usize) -> (r: Vec<u8>)
        requires
            self.maps(address as int, len as int),
        ensures
            r@ == self.bytes_at(address as int, len as int),
    {
        let start = address - self.base;
        let n = self.bytes.len();
        let mut out: Vec<u8> = Vec::with_capacity(len);
        let mut i: usize = 0;
        while i < len
            invariant
                i <= len,
                start == address - self.base(),
                start + len <= n,
                n == self.bytes@.len(),
                self.maps(address as int, len as int),
                out@ == self.bytes_at(address as int, i as int),
            decreases len - i,
        {
            out.push(self.bytes[start + i]);
            i = i + 1;
            assert(out@ =~= self.bytes_at(address as int, i as int));
        }
        out
    }

    /// Copies `data` into the region at `address`.
    pub fn write_bytes(&mut self, address: Ptr, data: &[u8])
        requires
            old(self).maps(address as int, data@.len() as int),
        ensures
            final(self).written(old(self), address as int, data@),
    {
        let start = address - self.base;
        let n = self.bytes.len();
        let mut i: usize = 0;
        while i < data.len()
            invariant
                i <= data@.len(),
                start == address - old(self).base(),
                start + data@.len() <= n,
                n == self.bytes@.len(),
                old(self).maps(address as int, data@.len() as int),
                self.base() == old(self).base(),
                self.contents() == overwrite(old(self).contents(), start as int, data@.subrange(0, i as int)),
            decreases data@.len() - i,
        {
            self.bytes.set(start + i, data[i]);
            i = i + 1;
            assert(self.contents() =~= overwrite(old(self).contents(), start as int, data@.subrange(0, i as int)));
        }
        assert(data@.subrange(0, data@.len() as int) =~= data@);
    }

    /// The bytes of the zero-terminated string at `address`, without the
    /// terminator; none when the region ends before a zero byte does.
    pub fn read_c_string(&self, address: Ptr) -> (r: Option<Vec<u8>>)
        ensures
            r matches Some(b) ==> self.terminated_at(address as int, b@.len() as int) && b@
                == self.bytes_at(address as int, b@.len() as int),
            r is None ==> forall|n: int| !self.terminated_at(address as int, n),
    {
        let n = self.bytes.len();
        if address < self.base || address - self.base >= n {
            return None;
        }
        let start = address - self.base;
        let mut i = start;
        while i < n && self.bytes[i] != 0
            invariant
                start <= i <= n,
                n == self.bytes@.len(),
                start == address - self.base(),
                forall|k: int| start <= k < i ==> self.bytes@[k] != 0,
            decreases n - i,
        {
            i = i + 1;
        }
        if i == n {
            None
        } else {
            Some(self.read_bytes(address, i - start))
        }
    }

    /// The byte at `address`, read as a flag: anything but zero is set.
    pub fn read_bool(&self, address: Ptr) -> (r: bool)
        requires
            self.maps(address as int, 1),
        ensures
            r == (self.contents()[address - self.base()] != 0),
    {
        self.read_u8(address) != 0
    }

    /// Stores a flag at `address` as one byte, 1 or 0.
    pub fn write_bool(&mut self, address: Ptr, value: bool)
        requires
            old(self).maps(address as int, 1),
        ensures
            final(self).written(old(self), address as int, seq![if value { 1u8 } else { 0u8 }]),
    {
        let b: u8 = if value { 1 } else { 0 };
        let data: Vec<u8> = vec![b];
        assert(data@ =~= seq![if value { 1u8 } else { 0u8 }]);
        self.write_bytes(address, data.as_slice());
    }

    /// The four bytes at `address`, least significant first.
    pub fn read_u32(&self, address: Ptr) -> (r: u32)
        requires
            self.maps(address as int, 4),
        ensures
            r == spec_u32_from_le_bytes(self.bytes_at(address as int, 4)),
    {
        let b = self.read_bytes(address, 4);
        u32_from_le_bytes(b.as_slice())
    }

    /// Stores `value` at `address` in four bytes, least significant first.
    pub fn write_u32(&mut self, address: Ptr, value: u32)
        requires
            old(self).maps(address as int, 4),
        ensures
            final(self).written(old(self), address as int, spec_u32_to_le_bytes(value)),
    {
        let b = u32_to_le_bytes(value);
        self.write_bytes(address, b.as_slice());
    }

    /// The eight bytes at `address`, least significant first.
    pub fn read_u64(&self, address: Ptr) -> (r: u64)
        requires
            self.maps(address as int, 8),
        ensures
            r == spec_u64_from_le_bytes(self.bytes_at(address as int, 8)),
    {
        let b = self.read_bytes(address, 8);
        u64_from_le_bytes(b.as_slice())
    }

    /// Stores `value` at `address` in eight bytes, least significant first.
    pub fn write_u64(&mut self, address: Ptr, value: u64)
        requires
            old(self).maps(address as int, 8),
        ensures
            final(self).written(old(self), address as int, spec_u64_to_le_bytes(value)),
    {
        let b = u64_to_le_bytes(value);
        self.write_bytes(address, b.as_slice());
    }

    /// The pointer stored at `address`.
    pub fn read_ptr(&self, address: Ptr) -> (r: Ptr)
        requires
            self.maps(address as int, ptr_width() as int),
        ensures
            r == ptr_from_bytes(self.bytes_at(address as int, ptr_width() as int)),
    {
        if usize::BITS == 32 {
            self.read_u32(address) as Ptr
        } else {
            self.read_u64(address) as Ptr
        }
    }

    /// Stores the pointer `value` at `address`.
    pub fn write_ptr(&mut self, address: Ptr, value: Ptr)
        requires
            old(self).maps(address as int, ptr_width() as int),
        ensures
            final(self).written(old(self), address as int, ptr_to_bytes(value)),
    {
        proof {
            lemma_ptr_bytes_round_trip(value);
        }
        if usize::BITS == 32 {
            self.write_u32(address, value as u32);
        } else {
            self.write_u64(address, value as u64);
        }
    }
}

} // verus!
