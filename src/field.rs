//! Field descriptors: a byte offset into an object and the type stored there.
//!
//! Floating-point fields are carried as their IEEE 754 bit patterns; turning
//! them into numbers is left to the caller.
use vstd::bytes::{
    lemma_auto_spec_u32_to_from_le_bytes, lemma_auto_spec_u64_to_from_le_bytes,
    spec_u32_from_le_bytes, spec_u32_to_le_bytes, spec_u64_from_le_bytes, spec_u64_to_le_bytes,
};
use vstd::prelude::*;

use crate::address::{field_address, Ptr};
use crate::memory::{lemma_ptr_bytes_round_trip, ptr_from_bytes, ptr_to_bytes, ptr_width, ForeignMemory};

verus! {

/// What a field holds.
#[derive(Clone, Copy, Debug, PartialEq, Eq, Structural)]
pub enum FieldType {
    /// One byte; anything but zero reads as set.
    Bool,
    /// A signed 32-bit integer.
    I32,
    /// A 32-bit float, as its bit pattern.
    F32,
    /// A 64-bit float, as its bit pattern.
    F64,
    /// A pointer to another object.
    Ptr,
}

impl FieldType {
    /// The number of bytes the field takes.
    pub open spec fn width(self) -> nat {
        match self {
            FieldType::Bool => 1,
            FieldType::I32 => 4,
            FieldType::F32 => 4,
            FieldType::F64 => 8,
            FieldType::Ptr => ptr_width(),
        }
    }

    /// The number of bytes the field takes.
    pub fn size(&self) -> (r: usize)
        ensures
            r == self.width(),
    {
        match self {
            FieldType::Bool => 1,
            FieldType::I32 => 4,
            FieldType::F32 => 4,
            FieldType::F64 => 8,
            FieldType::Ptr => if usize::BITS == 32 {
                4
            } else {
                8
            },
        }
    }
}

/// A field of an object: where it lies past the object's address, and its type.
#[derive(Clone, Copy, Debug, PartialEq, Eq, Structural)]
pub struct Field {
    pub offset: usize,
    pub ty: FieldType,
}

/// A value read from, or to be written into, a field.
#[derive(Clone, Copy, Debug, PartialEq, Eq, Structural)]
pub enum FieldValue {
    Bool(bool),
    I32(i32),
    /// The bit pattern of a 32-bit float.
    F32(u32),
    /// The bit pattern of a 64-bit float.
    F64(u64),
    Ptr(Ptr),
}

impl FieldValue {
    /// The type of field that holds this value.
    pub open spec fn ty(self) -> FieldType {
        match self {
            FieldValue::Bool(_) => FieldType::Bool,
            FieldValue::I32(_) => FieldType::I32,
            FieldValue::F32(_) => FieldType::F32,
            FieldValue::F64(_) => FieldType::F64,
            FieldValue::Ptr(_) => FieldType::Ptr,
        }
    }

    /// The type of field that holds this value.
    pub fn field_type(&self) -> (r: FieldType)
        ensures
            r == self.ty(),
    {
        match self {
            FieldValue::Bool(_) => FieldType::Bool,
            FieldValue::I32(_) => FieldType::I32,
            FieldValue::F32(_) => FieldType::F32,
            FieldValue::F64(_) => FieldType::F64,
            FieldValue::Ptr(_) => FieldType::Ptr,
        }
    }
}

/// The pointer that `value` holds; zero for a value of another type.
pub open spec fn ptr_of(value: FieldValue) -> Ptr {
    match value {
        FieldValue::Ptr(p) => p,
        _ => 0,
    }
}

/// The bytes that store `v`, least significant first.
pub open spec fn encode(v: FieldValue) -> Seq<u8> {
    match v {
        FieldValue::Bool(b) => seq![if b { 1u8 } else { 0u8 }],
        FieldValue::I32(x) => spec_u32_to_le_bytes(x as u32),
        FieldValue::F32(x) => spec_u32_to_le_bytes(x),
        FieldValue::F64(x) => spec_u64_to_le_bytes(x),
        FieldValue::Ptr(p) => ptr_to_bytes(p),
    }
}

/// The value of type `ty` stored in `b`, least significant byte first.
pub open spec fn decode(ty: FieldType, b: Seq<u8>) -> FieldValue {
    match ty {
        FieldType::Bool => FieldValue::Bool(b[0] != 0),
        FieldType::I32 => FieldValue::I32(spec_u32_from_le_bytes(b) as i32),
        FieldType::F32 => FieldValue::F32(spec_u32_from_le_bytes(b)),
        FieldType::F64 => FieldValue::F64(spec_u64_from_le_bytes(b)),
        FieldType::Ptr => FieldValue::Ptr(ptr_from_bytes(b)),
    }
}

/// Decoding the bytes of a value gives the value back, and there are as many
/// bytes as its field is wide.
pub proof fn lemma_encode_decode(v: FieldValue)
    ensures
        encode(v).len() == v.ty().width(),
        decode(v.ty(), encode(v)) == v,
{
    lemma_auto_spec_u32_to_from_le_bytes();
    lemma_auto_spec_u64_to_from_le_bytes();
    match v {
        FieldValue::I32(x) => {
            assert(spec_u32_to_le_bytes(x as u32).len() == 4);
            assert((x as u32) as i32 == x) by (bit_vector);
        },
        FieldValue::F32(x) => {
            assert(spec_u32_to_le_bytes(x).len() == 4);
        },
        FieldValue::F64(x) => {
            assert(spec_u64_to_le_bytes(x).len() == 8);
        },
        FieldValue::Ptr(p) => {
            lemma_ptr_bytes_round_trip(p);
        },
        FieldValue::Bool(_) => {},
    }
}

/// Whether `field` of the object at `object` lies inside `mem`.
pub open spec fn field_mapped(mem: &ForeignMemory, object: Ptr, field: Field) -> bool {
    &&& object + field.offset <= usize::MAX
    &&& mem.maps(object + field.offset, field.ty.width() as int)
}

/// The value of `field` of the object at `object`, as `mem` holds it.
pub open spec fn field_value(mem: &ForeignMemory, object: Ptr, field: Field) -> FieldValue {
    decode(field.ty, mem.bytes_at(object + field.offset, field.ty.width() as int))
}

/// Writing a value into a field and reading that field back gives the value,
/// and no byte outside the field changes.
pub proof fn lemma_field_write_then_read(
    before: &ForeignMemory,
    after: &ForeignMemory,
    object: Ptr,
    field: Field,
    value: FieldValue,
)
    requires
        field_mapped(before, object, field),
        value.ty() == field.ty,
        after.written(before, object + field.offset, encode(value)),
    ensures
        field_mapped(after, object, field),
        field_value(after, object, field) == value,
        forall|a: int|
            before.maps(a, 1) && !(object + field.offset <= a < object + field.offset
                + field.ty.width()) ==> #[trigger] after.bytes_at(a, 1) == before.bytes_at(a, 1),
{
    lemma_encode_decode(value);
    let at = object + field.offset;
    assert(after.bytes_at(at, field.ty.width() as int) =~= encode(value));
    assert forall|a: int|
        before.maps(a, 1) && !(at <= a < at + field.ty.width()) implies #[trigger] after.bytes_at(
        a,
        1,
    ) == before.bytes_at(a, 1) by {
        assert(after.bytes_at(a, 1) =~= before.bytes_at(a, 1));
    }
}

impl ForeignMemory {
    /// Reads `field` of the object at `object`.
    pub fn read_field(&self, object: Ptr, field: Field) -> (r: FieldValue)
        requires
            field_mapped(self, object, field),
        ensures
            r == field_value(self, object, field),
            r.ty() == field.ty,
    {
        let at = field_address(object, field.offset);
        match field.ty {
            FieldType::Bool => {
                let b = self.read_u8(at);
                FieldValue::Bool(b != 0)
            },
            FieldType::I32 => FieldValue::I32(self.read_u32(at) as i32),
            FieldType::F32 => FieldValue::F32(self.read_u32(at)),
            FieldType::F64 => FieldValue::F64(self.read_u64(at)),
            FieldType::Ptr => FieldValue::Ptr(self.read_ptr(at)),
        }
    }

    /// Writes `value` into `field` of the object at `object`.
    pub fn write_field(&mut self, object: Ptr, field: Field, value: FieldValue)
        requires
            field_mapped(old(self), object, field),
            value.ty() == field.ty,
        ensures
            final(self).written(old(self), object + field.offset, encode(value)),
            field_mapped(final(self), object, field),
            field_value(final(self), object, field) == value,
    {
        let at = field_address(object, field.offset);
        match value {
            FieldValue::Bool(b) => self.write_bool(at, b),
            FieldValue::I32(x) => self.write_u32(at, x as u32),
            FieldValue::F32(x) => self.write_u32(at, x),
            FieldValue::F64(x) => self.write_u64(at, x),
            FieldValue::Ptr(p) => self.write_ptr(at, p),
        }
        proof {
            lemma_field_write_then_read(old(self), self, object, field, value);
        }
    }
}

} // verus!
