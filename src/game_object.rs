//! Objects placed in a level.
use vstd::prelude::*;

use crate::address::{AddressUtils, Ptr};
use crate::field::{encode, field_mapped, field_value, Field, FieldType, FieldValue};
use crate::memory::ForeignMemory;

verus! {

/// The declared fields of a game object.
#[derive(Clone, Copy, Debug, PartialEq, Eq, Structural)]
pub enum GameObjectField {
    IsObjectRectDirty,
    IsOrientedRectDirty,
    HasBeenActivated,
    HasBeenActivatedP2,
}

impl GameObjectField {
    /// Where the field lies and what it holds.
    pub open spec fn spec_field(self) -> Field {
        match self {
            GameObjectField::IsObjectRectDirty => Field { offset: 0x2C8, ty: FieldType::Bool },
            GameObjectField::IsOrientedRectDirty => Field { offset: 0x2C9, ty: FieldType::Bool },
            GameObjectField::HasBeenActivated => Field { offset: 0x2CA, ty: FieldType::Bool },
            GameObjectField::HasBeenActivatedP2 => Field { offset: 0x2CB, ty: FieldType::Bool },
        }
    }

    /// Where the field lies and what it holds.
    pub fn field(self) -> (r: Field)
        ensures
            r == self.spec_field(),
    {
        match self {
            GameObjectField::IsObjectRectDirty => Field { offset: 0x2C8, ty: FieldType::Bool },
            GameObjectField::IsOrientedRectDirty => Field { offset: 0x2C9, ty: FieldType::Bool },
            GameObjectField::HasBeenActivated => Field { offset: 0x2CA, ty: FieldType::Bool },
            GameObjectField::HasBeenActivatedP2 => Field { offset: 0x2CB, ty: FieldType::Bool },
        }
    }
}

/// An object placed in a level.
#[derive(Clone, Copy, Debug, PartialEq, Eq, Structural)]
pub struct GameObject {
    address: Ptr,
}

impl GameObject {
    /// A handle on the game object at `address`; nothing is checked.
    pub fn from_address(address: Ptr) -> (r: GameObject)
        ensures
            r.addr() == address,
    {
        GameObject { address }
    }

    /// Reads the field `f`.
    pub fn get(&self, mem: &ForeignMemory, f: GameObjectField) -> (r: FieldValue)
        requires
            field_mapped(mem, self.addr(), f.spec_field()),
        ensures
            r == field_value(mem, self.addr(), f.spec_field()),
            r.ty() == f.spec_field().ty,
    {
        mem.read_field(self.address, f.field())
    }

    /// Writes `value` into the field `f`.
    pub fn set(&self, mem: &mut ForeignMemory, f: GameObjectField, value: FieldValue)
        requires
            field_mapped(old(mem), self.addr(), f.spec_field()),
            value.ty() == f.spec_field().ty,
        ensures
            final(mem).written(old(mem), self.addr() + f.spec_field().offset, encode(value)),
            field_value(final(mem), self.addr(), f.spec_field()) == value,
    {
        mem.write_field(self.address, f.field(), value)
    }
}

impl From<GameObject> for Ptr {
    fn from(value: GameObject) -> (r: Ptr) {
        value.address
    }
}

impl vstd::std_specs::convert::FromSpecImpl<GameObject> for Ptr {
    open spec fn obeys_from_spec() -> bool {
        true
    }

    open spec fn from_spec(v: GameObject) -> Ptr {
        v.addr()
    }
}

impl AddressUtils for GameObject {
    closed spec fn addr(&self) -> Ptr {
        self.address
    }

    fn ptr(&self) -> (r: Ptr) {
        self.address
    }

    fn is_null(&self) -> (r: bool) {
        self.address == 0
    }

    fn to_option(self) -> (r: Option<Self>) {
        if self.is_null() {
            None
        } else {
            Some(self)
        }
    }
}

} // verus!
