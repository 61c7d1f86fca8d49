//! The settings of the level being played.
use vstd::prelude::*;

use crate::address::{AddressUtils, Ptr};
use crate::field::{field_mapped, field_value, Field, FieldType, FieldValue};
use crate::memory::ForeignMemory;

verus! {

/// The two-player flag of a level's settings.
pub open spec fn two_player_field() -> Field {
    Field { offset: 0xFA, ty: FieldType::Bool }
}

/// The settings of a level.
#[derive(Clone, Copy, Debug, PartialEq, Eq, Structural)]
pub struct LevelSettings {
    address: Ptr,
}

impl LevelSettings {
    /// A handle on the level settings at `address`; nothing is checked.
    pub fn from_address(address: Ptr) -> (r: LevelSettings)
        ensures
            r.addr() == address,
    {
        LevelSettings { address }
    }

    /// Whether the level is played by two players.
    pub fn is_2player(&self, mem: &ForeignMemory) -> (r: bool)
        requires
            field_mapped(mem, self.addr(), two_player_field()),
        ensures
            FieldValue::Bool(r) == field_value(mem, self.addr(), two_player_field()),
    {
        let v = mem.read_field(self.address, Field { offset: 0xFA, ty: FieldType::Bool });
        match v {
            FieldValue::Bool(b) => b,
            _ => false,
        }
    }
}

impl From<LevelSettings> for Ptr {
    fn from(value: LevelSettings) -> (r: Ptr) {
        value.address
    }
}

impl vstd::std_specs::convert::FromSpecImpl<LevelSettings> for Ptr {
    open spec fn obeys_from_spec() -> bool {
        true
    }

    open spec fn from_spec(v: LevelSettings) -> Ptr {
        v.addr()
    }
}

impl AddressUtils for LevelSettings {
    closed spec fn addr(&self) -> Ptr {
        self.address
    }

    fn ptr(&self) -> (r: Ptr) {
        self.address
    }

    fn is_null(&self) -> (r: bool) {
        self.address == 0
    }

    fn to_option(self) -> (r: Option<Self>) {
        if self.is_null() {
            None
        } else {
            Some(self)
        }
    }
}

} // verus!
