//! The game's audio engine, built on FMOD.
use vstd::prelude::*;

use crate::address::{AddressUtils, Ptr};
use crate::field::{encode, field_mapped, field_value, Field, FieldType, FieldValue};
use crate::foreign::{CallingConvention, ForeignFn, Receiver};
use crate::location::Location;
use crate::memory::ForeignMemory;

verus! {

/// The declared fields of the audio engine: pointers to FMOD objects.
#[derive(Clone, Copy, Debug, PartialEq, Eq, Structural)]
pub enum FMODAudioEngineField {
    /// The FMOD system.
    System,
    /// The channel of the sound being played.
    CurrentSoundChannel,
    /// Driver data handed to FMOD.
    ExtraDriverData,
}

impl FMODAudioEngineField {
    /// Where the field lies and what it holds.
    pub open spec fn spec_field(self) -> Field {
        match self {
            FMODAudioEngineField::System => Field { offset: 0x128, ty: FieldType::Ptr },
            FMODAudioEngineField::CurrentSoundChannel => Field { offset: 0x130, ty: FieldType::Ptr },
            FMODAudioEngineField::ExtraDriverData => Field { offset: 0x140, ty: FieldType::Ptr },
        }
    }

    /// Where the field lies and what it holds.
    pub fn field(self) -> (r: Field)
        ensures
            r == self.spec_field(),
    {
        match self {
            FMODAudioEngineField::System => Field { offset: 0x128, ty: FieldType::Ptr },
            FMODAudioEngineField::CurrentSoundChannel => Field { offset: 0x130, ty: FieldType::Ptr },
            FMODAudioEngineField::ExtraDriverData => Field { offset: 0x140, ty: FieldType::Ptr },
        }
    }
}

/// The game's audio engine.
#[derive(Clone, Copy, Debug, PartialEq, Eq, Structural)]
pub struct FMODAudioEngine {
    address: Ptr,
}

impl FMODAudioEngine {
    /// A handle on the audio engine at `address`; nothing is checked.
    pub fn from_address(address: Ptr) -> (r: FMODAudioEngine)
        ensures
            r.addr() == address,
    {
        FMODAudioEngine { address }
    }

    /// `FMODAudioEngine::sharedEngine`: returns the engine's address, zero before it exists.
    pub fn shared_fn() -> (r: ForeignFn)
        ensures
            r == (ForeignFn {
                location: Location::BaseOffset(0x239f0),
                convention: CallingConvention::Stdcall,
                receiver: Receiver::Free,
            }),
    {
        ForeignFn {
            location: Location::BaseOffset(0x239f0),
            convention: CallingConvention::Stdcall,
            receiver: Receiver::Free,
        }
    }

    /// Reads the field `f`.
    pub fn get(&self, mem: &ForeignMemory, f: FMODAudioEngineField) -> (r: FieldValue)
        requires
            field_mapped(mem, self.addr(), f.spec_field()),
        ensures
            r == field_value(mem, self.addr(), f.spec_field()),
            r.ty() == f.spec_field().ty,
    {
        mem.read_field(self.address, f.field())
    }

    /// Writes `value` into the field `f`.
    pub fn set(&self, mem: &mut ForeignMemory, f: FMODAudioEngineField, value: FieldValue)
        requires
            field_mapped(old(mem), self.addr(), f.spec_field()),
            value.ty() == f.spec_field().ty,
        ensures
            final(mem).written(old(mem), self.addr() + f.spec_field().offset, encode(value)),
            field_value(final(mem), self.addr(), f.spec_field()) == value,
    {
        mem.write_field(self.address, f.field(), value)
    }
}

impl From<FMODAudioEngine> for Ptr {
    fn from(value: FMODAudioEngine) -> (r: Ptr) {
        value.address
    }
}

impl vstd::std_specs::convert::FromSpecImpl<FMODAudioEngine> for Ptr {
    open spec fn obeys_from_spec() -> bool {
        true
    }

    open spec fn from_spec(v: FMODAudioEngine) -> Ptr {
        v.addr()
    }
}

impl AddressUtils for FMODAudioEngine {
    closed spec fn addr(&self) -> Ptr {
        self.address
    }

    fn ptr(&self) -> (r: Ptr) {
        self.address
    }

    fn is_null(&self) -> (r: bool) {
        self.address == 0
    }

    fn to_option(self) -> (r: Option<Self>) {
        if self.is_null() {
            None
        } else {
            Some(self)
        }
    }
}

} // verus!
