//! The layer that runs a level while it is played.
use vstd::prelude::*;

use crate::address::{AddressUtils, Ptr};
use crate::field::{encode, field_mapped, field_value, ptr_of, Field, FieldType, FieldValue};
use crate::foreign::{CallingConvention, ForeignFn, Receiver};
use crate::location::Location;
use crate::level_settings::LevelSettings;
use crate::memory::ForeignMemory;
use crate::player_object::{PlayerObject, PlayerObjectField};

verus! {

/// The declared fields of a play layer.
#[derive(Clone, Copy, Debug, PartialEq, Eq, Structural)]
pub enum PlayLayerField {
    IsDeadRaw,
    LevelLength,
    IsPracticeMode,
    IsTestMode,
    CurrentAttempt,
    Time,
    HasLevelCompleteMenu,
    HasCompletedLevel,
    JumpCount,
    AttemptJumpCount,
    LastDeathPercent,
    CameraX,
    CameraY,
    Player1,
    Player2,
    LevelSettings,
}

impl PlayLayerField {
    /// Where the field lies and what it holds.
    pub open spec fn spec_field(self) -> Field {
        match self {
            PlayLayerField::IsDeadRaw => Field { offset: 0x39C, ty: FieldType::Bool },
            PlayLayerField::LevelLength => Field { offset: 0x3B4, ty: FieldType::F32 },
            PlayLayerField::IsPracticeMode => Field { offset: 0x495, ty: FieldType::Bool },
            PlayLayerField::IsTestMode => Field { offset: 0x494, ty: FieldType::Bool },
            PlayLayerField::CurrentAttempt => Field { offset: 0x4A8, ty: FieldType::Bool },
            PlayLayerField::Time => Field { offset: 0x450, ty: FieldType::F64 },
            PlayLayerField::HasLevelCompleteMenu => Field { offset: 0x4BD, ty: FieldType::Bool },
            PlayLayerField::HasCompletedLevel => Field { offset: 0x4BE, ty: FieldType::Bool },
            PlayLayerField::JumpCount => Field { offset: 0x4AC, ty: FieldType::I32 },
            PlayLayerField::AttemptJumpCount => Field { offset: 0x4B8, ty: FieldType::I32 },
            PlayLayerField::LastDeathPercent => Field { offset: 0x4C0, ty: FieldType::I32 },
            PlayLayerField::CameraX => Field { offset: 0x48C, ty: FieldType::F32 },
            PlayLayerField::CameraY => Field { offset: 0x490, ty: FieldType::F32 },
            PlayLayerField::Player1 => Field { offset: 0x224, ty: FieldType::Ptr },
            PlayLayerField::Player2 => Field { offset: 0x228, ty: FieldType::Ptr },
            PlayLayerField::LevelSettings => Field { offset: 0x22C, ty: FieldType::Ptr },
        }
    }

    /// Where the field lies and what it holds.
    pub fn field(self) -> (r: Field)
        ensures
            r == self.spec_field(),
    {
        match self {
            PlayLayerField::IsDeadRaw => Field { offset: 0x39C, ty: FieldType::Bool },
            PlayLayerField::LevelLength => Field { offset: 0x3B4, ty: FieldType::F32 },
            PlayLayerField::IsPracticeMode => Field { offset: 0x495, ty: FieldType::Bool },
            PlayLayerField::IsTestMode => Field { offset: 0x494, ty: FieldType::Bool },
            PlayLayerField::CurrentAttempt => Field { offset: 0x4A8, ty: FieldType::Bool },
            PlayLayerField::Time => Field { offset: 0x450, ty: FieldType::F64 },
            PlayLayerField::HasLevelCompleteMenu => Field { offset: 0x4BD, ty: FieldType::Bool },
            PlayLayerField::HasCompletedLevel => Field { offset: 0x4BE, ty: FieldType::Bool },
            PlayLayerField::JumpCount => Field { offset: 0x4AC, ty: FieldType::I32 },
            PlayLayerField::AttemptJumpCount => Field { offset: 0x4B8, ty: FieldType::I32 },
            PlayLayerField::LastDeathPercent => Field { offset: 0x4C0, ty: FieldType::I32 },
            PlayLayerField::CameraX => Field { offset: 0x48C, ty: FieldType::F32 },
            PlayLayerField::CameraY => Field { offset: 0x490, ty: FieldType::F32 },
            PlayLayerField::Player1 => Field { offset: 0x224, ty: FieldType::Ptr },
            PlayLayerField::Player2 => Field { offset: 0x228, ty: FieldType::Ptr },
            PlayLayerField::LevelSettings => Field { offset: 0x22C, ty: FieldType::Ptr },
        }
    }
}

/// Whether a 32-bit float with these bits compares unequal to zero: it is
/// neither +0.0 nor -0.0 (a NaN is unequal to everything).
pub open spec fn f32_bits_nonzero(bits: u32) -> bool {
    bits & 0x7fff_ffff != 0
}

/// The address held in the pointer field `f` of the play layer at `object`.
pub open spec fn pointer_at(mem: &ForeignMemory, object: Ptr, f: PlayLayerField) -> Ptr {
    ptr_of(field_value(mem, object, f.spec_field()))
}

/// Whether the raw death flag of the play layer at `object` is set.
pub open spec fn dead_flag_at(mem: &ForeignMemory, object: Ptr) -> bool {
    field_value(mem, object, PlayLayerField::IsDeadRaw.spec_field()) == FieldValue::Bool(true)
}

/// Whether the first player of the play layer at `object` stands away from x = 0.
pub open spec fn player1_moved_at(mem: &ForeignMemory, object: Ptr) -> bool {
    field_value(mem, pointer_at(mem, object, PlayLayerField::Player1), PlayerObjectField::X.spec_field())
        matches FieldValue::F32(bits) && f32_bits_nonzero(bits)
}

/// Whether what `is_dead` reads of the play layer at `object` lies in `mem`.
pub open spec fn death_mapped(mem: &ForeignMemory, object: Ptr) -> bool {
    &&& field_mapped(mem, object, PlayLayerField::IsDeadRaw.spec_field())
    &&& field_mapped(mem, object, PlayLayerField::Player1.spec_field())
    &&& dead_flag_at(mem, object) ==> field_mapped(
        mem,
        pointer_at(mem, object, PlayLayerField::Player1),
        PlayerObjectField::X.spec_field(),
    )
}

/// The layer that runs a level.
#[derive(Clone, Copy, Debug, PartialEq, Eq, Structural)]
pub struct PlayLayer {
    address: Ptr,
}

impl PlayLayer {
    /// A handle on the play layer at `address`; nothing is checked.
    pub fn from_address(address: Ptr) -> (r: PlayLayer)
        ensures
            r.addr() == address,
    {
        PlayLayer { address }
    }

    /// `PlayLayer::create`: takes the address of a level and returns the new layer's address.
    pub fn create_fn() -> (r: ForeignFn)
        ensures
            r == (ForeignFn {
                location: Location::BaseOffset(0x1FB6D0),
                convention: CallingConvention::Fastcall,
                receiver: Receiver::Free,
            }),
    {
        ForeignFn {
            location: Location::BaseOffset(0x1FB6D0),
            convention: CallingConvention::Fastcall,
            receiver: Receiver::Free,
        }
    }

    /// Gets the time (in seconds) for a given X position: takes and returns a 32-bit float.
    pub fn time_for_xpos_fn() -> (r: ForeignFn)
        ensures
            r == (ForeignFn {
                location: Location::BaseOffset(0x2087D0),
                convention: CallingConvention::Fastcall,
                receiver: Receiver::This,
            }),
    {
        ForeignFn {
            location: Location::BaseOffset(0x2087D0),
            convention: CallingConvention::Fastcall,
            receiver: Receiver::This,
        }
    }

    /// Toggles practice mode: takes a flag.
    pub fn toggle_practice_mode_fn() -> (r: ForeignFn)
        ensures
            r == (ForeignFn {
                location: Location::BaseOffset(0x20D0D0),
                convention: CallingConvention::Fastcall,
                receiver: Receiver::This,
            }),
    {
        ForeignFn {
            location: Location::BaseOffset(0x20D0D0),
            convention: CallingConvention::Fastcall,
            receiver: Receiver::This,
        }
    }

    /// Removes the last practice checkpoint.
    pub fn remove_last_checkpoint_fn() -> (r: ForeignFn)
        ensures
            r == (ForeignFn {
                location: Location::BaseOffset(0x20B830),
                convention: CallingConvention::Fastcall,
                receiver: Receiver::This,
            }),
    {
        ForeignFn {
            location: Location::BaseOffset(0x20B830),
            convention: CallingConvention::Fastcall,
            receiver: Receiver::This,
        }
    }

    /// Checks for player collisions: takes a player object's address and returns a flag.
    pub fn check_collisions_fn() -> (r: ForeignFn)
        ensures
            r == (ForeignFn {
                location: Location::BaseOffset(0x203CD0),
                convention: CallingConvention::Fastcall,
                receiver: Receiver::This,
            }),
    {
        ForeignFn {
            location: Location::BaseOffset(0x203CD0),
            convention: CallingConvention::Fastcall,
            receiver: Receiver::This,
        }
    }

    /// Pauses the game: takes a flag.
    pub fn pause_game_fn() -> (r: ForeignFn)
        ensures
            r == (ForeignFn {
                location: Location::BaseOffset(0x20D3C0),
                convention: CallingConvention::Fastcall,
                receiver: Receiver::This,
            }),
    {
        ForeignFn {
            location: Location::BaseOffset(0x20D3C0),
            convention: CallingConvention::Fastcall,
            receiver: Receiver::This,
        }
    }

    /// Restarts the level.
    pub fn reset_level_fn() -> (r: ForeignFn)
        ensures
            r == (ForeignFn {
                location: Location::BaseOffset(0x20BF00),
                convention: CallingConvention::Fastcall,
                receiver: Receiver::This,
            }),
    {
        ForeignFn {
            location: Location::BaseOffset(0x20BF00),
            convention: CallingConvention::Fastcall,
            receiver: Receiver::This,
        }
    }

    /// Reads the field `f`.
    pub fn get(&self, mem: &ForeignMemory, f: PlayLayerField) -> (r: FieldValue)
        requires
            field_mapped(mem, self.addr(), f.spec_field()),
        ensures
            r == field_value(mem, self.addr(), f.spec_field()),
            r.ty() == f.spec_field().ty,
    {
        mem.read_field(self.address, f.field())
    }

    /// Writes `value` into the field `f`.
    pub fn set(&self, mem: &mut ForeignMemory, f: PlayLayerField, value: FieldValue)
        requires
            field_mapped(old(mem), self.addr(), f.spec_field()),
            value.ty() == f.spec_field().ty,
        ensures
            final(mem).written(old(mem), self.addr() + f.spec_field().offset, encode(value)),
            field_value(final(mem), self.addr(), f.spec_field()) == value,
    {
        mem.write_field(self.address, f.field(), value)
    }

    /// The address held in the pointer field `f`.
    fn read_pointer(&self, mem: &ForeignMemory, f: PlayLayerField) -> (r: Ptr)
        requires
            f.spec_field().ty == FieldType::Ptr,
            field_mapped(mem, self.addr(), f.spec_field()),
        ensures
            r == pointer_at(mem, self.addr(), f),
    {
        match mem.read_field(self.address, f.field()) {
            FieldValue::Ptr(p) => p,
            _ => 0,
        }
    }

    /// Returns true if the player is dead: the raw death flag is set and the
    /// first player is not at x = 0.
    pub fn is_dead(&self, mem: &ForeignMemory) -> (r: bool)
        requires
            death_mapped(mem, self.addr()),
        ensures
            r == (dead_flag_at(mem, self.addr()) && player1_moved_at(mem, self.addr())),
    {
        let flag = match mem.read_field(self.address, PlayLayerField::IsDeadRaw.field()) {
            FieldValue::Bool(b) => b,
            _ => false,
        };
        if !flag {
            return false;
        }
        let player = self.player1(mem);
        match player.get(mem, PlayerObjectField::X) {
            FieldValue::F32(bits) => bits & 0x7fff_ffff != 0,
            _ => false,
        }
    }

    /// The first player.
    pub fn player1(&self, mem: &ForeignMemory) -> (r: PlayerObject)
        requires
            field_mapped(mem, self.addr(), PlayLayerField::Player1.spec_field()),
        ensures
            r.addr() == pointer_at(mem, self.addr(), PlayLayerField::Player1),
    {
        PlayerObject::from_address(self.read_pointer(mem, PlayLayerField::Player1))
    }

    /// The second player.
    pub fn player2(&self, mem: &ForeignMemory) -> (r: PlayerObject)
        requires
            field_mapped(mem, self.addr(), PlayLayerField::Player2.spec_field()),
        ensures
            r.addr() == pointer_at(mem, self.addr(), PlayLayerField::Player2),
    {
        PlayerObject::from_address(self.read_pointer(mem, PlayLayerField::Player2))
    }

    /// Makes `player1` the first player.
    pub fn set_player1(&self, mem: &mut ForeignMemory, player1: PlayerObject)
        requires
            field_mapped(old(mem), self.addr(), PlayLayerField::Player1.spec_field()),
        ensures
            final(mem).written(
                old(mem),
                self.addr() + PlayLayerField::Player1.spec_field().offset,
                encode(FieldValue::Ptr(player1.addr())),
            ),
            pointer_at(final(mem), self.addr(), PlayLayerField::Player1) == player1.addr(),
    {
        self.set(mem, PlayLayerField::Player1, FieldValue::Ptr(player1.ptr()))
    }

    /// Makes `player2` the second player.
    pub fn set_player2(&self, mem: &mut ForeignMemory, player2: PlayerObject)
        requires
            field_mapped(old(mem), self.addr(), PlayLayerField::Player2.spec_field()),
        ensures
            final(mem).written(
                old(mem),
                self.addr() + PlayLayerField::Player2.spec_field().offset,
                encode(FieldValue::Ptr(player2.addr())),
            ),
            pointer_at(final(mem), self.addr(), PlayLayerField::Player2) == player2.addr(),
    {
        self.set(mem, PlayLayerField::Player2, FieldValue::Ptr(player2.ptr()))
    }

    /// The settings of the level being played.
    pub fn level_settings(&self, mem: &ForeignMemory) -> (r: LevelSettings)
        requires
            field_mapped(mem, self.addr(), PlayLayerField::LevelSettings.spec_field()),
        ensures
            r.addr() == pointer_at(mem, self.addr(), PlayLayerField::LevelSettings),
    {
        LevelSettings::from_address(self.read_pointer(mem, PlayLayerField::LevelSettings))
    }
}

impl From<PlayLayer> for Ptr {
    fn from(value: PlayLayer) -> (r: Ptr) {
        value.address
    }
}

impl vstd::std_specs::convert::FromSpecImpl<PlayLayer> for Ptr {
    open spec fn obeys_from_spec() -> bool {
        true
    }

    open spec fn from_spec(v: PlayLayer) -> Ptr {
        v.addr()
    }
}

impl AddressUtils for PlayLayer {
    closed spec fn addr(&self) -> Ptr {
        self.address
    }

    fn ptr(&self) -> (r: Ptr) {
        self.address
    }

    fn is_null(&self) -> (r: bool) {
        self.address == 0
    }

    fn to_option(self) -> (r: Option<Self>) {
        if self.is_null() {
            None
        } else {
            Some(self)
        }
    }
}

} // verus!
