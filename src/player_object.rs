//! The player object of the running level.
use vstd::prelude::*;

use crate::address::{AddressUtils, Ptr};
use crate::field::{encode, field_mapped, field_value, Field, FieldType, FieldValue};
use crate::memory::ForeignMemory;

verus! {

/// Player gamemode.
#[derive(Clone, Copy, Debug, PartialEq, Eq, Structural)]
pub enum GameMode {
    /// Cube gamemode.
    Cube,
    /// Ship gamemode.
    Ship,
    /// UFO (bird) gamemode.
    Ufo,
    /// Ball gamemode.
    Ball,
    /// Wave (dart) gamemode.
    Wave,
    /// Robot gamemode.
    Robot,
    /// Spider gamemode.
    Spider,
}

/// Offset of the six one-byte mode flags of a player object, in the order
/// ship, UFO, ball, wave, robot, spider.
pub const MODE_FLAGS_OFFSET: usize = 0x638;

/// The number of mode flags.
pub const MODE_FLAG_COUNT: usize = 6;

/// The mode that six flags select: the first one set, in the order ship, UFO,
/// ball, wave, robot, spider; the cube when none is.
pub open spec fn mode_from_flags(f: Seq<bool>) -> GameMode {
    if f[0] {
        GameMode::Ship
    } else if f[1] {
        GameMode::Ufo
    } else if f[2] {
        GameMode::Ball
    } else if f[3] {
        GameMode::Wave
    } else if f[4] {
        GameMode::Robot
    } else if f[5] {
        GameMode::Spider
    } else {
        GameMode::Cube
    }
}

/// The position of the flag that marks `m`; none (-1) for the cube.
pub open spec fn mode_index(m: GameMode) -> int {
    match m {
        GameMode::Ship => 0,
        GameMode::Ufo => 1,
        GameMode::Ball => 2,
        GameMode::Wave => 3,
        GameMode::Robot => 4,
        GameMode::Spider => 5,
        GameMode::Cube => -1,
    }
}

/// The six flag bytes that select `m`: its own flag set, every other clear.
pub open spec fn flags_of(m: GameMode) -> Seq<u8> {
    Seq::new(6, |i: int| if i == mode_index(m) { 1u8 } else { 0u8 })
}

/// The six mode flags of the player object at `object`.
pub open spec fn flags_at(mem: &ForeignMemory, object: Ptr) -> Seq<bool> {
    Seq::new(6, |i: int| mem.bytes_at(object + MODE_FLAGS_OFFSET, 6)[i] != 0)
}

/// The mode of the player object at `object`, as its flags select it.
pub open spec fn mode_at(mem: &ForeignMemory, object: Ptr) -> GameMode {
    mode_from_flags(flags_at(mem, object))
}

/// Whether the mode flags of the player object at `object` lie in `mem`.
pub open spec fn mode_flags_mapped(mem: &ForeignMemory, object: Ptr) -> bool {
    &&& object + MODE_FLAGS_OFFSET + MODE_FLAG_COUNT <= usize::MAX
    &&& mem.maps(object + MODE_FLAGS_OFFSET, 6)
}

/// The declared fields of a player object.
#[derive(Clone, Copy, Debug, PartialEq, Eq, Structural)]
pub enum PlayerObjectField {
    X,
    Y,
    XAccel,
    YAccel,
    JumpAccel,
    IsHolding,
    HasJustHeld,
    IsHolding2,
    HasJustHeld2,
    CanRobotJump,
    IsUpsideDown,
    IsOnGround,
    IsDashing,
    IsSliding,
    IsRising,
    BlackOrb,
    Unk662,
    Unk630,
    Unk631,
    VehicleSize,
    PlayerSpeed,
    RotationX,
    RotationY,
}

impl PlayerObjectField {
    /// Where the field lies and what it holds.
    pub open spec fn spec_field(self) -> Field {
        match self {
            PlayerObjectField::X => Field { offset: 0x67C, ty: FieldType::F32 },
            PlayerObjectField::Y => Field { offset: 0x680, ty: FieldType::F32 },
            PlayerObjectField::XAccel => Field { offset: 0x518, ty: FieldType::F64 },
            PlayerObjectField::YAccel => Field { offset: 0x628, ty: FieldType::F64 },
            PlayerObjectField::JumpAccel => Field { offset: 0x520, ty: FieldType::F64 },
            PlayerObjectField::IsHolding => Field { offset: 0x611, ty: FieldType::Bool },
            PlayerObjectField::HasJustHeld => Field { offset: 0x612, ty: FieldType::Bool },
            PlayerObjectField::IsHolding2 => Field { offset: 0x613, ty: FieldType::Bool },
            PlayerObjectField::HasJustHeld2 => Field { offset: 0x614, ty: FieldType::Bool },
            PlayerObjectField::CanRobotJump => Field { offset: 0x624, ty: FieldType::Bool },
            PlayerObjectField::IsUpsideDown => Field { offset: 0x63E, ty: FieldType::Bool },
            PlayerObjectField::IsOnGround => Field { offset: 0x640, ty: FieldType::Bool },
            PlayerObjectField::IsDashing => Field { offset: 0x641, ty: FieldType::Bool },
            PlayerObjectField::IsSliding => Field { offset: 0x660, ty: FieldType::Bool },
            PlayerObjectField::IsRising => Field { offset: 0x661, ty: FieldType::Bool },
            PlayerObjectField::BlackOrb => Field { offset: 0x5FE, ty: FieldType::Bool },
            PlayerObjectField::Unk662 => Field { offset: 0x662, ty: FieldType::Bool },
            PlayerObjectField::Unk630 => Field { offset: 0x630, ty: FieldType::Bool },
            PlayerObjectField::Unk631 => Field { offset: 0x631, ty: FieldType::Bool },
            PlayerObjectField::VehicleSize => Field { offset: 0x644, ty: FieldType::F32 },
            PlayerObjectField::PlayerSpeed => Field { offset: 0x648, ty: FieldType::F32 },
            PlayerObjectField::RotationX => Field { offset: 0x20, ty: FieldType::F32 },
            PlayerObjectField::RotationY => Field { offset: 0x24, ty: FieldType::F32 },
        }
    }

    /// Where the field lies and what it holds.
    pub fn field(self) -> (r: Field)
        ensures
            r == self.spec_field(),
    {
        match self {
            PlayerObjectField::X => Field { offset: 0x67C, ty: FieldType::F32 },
            PlayerObjectField::Y => Field { offset: 0x680, ty: FieldType::F32 },
            PlayerObjectField::XAccel => Field { offset: 0x518, ty: FieldType::F64 },
            PlayerObjectField::YAccel => Field { offset: 0x628, ty: FieldType::F64 },
            PlayerObjectField::JumpAccel => Field { offset: 0x520, ty: FieldType::F64 },
            PlayerObjectField::IsHolding => Field { offset: 0x611, ty: FieldType::Bool },
            PlayerObjectField::HasJustHeld => Field { offset: 0x612, ty: FieldType::Bool },
            PlayerObjectField::IsHolding2 => Field { offset: 0x613, ty: FieldType::Bool },
            PlayerObjectField::HasJustHeld2 => Field { offset: 0x614, ty: FieldType::Bool },
            PlayerObjectField::CanRobotJump => Field { offset: 0x624, ty: FieldType::Bool },
            PlayerObjectField::IsUpsideDown => Field { offset: 0x63E, ty: FieldType::Bool },
            PlayerObjectField::IsOnGround => Field { offset: 0x640, ty: FieldType::Bool },
            PlayerObjectField::IsDashing => Field { offset: 0x641, ty: FieldType::Bool },
            PlayerObjectField::IsSliding => Field { offset: 0x660, ty: FieldType::Bool },
            PlayerObjectField::IsRising => Field { offset: 0x661, ty: FieldType::Bool },
            PlayerObjectField::BlackOrb => Field { offset: 0x5FE, ty: FieldType::Bool },
            PlayerObjectField::Unk662 => Field { offset: 0x662, ty: FieldType::Bool },
            PlayerObjectField::Unk630 => Field { offset: 0x630, ty: FieldType::Bool },
            PlayerObjectField::Unk631 => Field { offset: 0x631, ty: FieldType::Bool },
            PlayerObjectField::VehicleSize => Field { offset: 0x644, ty: FieldType::F32 },
            PlayerObjectField::PlayerSpeed => Field { offset: 0x648, ty: FieldType::F32 },
            PlayerObjectField::RotationX => Field { offset: 0x20, ty: FieldType::F32 },
            PlayerObjectField::RotationY => Field { offset: 0x24, ty: FieldType::F32 },
        }
    }
}

/// A player object.
#[derive(Clone, Copy, Debug, PartialEq, Eq, Structural)]
pub struct PlayerObject {
    address: Ptr,
}

impl PlayerObject {
    /// A handle on the player object at `address`; nothing is checked.
    pub fn from_address(address: Ptr) -> (r: PlayerObject)
        ensures
            r.addr() == address,
    {
        PlayerObject { address }
    }

    /// Reads the field `f`.
    pub fn get(&self, mem: &ForeignMemory, f: PlayerObjectField) -> (r: FieldValue)
        requires
            field_mapped(mem, self.addr(), f.spec_field()),
        ensures
            r == field_value(mem, self.addr(), f.spec_field()),
            r.ty() == f.spec_field().ty,
    {
        mem.read_field(self.address, f.field())
    }

    /// Writes `value` into the field `f`.
    pub fn set(&self, mem: &mut ForeignMemory, f: PlayerObjectField, value: FieldValue)
        requires
            field_mapped(old(mem), self.addr(), f.spec_field()),
            value.ty() == f.spec_field().ty,
        ensures
            final(mem).written(old(mem), self.addr() + f.spec_field().offset, encode(value)),
            field_value(final(mem), self.addr(), f.spec_field()) == value,
    {
        mem.write_field(self.address, f.field(), value)
    }

    /// Returns the player's gamemode.
    pub fn game_mode(&self, mem: &ForeignMemory) -> (r: GameMode)
        requires
            mode_flags_mapped(mem, self.addr()),
        ensures
            r == mode_at(mem, self.addr()),
    {
        let at = self.address + MODE_FLAGS_OFFSET;
        if mem.read_bool(at) {
            GameMode::Ship
        } else if mem.read_bool(at + 1) {
            GameMode::Ufo
        } else if mem.read_bool(at + 2) {
            GameMode::Ball
        } else if mem.read_bool(at + 3) {
            GameMode::Wave
        } else if mem.read_bool(at + 4) {
            GameMode::Robot
        } else if mem.read_bool(at + 5) {
            GameMode::Spider
        } else {
            GameMode::Cube
        }
    }

    /// Sets the player's gamemode: its own flag is set and the five others
    /// cleared.
    pub fn set_game_mode(&self, mem: &mut ForeignMemory, gamemode: GameMode)
        requires
            mode_flags_mapped(old(mem), self.addr()),
        ensures
            final(mem).written(old(mem), self.addr() + MODE_FLAGS_OFFSET, flags_of(gamemode)),
            mode_flags_mapped(final(mem), self.addr()),
            mode_at(final(mem), self.addr()) == gamemode,
    {
        let flags: Vec<u8> = vec![
            if gamemode == GameMode::Ship { 1u8 } else { 0u8 },
            if gamemode == GameMode::Ufo { 1u8 } else { 0u8 },
            if gamemode == GameMode::Ball { 1u8 } else { 0u8 },
            if gamemode == GameMode::Wave { 1u8 } else { 0u8 },
            if gamemode == GameMode::Robot { 1u8 } else { 0u8 },
            if gamemode == GameMode::Spider { 1u8 } else { 0u8 },
        ];
        assert(flags@ =~= flags_of(gamemode));
        mem.write_bytes(self.address + MODE_FLAGS_OFFSET, flags.as_slice());
    }
}

impl From<PlayerObject> for Ptr {
    fn from(value: PlayerObject) -> (r: Ptr) {
        value.address
    }
}

impl vstd::std_specs::convert::FromSpecImpl<PlayerObject> for Ptr {
    open spec fn obeys_from_spec() -> bool {
        true
    }

    open spec fn from_spec(v: PlayerObject) -> Ptr {
        v.addr()
    }
}

impl AddressUtils for PlayerObject {
    closed spec fn addr(&self) -> Ptr {
        self.address
    }

    fn ptr(&self) -> (r: Ptr) {
        self.address
    }

    fn is_null(&self) -> (r: bool) {
        self.address == 0
    }

    fn to_option(self) -> (r: Option<Self>) {
        if self.is_null() {
            None
        } else {
            Some(self)
        }
    }
}

} // verus!
