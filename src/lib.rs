//! Typed access to the memory of a host process at fixed, declared offsets,
//! and the bookkeeping around function hooks installed in that process.
//!
//! Offsets, field types and calling conventions are declared for one build
//! of the host and are not checked against it: a wrong declaration reads or
//! writes the wrong bytes, or calls a function the wrong way, without any
//! sign of it. What this crate does check is its own arithmetic, that every
//! access stays inside the memory it was given, and the bookkeeping of
//! hooks and patches.

use vstd::prelude::*;

pub mod address;
pub mod cocos2d;
pub mod field;
pub mod fmod_audio_engine;
pub mod foreign;
pub mod game_manager;
pub mod game_object;
pub mod hook;
pub mod level_settings;
pub mod location;
pub mod memory;
pub mod patch;
pub mod play_layer;
pub mod player_object;
pub mod text;

pub use address::{field_address, AddressUtils, Ptr};
pub use cocos2d::{CCApplication, CCDirector, CCScheduler};
pub use field::{Field, FieldType, FieldValue};
pub use fmod_audio_engine::{FMODAudioEngine, FMODAudioEngineField};
pub use foreign::{CallingConvention, ForeignCall, ForeignFn, Receiver};
pub use game_manager::GameManager;
pub use game_object::{GameObject, GameObjectField};
pub use hook::{HookError, HookRecord, HookRegistry, HookState};
pub use level_settings::LevelSettings;
pub use location::{Location, ResolveError};
pub use memory::ForeignMemory;
pub use patch::{PatchAction, PatchPhase, PatchSession};
pub use play_layer::{PlayLayer, PlayLayerField};
pub use player_object::{GameMode, PlayerObject, PlayerObjectField};
pub use text::TextError;

verus! {

/// The `len` bytes at a given address.
pub fn read_mem(mem: &ForeignMemory, address: Ptr, len: usize) -> (r: Vec<u8>)
    requires
        mem.maps(address as int, len as int),
    ensures
        r@ == mem.bytes_at(address as int, len as int),
{
    mem.read_bytes(address, len)
}

/// Reads a pointer at a given address.
pub fn read_ptr(mem: &ForeignMemory, address: Ptr) -> (r: Ptr)
    requires
        mem.maps(address as int, memory::ptr_width() as int),
    ensures
        r == memory::ptr_from_bytes(mem.bytes_at(address as int, memory::ptr_width() as int)),
{
    mem.read_ptr(address)
}

} // verus!
