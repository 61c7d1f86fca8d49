//! The game's global state.
use vstd::prelude::*;
use vstd::utf8::{decode_utf8, valid_utf8};

use crate::address::{AddressUtils, Ptr};
use crate::field::{field_mapped, field_value, ptr_of, Field, FieldType, FieldValue};
use crate::foreign::{CallingConvention, ForeignFn, Receiver};
use crate::location::Location;
use crate::memory::ForeignMemory;
use crate::play_layer::PlayLayer;
use crate::text::{decode_text, TextError};

verus! {

/// The pointer to the play layer being run, if any.
pub open spec fn play_layer_field() -> Field {
    Field { offset: 0x164, ty: FieldType::Ptr }
}

/// The pointer to the player's name, a zero-terminated UTF-8 string.
pub open spec fn user_name_field() -> Field {
    Field { offset: 0x198, ty: FieldType::Ptr }
}

/// The address held in `field` of the game manager at `object`.
pub open spec fn pointer_at(mem: &ForeignMemory, object: Ptr, field: Field) -> Ptr {
    ptr_of(field_value(mem, object, field))
}

/// The game's global state.
#[derive(Clone, Copy, Debug, PartialEq, Eq, Structural)]
pub struct GameManager {
    address: Ptr,
}

impl GameManager {
    /// A handle on the game manager at `address`; nothing is checked.
    pub fn from_address(address: Ptr) -> (r: GameManager)
        ensures
            r.addr() == address,
    {
        GameManager { address }
    }

    /// `GameManager::getSharedState`: returns the game manager's address, zero before it exists.
    pub fn shared_fn() -> (r: ForeignFn)
        ensures
            r == (ForeignFn {
                location: Location::BaseOffset(0xC4A50),
                convention: CallingConvention::Stdcall,
                receiver: Receiver::Free,
            }),
    {
        ForeignFn {
            location: Location::BaseOffset(0xC4A50),
            convention: CallingConvention::Stdcall,
            receiver: Receiver::Free,
        }
    }

    /// `GameManager::getGameVariable`: takes a pointer to the variable's zero-terminated name and returns whether it is set.
    pub fn game_variable_fn() -> (r: ForeignFn)
        ensures
            r == (ForeignFn {
                location: Location::BaseOffset(0xC9D30),
                convention: CallingConvention::Fastcall,
                receiver: Receiver::ThisAndPlaceholder,
            }),
    {
        ForeignFn {
            location: Location::BaseOffset(0xC9D30),
            convention: CallingConvention::Fastcall,
            receiver: Receiver::ThisAndPlaceholder,
        }
    }

    /// The address held in the pointer field at `offset`.
    fn read_pointer(&self, mem: &ForeignMemory, offset: usize) -> (r: Ptr)
        requires
            field_mapped(mem, self.addr(), Field { offset, ty: FieldType::Ptr }),
        ensures
            r == pointer_at(mem, self.addr(), Field { offset, ty: FieldType::Ptr }),
    {
        match mem.read_field(self.address, Field { offset, ty: FieldType::Ptr }) {
            FieldValue::Ptr(p) => p,
            _ => 0,
        }
    }

    /// The play layer being run; null when no level is being played.
    pub fn play_layer(&self, mem: &ForeignMemory) -> (r: PlayLayer)
        requires
            field_mapped(mem, self.addr(), play_layer_field()),
        ensures
            r.addr() == pointer_at(mem, self.addr(), play_layer_field()),
    {
        PlayLayer::from_address(self.read_pointer(mem, 0x164))
    }

    /// The player's name: the zero-terminated string the name field points
    /// to, decoded as UTF-8.
    pub fn user_name(&self, mem: &ForeignMemory) -> (r: Result<String, TextError>)
        requires
            field_mapped(mem, self.addr(), user_name_field()),
        ensures
            ({
                let p = pointer_at(mem, self.addr(), user_name_field());
                &&& (forall|n: int| !mem.terminated_at(p as int, n)) ==> r == Err::<
                    String,
                    TextError,
                >(TextError::Unterminated)
                &&& forall|n: int|
                    #[trigger] mem.terminated_at(p as int, n) ==> if valid_utf8(
                        mem.bytes_at(p as int, n),
                    ) {
                        (r matches Ok(s) && s@ == decode_utf8(mem.bytes_at(p as int, n)))
                    } else {
                        r == Err::<String, TextError>(TextError::InvalidUtf8)
                    }
            }),
    {
        let p = self.read_pointer(mem, 0x198);
        match mem.read_c_string(p) {
            None => Err(TextError::Unterminated),
            Some(bytes) => {
                proof {
                    let len = bytes@.len() as int;
                    assert forall|n: int| #[trigger] mem.terminated_at(p as int, n) implies n
                        == len by {
                        if n < len {
                            assert(mem.contents()[p + n - mem.base()] != 0);
                        } else if n > len {
                            assert(mem.contents()[p + len - mem.base()] != 0);
                        }
                    }
                }
                decode_text(bytes)
            },
        }
    }
}

impl From<GameManager> for Ptr {
    fn from(value: GameManager) -> (r: Ptr) {
        value.address
    }
}

impl vstd::std_specs::convert::FromSpecImpl<GameManager> for Ptr {
    open spec fn obeys_from_spec() -> bool {
        true
    }

    open spec fn from_spec(v: GameManager) -> Ptr {
        v.addr()
    }
}

impl AddressUtils for GameManager {
    closed spec fn addr(&self) -> Ptr {
        self.address
    }

    fn ptr(&self) -> (r: Ptr) {
        self.address
    }

    fn is_null(&self) -> (r: bool) {
        self.address == 0
    }

    fn to_option(self) -> (r: Option<Self>) {
        if self.is_null() {
            None
        } else {
            Some(self)
        }
    }
}

} // verus!
