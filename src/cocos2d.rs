//! Singletons of the cocos2d-x engine, which lives in its own module of the
//! host; their functions are found by their exported, mangled names.
use vstd::prelude::*;

use crate::address::{AddressUtils, Ptr};
use crate::foreign::{CallingConvention, ForeignFn, Receiver};
use crate::location::Location;

verus! {

/// The file name of the module that holds cocos2d-x.
pub const COCOS2D_MODULE: &'static str = "libcocos2d.dll";

/// How far into the director its scheduler lies.
pub const SCHEDULER_OFFSET: usize = 0x48;

/// The cocos2d-x application.
#[derive(Clone, Copy, Debug, PartialEq, Eq, Structural)]
pub struct CCApplication {
    address: Ptr,
}

impl CCApplication {
    /// A handle on the application at `address`; nothing is checked.
    pub fn from_address(address: Ptr) -> (r: CCApplication)
        ensures
            r.addr() == address,
    {
        CCApplication { address }
    }

    /// `CCApplication::sharedApplication`: returns the application's address.
    pub fn shared_fn() -> (r: ForeignFn)
        ensures
            r == (ForeignFn {
                location: Location::Export {
                    module: COCOS2D_MODULE,
                    symbol: "?sharedApplication@CCApplication@cocos2d@@SAPAV12@XZ",
                },
                convention: CallingConvention::Cdecl,
                receiver: Receiver::Free,
            }),
    {
        ForeignFn {
            location: Location::Export {
                module: COCOS2D_MODULE,
                symbol: "?sharedApplication@CCApplication@cocos2d@@SAPAV12@XZ",
            },
            convention: CallingConvention::Cdecl,
            receiver: Receiver::Free,
        }
    }

    /// `CCApplication::setAnimationInterval`: takes the interval as a 64-bit float.
    pub fn set_animation_interval_fn() -> (r: ForeignFn)
        ensures
            r == (ForeignFn {
                location: Location::Export {
                    module: COCOS2D_MODULE,
                    symbol: "?setAnimationInterval@CCApplication@cocos2d@@UAEXN@Z",
                },
                convention: CallingConvention::Fastcall,
                receiver: Receiver::ThisAndPlaceholder,
            }),
    {
        ForeignFn {
            location: Location::Export {
                module: COCOS2D_MODULE,
                symbol: "?setAnimationInterval@CCApplication@cocos2d@@UAEXN@Z",
            },
            convention: CallingConvention::Fastcall,
            receiver: Receiver::ThisAndPlaceholder,
        }
    }
}

impl From<CCApplication> for Ptr {
    fn from(value: CCApplication) -> (r: Ptr) {
        value.address
    }
}

impl vstd::std_specs::convert::FromSpecImpl<CCApplication> for Ptr {
    open spec fn obeys_from_spec() -> bool {
        true
    }

    open spec fn from_spec(v: CCApplication) -> Ptr {
        v.addr()
    }
}

impl AddressUtils for CCApplication {
    closed spec fn addr(&self) -> Ptr {
        self.address
    }

    fn ptr(&self) -> (r: Ptr) {
        self.address
    }

    fn is_null(&self) -> (r: bool) {
        self.address == 0
    }

    fn to_option(self) -> (r: Option<Self>) {
        if self.is_null() {
            None
        } else {
            Some(self)
        }
    }
}

/// Class that creates and handles the main window and manages how and when
/// to execute the scenes. It is a singleton.
#[derive(Clone, Copy, Debug, PartialEq, Eq, Structural)]
pub struct CCDirector {
    address: Ptr,
}

impl CCDirector {
    /// A handle on the director at `address`; nothing is checked.
    pub fn from_address(address: Ptr) -> (r: CCDirector)
        ensures
            r.addr() == address,
    {
        CCDirector { address }
    }

    /// `CCDirector::sharedDirector`: returns the director's address.
    pub fn shared_fn() -> (r: ForeignFn)
        ensures
            r == (ForeignFn {
                location: Location::Export {
                    module: COCOS2D_MODULE,
                    symbol: "?sharedDirector@CCDirector@cocos2d@@SAPAV12@XZ",
                },
                convention: CallingConvention::Cdecl,
                receiver: Receiver::Free,
            }),
    {
        ForeignFn {
            location: Location::Export {
                module: COCOS2D_MODULE,
                symbol: "?sharedDirector@CCDirector@cocos2d@@SAPAV12@XZ",
            },
            convention: CallingConvention::Cdecl,
            receiver: Receiver::Free,
        }
    }

    /// `CCDirector::getAnimationInterval`: returns the interval as a 64-bit float.
    pub fn animation_interval_fn() -> (r: ForeignFn)
        ensures
            r == (ForeignFn {
                location: Location::Export {
                    module: COCOS2D_MODULE,
                    symbol: "?getAnimationInterval@CCDirector@cocos2d@@QAENXZ",
                },
                convention: CallingConvention::Thiscall,
                receiver: Receiver::This,
            }),
    {
        ForeignFn {
            location: Location::Export {
                module: COCOS2D_MODULE,
                symbol: "?getAnimationInterval@CCDirector@cocos2d@@QAENXZ",
            },
            convention: CallingConvention::Thiscall,
            receiver: Receiver::This,
        }
    }

    /// The scheduler, which the director holds within itself.
    pub fn scheduler(&self) -> (r: CCScheduler)
        requires
            self.addr() + SCHEDULER_OFFSET <= usize::MAX,
        ensures
            r.addr() == self.addr() + SCHEDULER_OFFSET,
    {
        CCScheduler::from_address(self.address + SCHEDULER_OFFSET)
    }
}

impl From<CCDirector> for Ptr {
    fn from(value: CCDirector) -> (r: Ptr) {
        value.address
    }
}

impl vstd::std_specs::convert::FromSpecImpl<CCDirector> for Ptr {
    open spec fn obeys_from_spec() -> bool {
        true
    }

    open spec fn from_spec(v: CCDirector) -> Ptr {
        v.addr()
    }
}

impl AddressUtils for CCDirector {
    closed spec fn addr(&self) -> Ptr {
        self.address
    }

    fn ptr(&self) -> (r: Ptr) {
        self.address
    }

    fn is_null(&self) -> (r: bool) {
        self.address == 0
    }

    fn to_option(self) -> (r: Option<Self>) {
        if self.is_null() {
            None
        } else {
            Some(self)
        }
    }
}

/// The scheduler that runs the engine's timers.
#[derive(Clone, Copy, Debug, PartialEq, Eq, Structural)]
pub struct CCScheduler {
    address: Ptr,
}

impl CCScheduler {
    /// A handle on the scheduler at `address`; nothing is checked.
    pub fn from_address(address: Ptr) -> (r: CCScheduler)
        ensures
            r.addr() == address,
    {
        CCScheduler { address }
    }

    /// `CCScheduler::getTimeScale`: returns the time scale as a 32-bit float.
    pub fn timescale_fn() -> (r: ForeignFn)
        ensures
            r == (ForeignFn {
                location: Location::Export {
                    module: COCOS2D_MODULE,
                    symbol: "?getTimeScale@CCScheduler@cocos2d@@QAEMXZ",
                },
                convention: CallingConvention::Thiscall,
                receiver: Receiver::This,
            }),
    {
        ForeignFn {
            location: Location::Export {
                module: COCOS2D_MODULE,
                symbol: "?getTimeScale@CCScheduler@cocos2d@@QAEMXZ",
            },
            convention: CallingConvention::Thiscall,
            receiver: Receiver::This,
        }
    }
}

impl From<CCScheduler> for Ptr {
    fn from(value: CCScheduler) -> (r: Ptr) {
        value.address
    }
}

impl vstd::std_specs::convert::FromSpecImpl<CCScheduler> for Ptr {
    open spec fn obeys_from_spec() -> bool {
        true
    }

    open spec fn from_spec(v: CCScheduler) -> Ptr {
        v.addr()
    }
}

impl AddressUtils for CCScheduler {
    closed spec fn addr(&self) -> Ptr {
        self.address
    }

    fn ptr(&self) -> (r: Ptr) {
        self.address
    }

    fn is_null(&self) -> (r: bool) {
        self.address == 0
    }

    fn to_option(self) -> (r: Option<Self>) {
        if self.is_null() {
            None
        } else {
            Some(self)
        }
    }
}

} // verus!
