//! Declarations of the host's functions: where each lies, the calling
//! convention it was compiled with, and how the receiver is passed.
//!
//! A declaration is a contract with one build of the host that nothing here
//! can check: a wrong convention corrupts the stack or registers silently.
//! Turning a planned call into an actual call is left to the caller.
use vstd::prelude::*;

use crate::address::Ptr;
use crate::location::{resolvable, resolved, Location, ResolveError};

verus! {

/// The register and stack layout a function was compiled for.
#[derive(Clone, Copy, Debug, PartialEq, Eq, Structural)]
pub enum CallingConvention {
    Cdecl,
    Stdcall,
    Fastcall,
    Thiscall,
}

/// How the object a method runs on is passed.
#[derive(Clone, Copy, Debug, PartialEq, Eq, Structural)]
pub enum Receiver {
    /// A free or static function: no object.
    Free,
    /// The object's address comes first.
    This,
    /// The object's address comes first, then an unused word that fills the
    /// second register of a fastcall stand-in for a thiscall method.
    ThisAndPlaceholder,
}

/// A function of the host.
#[derive(Clone, Copy, Debug, PartialEq, Eq)]
pub struct ForeignFn {
    pub location: Location,
    pub convention: CallingConvention,
    pub receiver: Receiver,
}

/// A call ready to be made: the address to call, the convention, and the
/// words passed before the declared arguments.
#[derive(Clone, Debug, PartialEq, Eq)]
pub struct ForeignCall {
    pub target: Ptr,
    pub convention: CallingConvention,
    pub leading: Vec<Ptr>,
}

/// The words passed before the declared arguments when calling with
/// `receiver` on the object at `this`.
pub open spec fn leading_words(receiver: Receiver, this: Ptr) -> Seq<Ptr> {
    match receiver {
        Receiver::Free => seq![],
        Receiver::This => seq![this],
        Receiver::ThisAndPlaceholder => seq![this, 0],
    }
}

impl ForeignFn {
    /// The call of this function on the object at `this` (ignored for a free
    /// function); `base`, `module` and `symbol` find its address as
    /// [`Location::resolve`] does.
    pub fn plan(&self, base: Ptr, module: Ptr, symbol: Ptr, this: Ptr) -> (r: Result<
        ForeignCall,
        ResolveError,
    >)
        requires
            resolvable(self.location, base),
        ensures
            match resolved(self.location, base, module, symbol) {
                Ok(target) => r matches Ok(c) && c.target == target && c.convention
                    == self.convention && c.leading@ == leading_words(self.receiver, this),
                Err(e) => r == Err::<ForeignCall, ResolveError>(e),
            },
    {
        let target = match self.location.resolve(base, module, symbol) {
            Ok(t) => t,
            Err(e) => {
                return Err(e);
            },
        };
        let leading = match self.receiver {
            Receiver::Free => Vec::new(),
            Receiver::This => vec![this],
            Receiver::ThisAndPlaceholder => vec![this, 0],
        };
        proof {
            assert(leading@ =~= leading_words(self.receiver, this));
        }
        Ok(ForeignCall { target, convention: self.convention, leading })
    }
}

} // verus!
