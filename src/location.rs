//! Where a function of the host lies, and how its address is found.
use vstd::prelude::*;

use crate::address::Ptr;

verus! {

/// How the address of a function (or any code location) is found.
#[derive(Clone, Copy, Debug, PartialEq, Eq)]
pub enum Location {
    /// A literal address, known for one build of the host.
    Absolute(Ptr),
    /// An offset from the load address of the host's main module.
    BaseOffset(usize),
    /// An exported symbol, by its mangled name, of a module the host has loaded.
    Export { module: &'static str, symbol: &'static str },
}

/// Why an address could not be found.
#[derive(Clone, Copy, Debug, PartialEq, Eq, Structural)]
pub enum ResolveError {
    /// The named module is not loaded in the host.
    ModuleNotLoaded,
    /// The module does not export the named symbol.
    SymbolNotFound,
}

/// The address that `loc` names, given the main module's load address `base`
/// and, for an export, the handle of the module as looked up by name (zero
/// when it is not loaded) and the address of the symbol in it (zero when it
/// is not exported).
pub open spec fn resolved(loc: Location, base: Ptr, module: Ptr, symbol: Ptr) -> Result<
    Ptr,
    ResolveError,
> {
    match loc {
        Location::Absolute(a) => Ok(a),
        Location::BaseOffset(o) => Ok((base + o) as Ptr),
        Location::Export { .. } => if module == 0 {
            Err(ResolveError::ModuleNotLoaded)
        } else if symbol == 0 {
            Err(ResolveError::SymbolNotFound)
        } else {
            Ok(symbol)
        },
    }
}

/// Whether resolving `loc` against the load address `base` stays within
/// the address space.
pub open spec fn resolvable(loc: Location, base: Ptr) -> bool {
    loc matches Location::BaseOffset(o) ==> base + o <= usize::MAX
}

impl Location {
    /// Whether the address is found by looking a symbol up in a module.
    pub fn is_export(&self) -> (r: bool)
        ensures
            r == (*self is Export),
    {
        match self {
            Location::Export { .. } => true,
            _ => false,
        }
    }

    /// The address this location names; see [`resolved`] for what `module`
    /// and `symbol` carry.
    pub fn resolve(&self, base: Ptr, module: Ptr, symbol: Ptr) -> (r: Result<Ptr, ResolveError>)
        requires
            resolvable(*self, base),
        ensures
            r == resolved(*self, base, module, symbol),
    {
        match self {
            Location::Absolute(a) => Ok(*a),
            Location::BaseOffset(o) => Ok(base + *o),
            Location::Export { .. } => {
                if module == 0 {
                    Err(ResolveError::ModuleNotLoaded)
                } else if symbol == 0 {
                    Err(ResolveError::SymbolNotFound)
                } else {
                    Ok(symbol)
                }
            },
        }
    }
}

} // verus!
