use vstd::prelude::*;

verus! {

/// An integer-valued location in the host process; zero means "no object".
pub type Ptr = usize;

/// The absolute address of a field that lies `offset` bytes past `base`.
pub fn field_address(base: Ptr, offset: usize) -> (r: Ptr)
    requires
        base + offset <= usize::MAX,
    ensures
        r == base + offset,
{
    base + offset
}

/// Whether a handle on `address` names no object.
pub open spec fn is_null_address(address: Ptr) -> bool {
    address == 0
}

/// A handle on address zero reports null, and so converts to nothing; a
/// handle on any other address does not, and so converts to itself.
pub proof fn lemma_null_iff_zero<H: AddressUtils>(h: H, address: Ptr)
    requires
        h.addr() == address,
    ensures
        address == 0 ==> is_null_address(h.addr()),
        address != 0 ==> !is_null_address(h.addr()),
{
}

/// What every handle offers: its raw address, and whether it names an object.
pub trait AddressUtils: Sized {
    /// The address the handle wraps.
    spec fn addr(&self) -> Ptr;

    /// Returns the underlying pointer.
    fn ptr(&self) -> (r: Ptr)
        ensures
            r == self.addr(),
    ;

    /// Whether the handle names no object (its address is zero).
    fn is_null(&self) -> (r: bool)
        ensures
            r == is_null_address(self.addr()),
    ;

    /// `None` for a null handle, else the handle itself.
    fn to_option(self) -> (r: Option<Self>)
        ensures
            r == (if is_null_address(self.addr()) {
                None
            } else {
                Some(self)
            }),
    ;
}

} // verus!
