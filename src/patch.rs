//! Writing bytes over code or read-only data of the host.
//!
//! Such a write needs the pages opened for writing first, and their former
//! protection put back afterwards, on every path, so that no page is left
//! more permissive than it was. A `PatchSession` decides each step; the
//! caller performs it (changes the protection, writes) and reports back.
use vstd::prelude::*;

use crate::address::Ptr;

verus! {

/// The protection that lets pages be read, written and executed.
pub const PAGE_EXECUTE_READWRITE: u32 = 0x40;

/// What the caller is to do next.
#[derive(Clone, Copy, Debug, PartialEq, Eq)]
pub enum PatchAction {
    /// Give the `len` bytes at `address` the protection `flags`, and report
    /// the protection they had.
    Protect { address: Ptr, len: usize, flags: u32 },
    /// Copy the data to `address`, and report how it went.
    Write { address: Ptr },
    /// The patch is over, with this result.
    Finish(Result<(), i32>),
}

/// Where a patch stands.
#[derive(Clone, Copy, Debug, PartialEq, Eq, Structural)]
pub enum PatchPhase {
    /// Waiting for the pages to be opened for writing.
    Unprotecting,
    /// Waiting for the data to be written.
    Writing,
    /// Waiting for the former protection to be put back.
    Restoring,
    /// Over.
    Done,
}

/// One patch of `len` bytes at `address`.
#[derive(Clone, Copy, Debug, PartialEq, Eq)]
pub struct PatchSession {
    pub address: Ptr,
    pub len: usize,
    pub phase: PatchPhase,
    /// The protection the pages had before the patch.
    pub saved: u32,
    /// How the write went.
    pub written: Result<(), i32>,
}

/// The protection pages end up with once `a` is carried out on pages that had
/// `flags`.
pub open spec fn flags_after(flags: u32, a: PatchAction) -> u32 {
    match a {
        PatchAction::Protect { flags: f, .. } => f,
        _ => flags,
    }
}

/// A patch of `len` bytes at `address`, and its first step.
pub open spec fn spec_start(address: Ptr, len: usize) -> (PatchSession, PatchAction) {
    let s = PatchSession { address, len, phase: PatchPhase::Unprotecting, saved: 0, written: Ok(()) };
    if len == 0 {
        (PatchSession { phase: PatchPhase::Done, ..s }, PatchAction::Finish(Ok(())))
    } else {
        (s, PatchAction::Protect { address, len, flags: PAGE_EXECUTE_READWRITE })
    }
}

impl PatchSession {
    /// The next state and step once a protection change reports `r`: the
    /// former protection, or an error code.
    pub open spec fn spec_on_protected(self, r: Result<u32, i32>) -> (PatchSession, PatchAction) {
        let done = PatchSession { phase: PatchPhase::Done, ..self };
        if self.phase == PatchPhase::Unprotecting {
            match r {
                Ok(former) => (
                    PatchSession { phase: PatchPhase::Writing, saved: former, ..self },
                    PatchAction::Write { address: self.address },
                ),
                Err(e) => (done, PatchAction::Finish(Err(e))),
            }
        } else {
            match r {
                Ok(_) => (done, PatchAction::Finish(self.written)),
                Err(e) => (
                    done,
                    PatchAction::Finish(
                        if self.written is Err {
                            self.written
                        } else {
                            Err(e)
                        },
                    ),
                ),
            }
        }
    }

    /// The next state and step once the write reports `r`.
    pub open spec fn spec_on_written(self, r: Result<(), i32>) -> (PatchSession, PatchAction) {
        (
            PatchSession { phase: PatchPhase::Restoring, written: r, ..self },
            PatchAction::Protect { address: self.address, len: self.len, flags: self.saved },
        )
    }

    /// Starts a patch of `len` bytes at `address`. Nothing is to be done for
    /// no bytes; otherwise the pages are first opened for writing.
    pub fn start(address: Ptr, len: usize) -> (r: (PatchSession, PatchAction))
        ensures
            r == spec_start(address, len),
    {
        let s = PatchSession {
            address,
            len,
            phase: PatchPhase::Unprotecting,
            saved: 0,
            written: Ok(()),
        };
        if len == 0 {
            (PatchSession { phase: PatchPhase::Done, ..s }, PatchAction::Finish(Ok(())))
        } else {
            (s, PatchAction::Protect { address, len, flags: PAGE_EXECUTE_READWRITE })
        }
    }

    /// Takes the report of a protection change: the former protection, or an
    /// error code. After the first change the data is to be written, unless
    /// the change failed; after the restoring change the patch is over, with
    /// the write's error if there was one, else the restore's.
    pub fn on_protected(&mut self, r: Result<u32, i32>) -> (a: PatchAction)
        requires
            old(self).phase == PatchPhase::Unprotecting || old(self).phase == PatchPhase::Restoring,
        ensures
            (*final(self), a) == old(self).spec_on_protected(r),
    {
        let done = PatchSession { phase: PatchPhase::Done, ..*self };
        if self.phase == PatchPhase::Unprotecting {
            match r {
                Ok(former) => {
                    self.phase = PatchPhase::Writing;
                    self.saved = former;
                    PatchAction::Write { address: self.address }
                },
                Err(e) => {
                    *self = done;
                    PatchAction::Finish(Err(e))
                },
            }
        } else {
            let result = match r {
                Ok(_) => self.written,
                Err(e) => match self.written {
                    Err(w) => Err(w),
                    Ok(()) => Err(e),
                },
            };
            *self = done;
            PatchAction::Finish(result)
        }
    }

    /// Takes the report of the write; the former protection is then to be
    /// put back, whatever the write reported.
    pub fn on_written(&mut self, r: Result<(), i32>) -> (a: PatchAction)
        requires
            old(self).phase == PatchPhase::Writing,
        ensures
            (*final(self), a) == old(self).spec_on_written(r),
    {
        self.phase = PatchPhase::Restoring;
        self.written = r;
        PatchAction::Protect { address: self.address, len: self.len, flags: self.saved }
    }
}

/// A patch puts back the protection it found: the pages are opened for
/// writing, the data written, and then, whether the write succeeded or not,
/// the protection that the first change reported is asked for again, so the
/// pages end with the flags they had before; the patch then reports the
/// write's result. If the pages cannot be opened, nothing is written and
/// their protection is left alone.
pub proof fn lemma_protection_restored(
    address: Ptr,
    len: usize,
    before: u32,
    write: Result<(), i32>,
    restored: u32,
    refused: i32,
)
    requires
        len > 0,
    ensures
        ({
            let (s1, a1) = spec_start(address, len);
            let (s2, a2) = s1.spec_on_protected(Ok(before));
            let (s3, a3) = s2.spec_on_written(write);
            let (s4, a4) = s3.spec_on_protected(Ok(restored));
            &&& a1 == PatchAction::Protect { address, len, flags: PAGE_EXECUTE_READWRITE }
            &&& a2 == PatchAction::Write { address }
            &&& a3 == PatchAction::Protect { address, len, flags: before }
            &&& flags_after(flags_after(flags_after(before, a1), a2), a3) == before
            &&& a4 == PatchAction::Finish(write)
            &&& s4.phase == PatchPhase::Done
        }),
        ({
            let (s1, a1) = spec_start(address, len);
            let (s2, a2) = s1.spec_on_protected(Err(refused));
            &&& a2 == PatchAction::Finish(Err(refused))
            &&& flags_after(before, a2) == before
            &&& s2.phase == PatchPhase::Done
        }),
{
}

} // verus!
