//! Handle types for standard stream descriptor slots.
//!
//! A `BorrowedHandle` is a non-owning view of a slot's integer identity: it
//! may be copied freely and releasing it never closes anything. An
//! `OwnedHandle` uniquely owns responsibility for its slot: releasing it
//! consumes the handle and hands the identity out exactly once, so whoever
//! performs the platform close does so at most once per acquisition.
//!
//! Neither constructor validates anything: whether the underlying slot is
//! actually open is the caller's knowledge, not this module's.

use vstd::prelude::*;

verus! {

/// A non-owning handle to a descriptor slot.
///
/// Many borrowed handles for the same slot may coexist; discarding one has no
/// effect on the slot.
#[derive(Clone, Copy, PartialEq, Eq, Structural, Debug)]
pub struct BorrowedHandle {
    raw: i32,
}

impl BorrowedHandle {
    /// The integer identity this handle refers to.
    pub closed spec fn id(&self) -> int {
        self.raw as int
    }

    /// Wraps a raw descriptor number in a non-owning handle.
    ///
    /// Performs no validation: the handle is only meaningful while the caller
    /// separately knows the slot is open.
    pub fn borrow_raw(raw: i32) -> (r: BorrowedHandle)
        ensures
            r.id() == raw as int,
    {
        BorrowedHandle { raw }
    }

    /// The bare integer identity, with no ownership or lifetime attached.
    pub fn as_raw(&self) -> (r: i32)
        ensures
            r as int == self.id(),
    {
        self.raw
    }
}

/// A uniquely-owning handle to a descriptor slot.
///
/// The handle is not copyable: ownership of the slot moves with it, and
/// `release` consumes it, so the identity can be handed to the closing
/// collaborator exactly once per acquisition.
#[derive(Debug)]
pub struct OwnedHandle {
    raw: i32,
}

impl OwnedHandle {
    /// The integer identity this handle owns.
    pub closed spec fn id(&self) -> int {
        self.raw as int
    }

    /// Takes ownership of a raw descriptor number.
    ///
    /// Performs no validation and closes nothing yet: constructing the handle
    /// only registers the future responsibility to close this identity.
    pub fn from_raw(raw: i32) -> (r: OwnedHandle)
        ensures
            r.id() == raw as int,
    {
        OwnedHandle { raw }
    }

    /// The bare integer identity, without giving up ownership.
    pub fn as_raw(&self) -> (r: i32)
        ensures
            r as int == self.id(),
    {
        self.raw
    }

    /// A non-owning view of the same slot.
    pub fn borrow(&self) -> (r: BorrowedHandle)
        ensures
            r.id() == self.id(),
    {
        BorrowedHandle::borrow_raw(self.raw)
    }

    /// Gives up ownership, returning the identity to be closed.
    ///
    /// The handle is consumed, so the identity comes out of it exactly once:
    /// the collaborator that performs the platform close can be invoked at
    /// most once per acquisition. The close itself is delegated to that
    /// collaborator; after it, nothing prevents the platform from reassigning
    /// the freed number to an unrelated resource.
    pub fn release(self) -> (r: i32)
        ensures
            r as int == self.id(),
    {
        self.raw
    }
}

} // verus!
