//! Accessors for the three standard stream descriptor slots.
//!
//! The standard input, output and error streams of a process live in three
//! fixed descriptor slots, identified by the small integers that POSIX
//! assigns them: 0, 1 and 2. This crate offers each slot in three forms:
//! borrowed (a non-owning view), owned (a handle that carries the one-time
//! responsibility to close the slot), and raw (the bare integer identity).
//!
//! Nothing here validates that a slot is actually open: the accessors are
//! constant-time, allocation-free constructions, safe under the assumption
//! that the surrounding environment keeps the standard slots open and never
//! reassigns them. Where that assumption does not hold, the caller must know
//! the slot's state independently; this crate performs zero checking, and the
//! close that an owned handle's release leads to is delegated to whatever
//! code receives the released identity.
//!
//! Taking ownership of a slot is the one operation with real weight: at most
//! one owned handle per slot should be alive at a time, and after its release
//! the platform may silently hand the freed number to an unrelated resource.
//! That discipline is the caller's; the crate documents the hazard and does
//! not guard against it.

use vstd::prelude::*;

mod handles;

pub use handles::BorrowedHandle;
pub use handles::OwnedHandle;

verus! {

/// The fixed integer identity of the standard input slot.
pub const STDIN_SLOT: i32 = 0;

/// The fixed integer identity of the standard output slot.
pub const STDOUT_SLOT: i32 = 1;

/// The fixed integer identity of the standard error slot.
pub const STDERR_SLOT: i32 = 2;

/// Which of the three standard stream slots an accessor refers to.
#[derive(Clone, Copy, PartialEq, Eq, Structural, Debug)]
pub enum StdSlot {
    Input,
    Output,
    Error,
}

/// The fixed integer identity of each standard slot: 0, 1 and 2 for input,
/// output and error, as POSIX assigns them.
pub open spec fn slot_number(kind: StdSlot) -> int {
    match kind {
        StdSlot::Input => 0,
        StdSlot::Output => 1,
        StdSlot::Error => 2,
    }
}

/// The bare integer identity of a standard slot.
///
/// Always succeeds, with no side effect; the integer carries no ownership or
/// lifetime, and is meaningless once the caller does not separately know
/// whether the slot is open.
pub fn raw_slot(kind: StdSlot) -> (r: i32)
    ensures
        r as int == slot_number(kind),
{
    match kind {
        StdSlot::Input => STDIN_SLOT,
        StdSlot::Output => STDOUT_SLOT,
        StdSlot::Error => STDERR_SLOT,
    }
}

/// A non-owning handle for a standard slot.
///
/// Pure construction: no allocation, no I/O, no validation. The handle's
/// identity is exactly the slot's fixed integer. Any number of borrowed
/// handles may coexist, and discarding one closes nothing.
pub fn borrowed_slot(kind: StdSlot) -> (r: BorrowedHandle)
    ensures
        r.id() == slot_number(kind),
{
    BorrowedHandle::borrow_raw(raw_slot(kind))
}

/// An owning handle for a standard slot.
///
/// No close happens at construction; the handle only registers the one-time
/// responsibility to close the slot, discharged when it is later released.
/// The caller accepts that the slot is now taken: no other code path should
/// independently close it or keep treating it as an always-open standard
/// slot. For the error slot, release is best deferred until no further
/// descriptors will be created, since the freed number 2 may be reassigned.
pub fn owned_slot(kind: StdSlot) -> (r: OwnedHandle)
    ensures
        r.id() == slot_number(kind),
{
    OwnedHandle::from_raw(raw_slot(kind))
}

/// Standard input, borrowed.
pub fn stdin() -> (r: BorrowedHandle)
    ensures
        r.id() == slot_number(StdSlot::Input),
{
    borrowed_slot(StdSlot::Input)
}

/// Standard output, borrowed.
pub fn stdout() -> (r: BorrowedHandle)
    ensures
        r.id() == slot_number(StdSlot::Output),
{
    borrowed_slot(StdSlot::Output)
}

/// Standard error, borrowed.
pub fn stderr() -> (r: BorrowedHandle)
    ensures
        r.id() == slot_number(StdSlot::Error),
{
    borrowed_slot(StdSlot::Error)
}

/// Standard input, owned: releasing the handle closes standard input.
pub fn take_stdin() -> (r: OwnedHandle)
    ensures
        r.id() == slot_number(StdSlot::Input),
{
    owned_slot(StdSlot::Input)
}

/// Standard output, owned: releasing the handle closes standard output.
pub fn take_stdout() -> (r: OwnedHandle)
    ensures
        r.id() == slot_number(StdSlot::Output),
{
    owned_slot(StdSlot::Output)
}

/// Standard error, owned: releasing the handle closes standard error.
///
/// Release it only when no more descriptors will be created, since a newly
/// opened descriptor may be assigned the freed number 2, breaking code that
/// assumes the error slot is always open there.
pub fn take_stderr() -> (r: OwnedHandle)
    ensures
        r.id() == slot_number(StdSlot::Error),
{
    owned_slot(StdSlot::Error)
}

/// Standard input, raw.
pub fn raw_stdin() -> (r: i32)
    ensures
        r == STDIN_SLOT,
{
    raw_slot(StdSlot::Input)
}

/// Standard output, raw.
pub fn raw_stdout() -> (r: i32)
    ensures
        r == STDOUT_SLOT,
{
    raw_slot(StdSlot::Output)
}

/// Standard error, raw.
pub fn raw_stderr() -> (r: i32)
    ensures
        r == STDERR_SLOT,
{
    raw_slot(StdSlot::Error)
}

/// Law: the three standard slots carry the fixed identities 0, 1 and 2, so
/// no two slots share an identity.
pub proof fn lemma_slot_identities_fixed()
    ensures
        slot_number(StdSlot::Input) == 0,
        slot_number(StdSlot::Output) == 1,
        slot_number(StdSlot::Error) == 2,
        forall|a: StdSlot, b: StdSlot| slot_number(a) == slot_number(b) ==> a == b,
{
}

/// Law: the raw identity of a slot is deterministic — any two values that
/// `raw_slot` returns for the same kind are equal, so repeated calls are
/// idempotent.
pub proof fn lemma_raw_slot_deterministic(kind: StdSlot, a: i32, b: i32)
    requires
        a as int == slot_number(kind),
        b as int == slot_number(kind),
    ensures
        a == b,
{
}

/// Law: a borrowed handle for a slot carries exactly the identity that
/// `raw_slot` returns for that slot.
pub proof fn lemma_borrowed_matches_raw(kind: StdSlot, h: BorrowedHandle, r: i32)
    requires
        h.id() == slot_number(kind),
        r as int == slot_number(kind),
    ensures
        h.id() == r as int,
{
}

/// Law: an owned handle for a slot carries exactly the identity that
/// `raw_slot` returns for that slot, and its release hands out that same
/// identity.
pub proof fn lemma_owned_matches_raw(kind: StdSlot, h: OwnedHandle, r: i32)
    requires
        h.id() == slot_number(kind),
        r as int == slot_number(kind),
    ensures
        h.id() == r as int,
{
}

} // verus!
