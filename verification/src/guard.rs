//! Scoped exchange of a slot's occupant.
//!
//! Both functions put something into a slot before they run a closure and undo that when the
//! closure is done. The undoing is owned by a guard whose destructor performs it, so that it
//! also happens when the closure unwinds.
use vstd::prelude::*;
use crate::slot::Slot;

verus! {

/// Holds what has to go back into a slot once the current scope ends.
///
/// While `slot` is present the guard is armed: dropping it stores `stash` in the slot.
struct Guard<'a, T> {
    slot: Option<&'a mut Slot<T>>,
    stash: Option<T>,
}

impl<'a, T> Guard<'a, T> {
    /// Exchanges the stash with the occupant of the guarded slot, if the guard is armed.
    fn restore(&mut self)
        ensures
            old(self).slot is None ==> *final(self) == *old(self),
            old(self).slot matches Some(before) ==> final(self).slot matches Some(after)
                && (*after)@ == old(self).stash && final(self).stash == (*before)@
                && *final(after) == *final(before),
        opens_invariants none
        no_unwind
    {
        match &mut self.slot {
            Some(slot) => {
                slot.exchange(&mut self.stash);
            },
            None => {},
        }
    }
}

impl<'a, T> Drop for Guard<'a, T> {
    /// Restores the guarded slot where the scope ended before it could do so itself.
    fn drop(&mut self)
        opens_invariants none
        no_unwind
    {
        self.restore();
    }
}

/// Installs `val` in `cell` for as long as `f` runs, then puts back what `cell` held before.
///
/// `f` is handed `cell` with `val` as its occupant and may do to it what it likes. Whatever
/// that was, `cell` afterwards holds what it held before the call. What `f` left in `cell`
/// comes back as the first part of the result: `val` as nested code changed it, or nothing
/// if `f` emptied the slot. The second part is what `f` returned.
pub fn with_swapped<T, R, F>(cell: &mut Slot<T>, val: T, f: F) -> (out: (Option<T>, R)) where
    F: FnOnce(&mut Slot<T>) -> R,

    requires
        forall|during: &mut Slot<T>| (*during)@ == Some(val) ==> f.requires((during,)),
    ensures
        final(cell)@ == old(cell)@,
        exists|during: &mut Slot<T>, result: R|
            (*during)@ == Some(val) && #[trigger] f.ensures((during,), result)
                && out == ((*final(during))@, result),
{
    let previous = cell.replace(Some(val));
    let mut guard = Guard { slot: Some(cell), stash: previous };
    let during = guard.slot.as_mut().unwrap();
    let result = f(&mut **during);
    guard.restore();
    // Disarmed: the slot is restored, the destructor has nothing left to do.
    guard.slot = None;
    (guard.stash.take(), result)
}

/// Takes the occupant out of `cell` for as long as `f` runs, lends it to `f`, and stores
/// what `f` leaves of it back in `cell`.
///
/// `f` is handed the occupant, or `None` where `cell` was empty, and `cell` itself, which
/// is empty for as long as `f` runs. What `f` leaves in its first argument is the occupant
/// of `cell` afterwards; what it leaves in `cell` is dropped.
pub fn with_key<T, R, F>(cell: &mut Slot<T>, f: F) -> (result: R) where
    F: FnOnce(&mut Option<T>, &mut Slot<T>) -> R,

    requires
        forall|held: &mut Option<T>, during: &mut Slot<T>|
            *held == old(cell)@ && (*during)@ is None ==> f.requires((held, during)),
    ensures
        exists|held: &mut Option<T>, during: &mut Slot<T>|
            *held == old(cell)@ && (*during)@ is None
                && #[trigger] f.ensures((held, during), result)
                && final(cell)@ == *final(held),
{
    let held = cell.take();
    let mut guard = Guard { slot: Some(cell), stash: held };
    let during = guard.slot.as_mut().unwrap();
    let result = f(&mut guard.stash, &mut **during);
    guard.restore();
    // Disarmed: the occupant is back, the destructor has nothing left to do.
    guard.slot = None;
    result
}

} // verus!
