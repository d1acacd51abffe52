//! The storage location of a scoped slot and its elementary moves.
use vstd::prelude::*;
use crate::guard::{with_key, with_swapped};

verus! {

/// What is said of a slot that was expected to hold a value and holds none.
pub const EMPTY_MESSAGE: &'static str = "expected thread local value, found none";

/// The slot holds no value: either no scope is open, or an enclosing `with` has the value out.
#[derive(Debug, Clone, Copy, PartialEq, Eq)]
pub struct NotSet;

impl NotSet {
    /// The text that goes with this failure.
    pub fn message(&self) -> (text: &'static str)
        ensures
            text == EMPTY_MESSAGE,
    {
        EMPTY_MESSAGE
    }
}

/// A storage location that is either empty or occupied by one value.
pub struct Slot<T> {
    value: Option<T>,
}

impl<T> View for Slot<T> {
    type V = Option<T>;

    /// The occupancy state: `None` while empty, `Some(v)` while occupied by `v`.
    closed spec fn view(&self) -> Option<T> {
        self.value
    }
}

impl<T> Slot<T> {
    /// An empty slot.
    pub fn new() -> (slot: Self)
        ensures
            slot@ is None,
    {
        Slot { value: None }
    }

    /// Whether the slot is occupied right now.
    pub fn is_set(&self) -> (set: bool)
        ensures
            set == (self@ is Some),
    {
        self.value.is_some()
    }

    /// Publishes `value` in the slot for as long as `body` runs.
    ///
    /// `body` is handed the slot with `value` installed, so that `is_set` answers `true` and
    /// `with` lends `value` for as long as `body` runs. When `body` is done the slot holds
    /// again what it held before the call, be that nothing or the value of an enclosing `set`.
    /// The call hands back what `body` left in the slot, which is `value` as nested code
    /// changed it, together with what `body` returned.
    pub fn set<R, F>(&mut self, value: T, body: F) -> (out: (Option<T>, R)) where
        F: FnOnce(&mut Slot<T>) -> R,

        requires
            forall|during: &mut Slot<T>| (*during)@ == Some(value) ==> body.requires((during,)),
        ensures
            final(self)@ == old(self)@,
            exists|during: &mut Slot<T>, result: R|
                (*during)@ == Some(value) && #[trigger] body.ensures((during,), result)
                    && out == ((*final(during))@, result),
    {
        with_swapped(self, value, body)
    }

    /// Lends the published value to `f` for as long as `f` runs.
    ///
    /// The value is out of the slot while `f` holds it, so `f` is handed the slot empty, and
    /// a `with` that `f` attempts on it is refused in turn. When `f` is done the value, as
    /// `f` left it, is back in the slot. On an empty slot `f` is not run and the call is
    /// refused with [`NotSet`]: no `set` is active, or an enclosing `with` has the value out.
    pub fn with<R, F>(&mut self, f: F) -> (out: Result<R, NotSet>) where
        F: FnOnce(&mut T, &mut Slot<T>) -> R,

        requires
            forall|value: &mut T, during: &mut Slot<T>|
                old(self)@ == Some(*value) && (*during)@ is None ==> f.requires((value, during)),
        ensures
            out is Ok <==> old(self)@ is Some,
            old(self)@ is None ==> out == Err::<R, NotSet>(NotSet) && final(self)@ is None,
            old(self)@ is Some ==> exists|value: &mut T, during: &mut Slot<T>, result: R|
                old(self)@ == Some(*value) && (*during)@ is None
                    && #[trigger] f.ensures((value, during), result)
                    && out == Ok::<R, NotSet>(result) && final(self)@ == Some(*final(value)),
    {
        let ghost before = self@;
        let lend = |held: &mut Option<T>, during: &mut Slot<T>| -> (out: Result<R, NotSet>)
            requires
                *held == before,
                (*during)@ is None,
            ensures
                before is None ==> out == Err::<R, NotSet>(NotSet) && *final(held) is None,
                before is Some ==> exists|value: &mut T, rest: &mut Slot<T>, result: R|
                    before == Some(*value) && (*rest)@ is None
                        && #[trigger] f.ensures((value, rest), result)
                        && out == Ok::<R, NotSet>(result) && *final(held) == Some(*final(value)),
            {
                match held {
                    Some(value) => Ok(f(value, during)),
                    None => Err(NotSet),
                }
            };
        with_key(self, lend)
    }

    /// Exchanges the occupant with the contents of `other`. Never unwinds.
    pub fn exchange(&mut self, other: &mut Option<T>)
        ensures
            final(self)@ == *old(other),
            *final(other) == old(self)@,
        opens_invariants none
        no_unwind
    {
        core::mem::swap(&mut self.value, other);
    }

    /// Removes the occupant and leaves the slot empty.
    pub fn take(&mut self) -> (occupant: Option<T>)
        ensures
            occupant == old(self)@,
            final(self)@ is None,
    {
        let mut occupant = None;
        self.exchange(&mut occupant);
        occupant
    }

    /// Stores `occupant` and hands back what the slot held before.
    pub fn replace(&mut self, occupant: Option<T>) -> (previous: Option<T>)
        ensures
            previous == old(self)@,
            final(self)@ == occupant,
    {
        let mut previous = occupant;
        self.exchange(&mut previous);
        previous
    }
}

} // verus!
