//! What holds when scopes and borrows of one slot are nested in each other.
//!
//! What one call does is said by its own contract: a `set` leaves the slot as it found it, a
//! `with` on an empty slot is refused. The laws here are about calls inside calls. Each takes
//! the closures involved and the outcome of the outermost call. Its hypotheses are the
//! postconditions of the calls that were made; its conclusion is what the caller of the
//! outermost call may rely on.
use vstd::prelude::*;
use crate::slot::{NotSet, Slot};

verus! {

/// Mutation is visible: a `set` whose body is one `with` hands back the value as the
/// callback of that `with` left it, together with what the callback returned.
pub proof fn lemma_mutation_is_visible<T, R, B, C>(
    value: T,
    body: B,
    callback: C,
    out: (Option<T>, Result<R, NotSet>),
) where B: FnOnce(&mut Slot<T>) -> Result<R, NotSet>, C: FnOnce(&mut T, &mut Slot<T>) -> R
    requires
        exists|during: &mut Slot<T>, seen: Result<R, NotSet>|
            (*during)@ == Some(value) && #[trigger] body.ensures((during,), seen)
                && out == ((*final(during))@, seen),
        forall|during: &mut Slot<T>, seen: Result<R, NotSet>| #[trigger]
            body.ensures((during,), seen) ==> {
                &&& (*during)@ is None ==> seen == Err::<R, NotSet>(NotSet)
                    && (*final(during))@ is None
                &&& (*during)@ is Some ==> exists|lent: &mut T, rest: &mut Slot<T>, result: R|
                    (*during)@ == Some(*lent) && (*rest)@ is None
                        && #[trigger] callback.ensures((lent, rest), result)
                        && seen == Ok::<R, NotSet>(result)
                        && (*final(during))@ == Some(*final(lent))
            },
    ensures
        exists|lent: &mut T, rest: &mut Slot<T>, result: R|
            *lent == value && (*rest)@ is None
                && #[trigger] callback.ensures((lent, rest), result)
                && out == (Some(*final(lent)), Ok::<R, NotSet>(result)),
{
}

/// Reentrancy is refused: a `with` that is attempted from inside the callback of a `with` on
/// the same slot finds the slot empty and comes back with `NotSet`, whatever it was handed.
pub proof fn lemma_reentrant_with_is_refused<T, R, C, I>(
    held: T,
    callback: C,
    inner: I,
    out: Result<Result<R, NotSet>, NotSet>,
) where
    C: FnOnce(&mut T, &mut Slot<T>) -> Result<R, NotSet>,
    I: FnOnce(&mut T, &mut Slot<T>) -> R,

    requires
        exists|lent: &mut T, rest: &mut Slot<T>, seen: Result<R, NotSet>|
            *lent == held && (*rest)@ is None
                && #[trigger] callback.ensures((lent, rest), seen)
                && out == Ok::<Result<R, NotSet>, NotSet>(seen),
        forall|lent: &mut T, rest: &mut Slot<T>, seen: Result<R, NotSet>| #[trigger]
            callback.ensures((lent, rest), seen) ==> {
                &&& (*rest)@ is None ==> seen == Err::<R, NotSet>(NotSet)
                    && (*final(rest))@ is None
                &&& (*rest)@ is Some ==> exists|again: &mut T, emptied: &mut Slot<T>, result: R|
                    (*rest)@ == Some(*again) && (*emptied)@ is None
                        && #[trigger] inner.ensures((again, emptied), result)
                        && seen == Ok::<R, NotSet>(result)
                        && (*final(rest))@ == Some(*final(again))
            },
    ensures
        out == Ok::<Result<R, NotSet>, NotSet>(Err(NotSet)),
{
}

/// The probe sees the scope: a `set` whose body asks `is_set` of the slot it was handed is
/// answered `true`, and gets its value back untouched.
pub proof fn lemma_probe_sees_scope<T, B>(value: T, body: B, out: (Option<T>, bool)) where
    B: FnOnce(&mut Slot<T>) -> bool,

    requires
        exists|during: &mut Slot<T>, seen: bool|
            (*during)@ == Some(value) && #[trigger] body.ensures((during,), seen)
                && out == ((*final(during))@, seen),
        forall|during: &mut Slot<T>, seen: bool| #[trigger]
            body.ensures((during,), seen) ==> seen == ((*during)@ is Some)
                && (*final(during))@ == (*during)@,
    ensures
        out == (Some(value), true),
{
}

/// Scopes nest as a stack: a `set` of `outer_value` whose body is a `set` of `inner_value`
/// runs the inner body on a slot that holds `inner_value`, and once the inner scope has
/// ended `outer_value` is in the slot again, unchanged.
pub proof fn lemma_nested_scopes_are_lifo<T, R, B, I>(
    outer_value: T,
    inner_value: T,
    body: B,
    inner: I,
    out: (Option<T>, (Option<T>, R)),
) where B: FnOnce(&mut Slot<T>) -> (Option<T>, R), I: FnOnce(&mut Slot<T>) -> R
    requires
        exists|during: &mut Slot<T>, seen: (Option<T>, R)|
            (*during)@ == Some(outer_value) && #[trigger] body.ensures((during,), seen)
                && out == ((*final(during))@, seen),
        forall|during: &mut Slot<T>, seen: (Option<T>, R)| #[trigger]
            body.ensures((during,), seen) ==> {
                &&& (*final(during))@ == (*during)@
                &&& exists|nested: &mut Slot<T>, result: R|
                    (*nested)@ == Some(inner_value)
                        && #[trigger] inner.ensures((nested,), result)
                        && seen == ((*final(nested))@, result)
            },
    ensures
        out.0 == Some(outer_value),
        exists|nested: &mut Slot<T>, result: R|
            (*nested)@ == Some(inner_value) && #[trigger] inner.ensures((nested,), result)
                && out.1 == ((*final(nested))@, result),
{
}

} // verus!
