//! A worked example: two borrowed numbers published in a slot and read from inside the scope.
use vstd::prelude::*;
use crate::slot::{NotSet, Slot};

verus! {

/// Two numbers that live elsewhere: one borrowed exclusively, one shared.
pub struct Container<'a, 'b> {
    pub a: &'a mut i32,
    pub b: &'b i32,
}

/// The sum of `a` and `b` where it fits an `i32`.
pub open spec fn checked_sum(a: i32, b: i32) -> Option<i32> {
    if i32::MIN <= a + b <= i32::MAX {
        Some((a + b) as i32)
    } else {
        None
    }
}

/// Publishes `container` in `slot` and reads the sum of its two numbers from inside the scope.
///
/// The container comes back as it went in and the slot is left as it was found.
pub fn sum_in_scope<'a, 'b>(
    slot: &mut Slot<Container<'a, 'b>>,
    container: Container<'a, 'b>,
) -> (out: (Option<Container<'a, 'b>>, Result<Option<i32>, NotSet>))
    ensures
        final(slot)@ == old(slot)@,
        out.0 == Some(container),
        out.1 == Ok::<Option<i32>, NotSet>(checked_sum(*old(container.a), *container.b)),
{
    let read = |inner: &mut Container<'a, 'b>, rest: &mut Slot<Container<'a, 'b>>| -> (sum:
        Option<i32>)
        ensures
            sum == checked_sum(*old(inner).a, *old(inner).b),
            *final(inner) == *old(inner),
        {
            (*inner.a).checked_add(*inner.b)
        };
    let body = |during: &mut Slot<Container<'a, 'b>>| -> (seen: Result<Option<i32>, NotSet>)
        requires
            (*during)@ == Some(container),
        ensures
            seen == Ok::<Option<i32>, NotSet>(checked_sum(*container.a, *container.b)),
            (*final(during))@ == Some(container),
        {
            during.with(read)
        };
    slot.set(container, body)
}

} // verus!
