use scoped_thread_local::example::{sum_in_scope, Container};
use scoped_thread_local::slot::Slot;

#[test]
fn example_sum_is_three() {
    let mut one = 1;
    let two = 2;
    let mut slot: Slot<Container> = Slot::new();
    let (back, sum) = sum_in_scope(&mut slot, Container { a: &mut one, b: &two });
    assert_eq!(sum, Ok(Some(3)));
    assert!(back.is_some());
    assert!(!slot.is_set());
}

#[test]
fn example_sum_overflow_is_none() {
    let mut big = i32::MAX;
    let one = 1;
    let mut slot: Slot<Container> = Slot::new();
    let (_, sum) = sum_in_scope(&mut slot, Container { a: &mut big, b: &one });
    assert_eq!(sum, Ok(None));
    let mut small = i32::MIN;
    let minus = -1;
    let (_, sum) = sum_in_scope(&mut slot, Container { a: &mut small, b: &minus });
    assert_eq!(sum, Ok(None));
    let mut top = i32::MAX;
    let zero = 0;
    let (_, sum) = sum_in_scope(&mut slot, Container { a: &mut top, b: &zero });
    assert_eq!(sum, Ok(Some(i32::MAX)));
}

#[test]
fn example_hands_the_container_back() {
    let mut one = 40;
    let two = 2;
    let mut slot: Slot<Container> = Slot::new();
    let (back, _) = sum_in_scope(&mut slot, Container { a: &mut one, b: &two });
    let container = back.unwrap();
    *container.a += *container.b;
    assert_eq!(one, 42);
}

#[test]
fn borrowed_parts_can_be_changed_in_scope() {
    let mut number = 7;
    let two = 2;
    let one = 1;
    let mut slot: Slot<Container> = Slot::new();
    let (back, seen) = slot.set(
        Container { a: &mut number, b: &two },
        |during: &mut Slot<Container>| {
            let first = during.with(|inner: &mut Container, _: &mut Slot<Container>| {
                let seen = (*inner.a, *inner.b);
                *inner.a += 1;
                inner.b = &one;
                seen
            });
            let second = during
                .with(|inner: &mut Container, _: &mut Slot<Container>| (*inner.a, *inner.b));
            (first, second)
        },
    );
    assert_eq!(seen, (Ok((7, 2)), Ok((8, 1))));
    let container = back.unwrap();
    assert_eq!((*container.a, *container.b), (8, 1));
    assert_eq!(number, 8);
}
