use lazy_pinned::LazyPinned;
use std::cell::Cell;

fn increment(x: &mut i32) {
    *x += 1;
}

#[test]
fn insert_then_increment() {
    let mut c: LazyPinned<i32> = LazyPinned::default();
    assert_eq!(*c.use_pin_or_insert_with(increment, || 0), 0);
    assert_eq!(c.0, Some(0));
    assert_eq!(*c.use_pin_or_insert_with(increment, || 0), 1);
    assert_eq!(c.0, Some(1));
}

#[test]
fn empty_slot_takes_the_insert_branch() {
    let used = Cell::new(0u32);
    let made = Cell::new(0u32);
    let mut c: LazyPinned<i32> = LazyPinned::default();
    let r = c.use_pin_or_insert_with(
        |x| {
            used.set(used.get() + 1);
            *x *= 2;
        },
        || {
            made.set(made.get() + 1);
            21
        },
    );
    assert_eq!(*r, 21);
    assert_eq!(used.get(), 0);
    assert_eq!(made.get(), 1);
    assert_eq!(c.0, Some(21));
}

#[test]
fn occupied_slot_takes_the_use_branch() {
    let used = Cell::new(0u32);
    let made = Cell::new(0u32);
    let mut c = LazyPinned(Some(4i32));
    let r = c.use_pin_or_insert_with(
        |x| {
            used.set(used.get() + 1);
            *x *= 2;
        },
        || {
            made.set(made.get() + 1);
            21
        },
    );
    assert_eq!(*r, 8);
    assert_eq!(used.get(), 1);
    assert_eq!(made.get(), 0);
    assert_eq!(c.0, Some(8));
}

#[test]
fn panicking_callbacks_on_the_branch_not_taken() {
    let mut c: LazyPinned<i32> = LazyPinned::default();
    c.use_pin_or_insert_with(|_| panic!("nothing to use yet"), || 3);
    assert_eq!(c.0, Some(3));
    c.use_pin_or_insert_with(increment, || panic!("nothing to make"));
    assert_eq!(c.0, Some(4));
    c.use_pin_or_insert_with_data(
        10,
        |d: i32, x: &mut i32| *x += d,
        |_| panic!("nothing to make"),
    );
    assert_eq!(c.0, Some(14));
}

#[test]
fn by_value_inserts_or_uses() {
    let mut c: LazyPinned<i32> = LazyPinned::default();
    assert_eq!(*c.use_pin_or_insert(increment, 30), 30);
    assert_eq!(c.0, Some(30));
    assert_eq!(*c.use_pin_or_insert(increment, 99), 31);
    assert_eq!(c.0, Some(31));
    *c.use_pin_or_insert(increment, 99) = 0;
    assert_eq!(c.0, Some(0));
}

#[test]
fn data_reaches_the_producer() {
    let mut c: LazyPinned<String> = LazyPinned::default();
    let r = c.use_pin_or_insert_with_data(
        String::from("seed"),
        |d: String, x: &mut String| x.push_str(&d),
        |d: String| format!("made from {}", d),
    );
    assert_eq!(r.as_str(), "made from seed");
    assert_eq!(c.0.as_deref(), Some("made from seed"));
}

#[test]
fn data_reaches_the_user() {
    let mut c = LazyPinned(Some(String::from("old")));
    let r = c.use_pin_or_insert_with_data(
        String::from("+new"),
        |d: String, x: &mut String| x.push_str(&d),
        |d: String| format!("made from {}", d),
    );
    assert_eq!(r.as_str(), "old+new");
    assert_eq!(c.0.as_deref(), Some("old+new"));
}
