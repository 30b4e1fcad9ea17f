use borrow_as::LifeRef;
use borrow_as::Mut;
use borrow_as::Ref;

#[test]
fn wrap_ref_string_equals_original() {
    let s = String::from("No string for you");
    let r = LifeRef::wrap_ref(&s);
    assert_eq!(r.inner.0.get(), &s);
    assert_eq!(*r.inner.0.get(), "No string for you");
}

#[test]
fn wrap_ref_number_equals_original() {
    let n: u32 = 9;
    let r = LifeRef::wrap_ref(&n);
    assert_eq!(*r.inner.0.get(), 9);
}

#[test]
fn mut_set_get_roundtrip() {
    let mut m = Mut::new(0i8);
    m.set(1);
    assert_eq!(m.get(), 1);
    m.set(-7);
    assert_eq!(m.get(), -7);
}

#[test]
fn mut_replace_returns_old_value() {
    let mut m = Mut::new(String::from("Unaltered"));
    let old = m.replace(String::from("Altered"));
    assert_eq!(old, "Unaltered");
    assert_eq!(m.value, "Altered");
}

#[test]
fn mut_take_returns_old_and_leaves_default() {
    let mut m = Mut::new(5u64);
    let old = m.take();
    assert_eq!(old, 5);
    assert_eq!(m.get(), 0);
}

#[test]
fn cells_split_set_and_gather() {
    let m = Mut::new(vec![1u128, 2, 3]);
    let mut cells = m.as_slice_of_cells();
    assert_eq!(cells.len(), 3);
    cells[2].set(4);
    let back = Mut::from_cells(cells);
    assert_eq!(back.value, vec![1, 2, 4]);
}

#[test]
fn ref_equality_delegates_to_referent() {
    let a: u32 = 5;
    let b: u32 = 5;
    let c: u32 = 6;
    let ra = Ref(&a);
    let rb = Ref(&b);
    let rc = Ref(&c);
    assert!(ra == rb);
    assert!(ra != rc);
    assert!(ra.eq_referent(&5));
    assert!(!ra.eq_referent(&6));
    assert!(ra < rc);
    assert!(!(rc < ra));
}

#[test]
fn mut_equality_delegates_to_held_value() {
    let ma = Mut::new(String::from("abc"));
    let mb = Mut::new(String::from("abc"));
    let mc = Mut::new(String::from("abd"));
    assert!(ma == mb);
    assert!(ma != mc);
    assert!(ma.eq_value(&String::from("abc")));
    assert!(ma < mc);
}

#[test]
fn cells_of_empty_sequence() {
    let m = Mut::new(Vec::<u128>::new());
    let cells = m.as_slice_of_cells();
    assert_eq!(cells.len(), 0);
    let back = Mut::from_cells(cells);
    assert_eq!(back.value, Vec::<u128>::new());
}
