use borrow_as::Append;
use borrow_as::LifeRef;
use borrow_as::Mut;
use borrow_as::Ref;

#[test]
fn bundle_order_matches_call_order() {
    let first: u8 = 10;
    let second = String::from("middle");
    let bundle = LifeRef::wrap_ref(&first).add_ref(&second).add_mut(30i32);
    assert_eq!(*bundle.inner.0.get(), 10);
    assert_eq!(bundle.inner.1.get(), "middle");
    assert_eq!(bundle.inner.2.get(), 30);
}

#[test]
fn append_places_element_last() {
    let t = (1u8, 2u16);
    let bigger = t.append(3u32);
    assert_eq!(bigger, (1u8, 2u16, 3u32));
}

#[test]
fn append_grows_to_four() {
    let t = ();
    let t = t.append(1u8);
    let t = t.append(2u8);
    let t = t.append(3u8);
    let t = t.append(4u8);
    assert_eq!(t, (1u8, 2u8, 3u8, 4u8));
}

#[test]
fn append_reaches_arity_sixteen() {
    let t = ()
        .append(1u8)
        .append(2u8)
        .append(3u8)
        .append(4u8)
        .append(5u8)
        .append(6u8)
        .append(7u8)
        .append(8u8)
        .append(9u8)
        .append(10u8)
        .append(11u8)
        .append(12u8)
        .append(13u8)
        .append(14u8)
        .append(15u8)
        .append(16u8);
    assert_eq!(t.0, 1);
    assert_eq!(t.7, 8);
    assert_eq!(t.15, 16);
}

#[test]
fn wrap_life_nests_inner_value() {
    let u = LifeRef::from(true);
    assert!(u.inner);
    let uu = u.wrap_life();
    assert!(uu.inner.0);
}

#[test]
fn add_life_keeps_both_halves_in_order() {
    struct A;
    struct B;
    struct C;
    let a = LifeRef::from(A).wrap_life();
    let b = LifeRef::from(B);
    let c = LifeRef::from(C);
    let ab = a.add_life(b).wrap_life();
    let abc: LifeRef<'_, ((A, B), C)> = ab.add_life(c);
    let ((A, B), C) = abc.inner;
}

#[test]
fn add_life_bound_by_shorter_span() {
    let long_lived = String::from("outer");
    let outer = LifeRef::wrap_ref(&long_lived);
    {
        let short_lived: u32 = 1;
        let inner = LifeRef::wrap_ref(&short_lived);
        // The merged container's span shrinks to the shorter of the two:
        // it is usable here, and the borrow rules refuse any use of it
        // past the end of this block.
        let merged = outer.wrap_life().add_life(inner);
        assert_eq!((merged.inner.0).0.get(), "outer");
        assert_eq!(*(merged.inner.1).0.get(), 1);
    }
    assert_eq!(long_lived, "outer");
}

#[test]
fn map_life_identity_leaves_value_unchanged() {
    let mapped = LifeRef::from(42u32).map_life(|x| x);
    assert_eq!(mapped.inner, 42);
}

#[test]
fn map_life_into_named_view() {
    struct View<'a> {
        x: Mut<String>,
        y: Ref<'a, i32>,
        z: Mut<bool>,
    }

    let int = 42;
    let test = LifeRef::wrap_mut(String::from("Unaltered"))
        .add_ref(&int)
        .add_mut(false)
        .map_life(|(x, y, z)| View { x, y, z });
    let View { mut x, y, mut z } = test.inner;
    let mut s = x.take();
    s.replace_range(..3, "A");
    x.set(s);
    assert_eq!(y.get(), &42);
    let flipped = !z.get();
    z.set(flipped);
    assert_eq!(x.value, "Altered");
    assert!(z.get());
}

#[test]
fn from_wraps_plain_value() {
    let l = LifeRef::from(5u8);
    assert_eq!(l.inner, 5);
}

#[test]
fn default_wraps_default_value() {
    let l: LifeRef<'_, u32> = LifeRef::default();
    assert_eq!(l.inner, 0);
}
