use nodui::size_hint::SizeHint;
use nodui::Pos;

#[test]
fn pos_new_keeps_coordinates() {
    let p = Pos::new(-3, 7);
    assert_eq!(p.x, -3);
    assert_eq!(p.y, 7);
    assert_eq!(Pos::default(), Pos::new(0, 0));
}

#[test]
fn exact_hint() {
    let h = SizeHint::exact(4);
    assert_eq!(h.min, 4);
    assert_eq!(h.max, Some(4));
    assert_eq!(h.min(), 4);
    assert_eq!(h.max(), Some(4));
}

#[test]
fn at_least_and_at_most() {
    assert_eq!(SizeHint::at_least(3), SizeHint { min: 3, max: None });
    assert_eq!(SizeHint::at_most(3), SizeHint { min: 0, max: Some(3) });
}

#[test]
fn hint_of_slice() {
    let v = [1u8, 2, 3];
    assert_eq!(SizeHint::of(&v[..]), SizeHint::exact(3));
    let empty: [u32; 0] = [];
    assert_eq!(SizeHint::of(&empty[..]), SizeHint::exact(0));
}

#[test]
fn hint_of_iterator() {
    let v = vec![1, 2, 3, 4, 5];
    let iter = v.iter();
    assert_eq!(SizeHint::of_iter(&iter), SizeHint::exact(5));
    let filtered = v.iter().filter(|x| **x > 2);
    assert_eq!(SizeHint::of_iter(&filtered), SizeHint::at_most(5));
}

#[test]
fn add_exact_hints() {
    assert_eq!(SizeHint::exact(2) + SizeHint::exact(3), SizeHint::exact(5));
}

#[test]
fn add_with_unbounded_hint() {
    assert_eq!(
        SizeHint::exact(2) + SizeHint::at_least(3),
        SizeHint { min: 5, max: None }
    );
    assert_eq!(
        SizeHint::at_least(1) + SizeHint::at_most(3),
        SizeHint { min: 1, max: None }
    );
}

#[test]
fn add_saturates_and_overflows() {
    let big = SizeHint::exact(usize::MAX);
    let sum = big + SizeHint::exact(1);
    assert_eq!(sum.min, usize::MAX);
    assert_eq!(sum.max, None);
}

#[test]
fn add_assign_accumulates() {
    let mut h = SizeHint::at_most(2);
    h += SizeHint::exact(3);
    assert_eq!(h, SizeHint { min: 3, max: Some(5) });
}

#[test]
fn add_is_commutative_and_associative_on_values() {
    let a = SizeHint { min: 1, max: Some(4) };
    let b = SizeHint::at_least(2);
    let c = SizeHint::exact(usize::MAX - 1);
    assert_eq!(a + b, b + a);
    assert_eq!((a + b) + c, a + (b + c));
    assert_eq!((a + c) + a, a + (c + a));
    assert_eq!(a + SizeHint::exact(0), a);
}

#[test]
fn hint_from_bounds() {
    assert_eq!(SizeHint::from_bounds((2, Some(7))), SizeHint { min: 2, max: Some(7) });
    assert_eq!(SizeHint::from_bounds((3, None)), SizeHint::at_least(3));
    let v = vec![1, 2, 3];
    let iter = v.iter().skip(1);
    assert_eq!(SizeHint::of_iter(&iter), SizeHint::from_bounds(iter.size_hint()));
}
