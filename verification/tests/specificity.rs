use selectors::Bounds;
use selectors::Specificity;
use selectors::UnpackedSpecificity;

fn packed(id: u32, class_like: u32, element: u32) -> Specificity {
    UnpackedSpecificity::new(id, class_like, element).into()
}

fn unpacked(id: u32, class_like: u32, element: u32) -> UnpackedSpecificity {
    UnpackedSpecificity::new(id, class_like, element)
}

#[test]
fn test_ordering_is_lexicographic() {
    // One id outweighs any number of class-like selectors, until that
    // tier saturates.
    assert!(packed(1, 0, 0) > packed(0, 1023, 1023));
    assert!(packed(0, 1, 0) > packed(0, 0, 1023));
    assert!(packed(2, 0, 0) > packed(1, 1023, 1023));
    assert!(packed(1, 2, 0) > packed(1, 1, 1023));
    assert!(packed(1, 1, 2) > packed(1, 1, 1));
    // Saturation: 1024 classes compare equal to 1023.
    assert_eq!(packed(0, 1024, 0), packed(0, 1023, 0));
    assert!(packed(0, 5000, 0) < packed(1, 0, 0));
}

#[test]
fn test_pack_unpack_round_trip() {
    let u = unpacked(3, 5, 7);
    let s: Specificity = u.into();
    let back: UnpackedSpecificity = s.into();
    assert_eq!(back, u);
    let edge = unpacked(1023, 0, 1023);
    let back: UnpackedSpecificity = Specificity::from(edge).into();
    assert_eq!(back, edge);
    // Beyond the saturation point one tier clamps without altering the
    // other two.
    let over = unpacked(1500, 2, 3);
    let back: UnpackedSpecificity = Specificity::from(over).into();
    assert_eq!(back, unpacked(1023, 2, 3));
    let over = unpacked(4, 2000, 6);
    let back: UnpackedSpecificity = Specificity::from(over).into();
    assert_eq!(back, unpacked(4, 1023, 6));
}

#[test]
fn test_packed_add_saturates_per_tier() {
    assert_eq!(packed(1, 2, 3).add(packed(4, 5, 6)), packed(5, 7, 9));
    // A tier overflowing its own range must not corrupt its neighbours.
    assert_eq!(packed(0, 1023, 0).add(packed(0, 1, 0)), packed(0, 1023, 0));
    assert_eq!(packed(1000, 1000, 1000).add(packed(100, 100, 100)), packed(1023, 1023, 1023));
    assert_eq!(packed(0, 0, 1023).add(packed(0, 0, 1023)), packed(0, 0, 1023));
}

#[test]
fn test_defaults_are_zero() {
    assert_eq!(Specificity::default(), packed(0, 0, 0));
    let d = UnpackedSpecificity::default();
    assert_eq!(d, unpacked(0, 0, 0));
    assert_eq!(unpacked(1, 2, 3).add(unpacked(10, 20, 30)), unpacked(11, 22, 33));
}

#[test]
fn test_bounds_widen_laws() {
    let a = Bounds { min: unpacked(0, 2, 3), max: unpacked(5, 6, 7) };
    let b = Bounds { min: unpacked(1, 1, 4), max: unpacked(4, 9, 2) };
    let c = Bounds { min: unpacked(2, 0, 0), max: unpacked(2, 3, 9) };
    // Widening with itself is a no-op.
    assert_eq!(a.widen(a), a);
    // Commutative and associative.
    assert_eq!(a.widen(b), b.widen(a));
    assert_eq!(a.widen(b).widen(c), a.widen(b.widen(c)));
    // The result contains both ranges.
    let w = a.widen(b);
    assert_eq!(w.min, unpacked(0, 1, 3));
    assert_eq!(w.max, unpacked(5, 9, 7));
    assert!(w.min <= a.min && w.min <= b.min);
    assert!(w.max >= a.max && w.max >= b.max);
}

#[test]
fn test_bounds_incr_and_add() {
    let mut b = Bounds { min: unpacked(0, 0, 0), max: unpacked(1, 1, 1) };
    b.incr_id_selectors();
    assert_eq!(b, Bounds { min: unpacked(1, 0, 0), max: unpacked(2, 1, 1) });
    b.incr_class_like_selectors();
    assert_eq!(b, Bounds { min: unpacked(1, 1, 0), max: unpacked(2, 2, 1) });
    b.incr_element_selectors();
    assert_eq!(b, Bounds { min: unpacked(1, 1, 1), max: unpacked(2, 2, 2) });
    let other = Bounds { min: unpacked(1, 2, 3), max: unpacked(4, 5, 6) };
    assert_eq!(
        b.add(other),
        Bounds { min: unpacked(2, 3, 4), max: unpacked(6, 7, 8) },
    );
}

#[test]
fn test_bounds_pack_and_unpack() {
    let b = Bounds { min: unpacked(1, 2, 3), max: unpacked(2000, 5, 6) };
    let packed_bounds: Bounds<Specificity> = b.pack();
    assert_eq!(packed_bounds.min, packed(1, 2, 3));
    assert_eq!(packed_bounds.max, packed(1023, 5, 6));
    let back: Bounds<UnpackedSpecificity> = packed_bounds.unpack();
    assert_eq!(back.min, unpacked(1, 2, 3));
    assert_eq!(back.max, unpacked(1023, 5, 6));
}

#[test]
fn test_bounds_add_value() {
    let b = Bounds { min: unpacked(0, 1, 2), max: unpacked(3, 4, 5) };
    assert_eq!(
        b.add_value(unpacked(1, 1, 1)),
        Bounds { min: unpacked(1, 2, 3), max: unpacked(4, 5, 6) },
    );
}

#[test]
fn test_packed_bounds_widen() {
    let a = Bounds { min: packed(0, 2, 3), max: packed(5, 6, 7) };
    let b = Bounds { min: packed(1, 1, 4), max: packed(4, 9, 2) };
    let w = a.widen(b);
    assert_eq!(w.min, packed(0, 1, 3));
    assert_eq!(w.max, packed(5, 9, 7));
    assert_eq!(a.widen(a), a);
    assert_eq!(a.widen(b), b.widen(a));
}
