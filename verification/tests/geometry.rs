use fgcore::cbox::CBox;

#[test]
fn dec_macro() {
    assert_eq!(CBox::nonzero(10), Some(CBox { x: 10 }));
    assert_eq!(CBox::nonzero(-10), Some(CBox { x: -10 }));
    assert_eq!(CBox::nonzero(0), None);
}

#[test]
fn overlap() {
    let a = CBox::nonzero(10).unwrap();
    assert!(a.overlap(0, a, 0));
    assert!(a.overlap(0, a.negated(), 19));
    assert!(!a.overlap(0, a.negated(), 20));
}

#[test]
fn overlap_amount() {
    let a = CBox::nonzero(10).unwrap();
    assert_eq!(a.overlap_amount(0, a.negated(), 18), 1);
    assert_eq!(a.overlap_amount(0, a.negated(), 20), 0);
}

#[test]
fn overlap_is_symmetric() {
    let a = CBox { x: 7 };
    let b = CBox { x: -3 };
    let offsets: Vec<i16> = vec![-9, -2, 0, 1, 4, 11];
    for &oa in offsets.iter() {
        for &ob in offsets.iter() {
            assert_eq!(a.overlap(oa, b, ob), b.overlap(ob, a, oa));
        }
    }
}

#[test]
fn overlap_self_nonzero_width() {
    let a = CBox { x: 10 };
    assert!(a.overlap(5, a, 5));
    let m = CBox { x: -4 };
    assert!(m.overlap(-3, m, -3));
}

#[test]
fn overlap_zero_width_never() {
    let z = CBox { x: 0 };
    assert!(!z.overlap(4, z, 4));
    assert!(!z.overlap(4, z, 9));
    let other = CBox { x: 0 };
    assert!(!z.overlap(-2, other, -2));
}

#[test]
fn overlap_adjacent_never() {
    let a = CBox { x: 10 };
    assert!(!a.overlap(0, a, 10));
    assert!(!a.overlap(10, a, 0));
}

#[test]
fn scaled_and_negated_mirror() {
    assert_eq!(CBox { x: 12 }.scaled(-2), CBox { x: -24 });
    assert_eq!(CBox { x: 12 }.scaled(1), CBox { x: 12 });
    assert_eq!(CBox { x: 5 }.negated(), CBox { x: -5 });
    assert_eq!(CBox { x: -5 }.negated(), CBox { x: 5 });
}

#[test]
fn fixed_intervals() {
    assert_eq!(CBox::collision(), CBox { x: 125 });
    assert_eq!(CBox::base_hurtbox(), CBox { x: 158 });
}
