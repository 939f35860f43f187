use physics::{Rat, Vec2};

#[test]
fn plus_is_exact() {
    let r = Rat::new(1, 2).plus(&Rat::new(1, 3)).unwrap();
    assert_eq!(r.num, 5);
    assert_eq!(r.den, 6);
}

#[test]
fn minus_is_exact() {
    let r = Rat::new(1, 2).minus(&Rat::new(1, 3)).unwrap();
    assert_eq!(r.num, 1);
    assert_eq!(r.den, 6);
}

#[test]
fn times_is_exact() {
    let r = Rat::new(2, 3).times(&Rat::new(3, 4)).unwrap();
    assert_eq!(r.num, 6);
    assert_eq!(r.den, 12);
    assert_eq!(r.eqv(&Rat::new(1, 2)), Some(true));
}

#[test]
fn divide_is_exact() {
    let r = Rat::new(1, 2).divide(&Rat::new(3, 4)).unwrap();
    assert_eq!(r.num, 4);
    assert_eq!(r.den, 6);
}

#[test]
fn neg_and_signs() {
    let r = Rat::new(3, 7).neg();
    assert_eq!(r.num, -3);
    assert_eq!(r.den, 7);
    assert!(r.is_neg());
    assert!(!r.is_pos());
    assert!(Rat::new(3, 7).is_pos());
}

#[test]
fn comparisons() {
    let a = Rat::new(1, 3);
    let b = Rat::new(1, 2);
    assert_eq!(a.lt(&b), Some(true));
    assert_eq!(a.gt(&b), Some(false));
    assert_eq!(a.le(&b), Some(true));
    assert_eq!(a.le(&Rat::new(2, 6)), Some(true));
    assert_eq!(a.eqv(&Rat::new(2, 6)), Some(true));
    assert_eq!(a.eqv(&b), Some(false));
}

#[test]
fn plus_overflow_is_none() {
    let big = Rat { num: i128::MAX, den: 1 };
    assert!(big.plus(&big).is_none());
    assert!(big.times(&big).is_none());
}

#[test]
fn dot_product_is_exact() {
    let u = Vec2::new(Rat::new(1, 1), Rat::new(2, 1));
    let v = Vec2::new(Rat::new(3, 1), Rat::new(4, 1));
    let d = u.dot(&v).unwrap();
    assert_eq!(d.eqv(&Rat::new(11, 1)), Some(true));
    let s = v.sqr_length().unwrap();
    assert_eq!(s.eqv(&Rat::new(25, 1)), Some(true));
}

#[test]
fn vector_sums_and_scaling() {
    let u = Vec2::new(Rat::new(1, 2), Rat::new(-1, 3));
    let v = Vec2::new(Rat::new(1, 3), Rat::new(1, 6));
    let s = u.plus(&v).unwrap();
    assert_eq!(s.x.eqv(&Rat::new(5, 6)), Some(true));
    assert_eq!(s.y.eqv(&Rat::new(-1, 6)), Some(true));
    let d = u.minus(&v).unwrap();
    assert_eq!(d.x.eqv(&Rat::new(1, 6)), Some(true));
    let w = u.scale(&Rat::new(2, 1)).unwrap();
    assert_eq!(w.x.eqv(&Rat::new(1, 1)), Some(true));
    assert_eq!(w.y.eqv(&Rat::new(-2, 3)), Some(true));
}
