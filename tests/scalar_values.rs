use maze_wars::scalar::{Position, Rotation, Scalar};

fn f(v: f32) -> Scalar {
    Scalar::from_bits(v.to_bits())
}

#[test]
fn float_equality_by_bits() {
    assert!(f(1.5).same_value(&f(1.5)));
    assert!(!f(1.5).same_value(&f(2.5)));
    assert!(f(0.0).same_value(&f(-0.0)));
    assert!(!f(f32::NAN).same_value(&f(f32::NAN)));
    assert!(f(f32::INFINITY).same_value(&f(f32::INFINITY)));
    assert!(!f(f32::INFINITY).same_value(&f(f32::NEG_INFINITY)));
    assert_eq!(f(3.25).to_bits(), 3.25f32.to_bits());
}

#[test]
fn defaults_are_zero() {
    let p = Position::default();
    assert_eq!(p, Position::new(Scalar::zero(), Scalar::zero(), Scalar::zero()));
    let r = Rotation::default();
    assert_eq!(r.yaw.to_bits(), 0);
    assert!(p.same_as(&Position::new(f(-0.0), f(0.0), f(-0.0))));
    assert!(!r.same_as(&Rotation::new(f(0.0), f(1.0), f(0.0))));
}
