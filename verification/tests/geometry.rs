use pdfpackman::Orientation;
use pdfpackman::Position;
use pdfpackman::Rat;
use pdfpackman::ScaleCalculator;

#[test]
fn scale_calculator_init() {
    let c: ScaleCalculator = ScaleCalculator { width: Rat::new(1, 1), height: Rat::new(2, 1) };
    assert_eq!(c.width, Rat::new(1, 1));
    assert_eq!(c.height, Rat::new(2, 1));
}

#[test]
fn scale_calculator_orientation_landscape() {
    let c: ScaleCalculator = ScaleCalculator { width: Rat::new(100, 1), height: Rat::new(50, 1) };
    assert_eq!(
        c.get_orientation(),
        Orientation::Landscape { width: Rat::new(297, 1), height: Rat::new(210, 1) }
    );
}

#[test]
fn scale_calculator_orientation_portrait() {
    let c: ScaleCalculator = ScaleCalculator { width: Rat::new(100, 1), height: Rat::new(150, 1) };
    assert_eq!(
        c.get_orientation(),
        Orientation::Portrait { width: Rat::new(210, 1), height: Rat::new(297, 1) }
    );
}

#[test]
fn scale_calculator_orientation_landscape_scale() {
    let c: ScaleCalculator = ScaleCalculator { width: Rat::new(100, 1), height: Rat::new(100, 1) };
    let o = Orientation::Landscape { width: Rat::new(297, 1), height: Rat::new(210, 1) };
    let expected = Rat::new(210, 1).div(&Rat::new(100, 1));
    assert_eq!(c.get_scale(&o), expected);
}

#[test]
fn scale_calculator_position() {
    let c: ScaleCalculator = ScaleCalculator { width: Rat::new(50, 1), height: Rat::new(50, 1) };
    let o = Orientation::Landscape { width: Rat::new(200, 1), height: Rat::new(100, 1) };
    let expected = Position { x: Rat::new(50, 1), y: Rat::new(0, 1) };
    assert!(c.get_position(&o, &Rat::new(2, 1)).same_value(&expected));
}

#[test]
fn orientation_square_is_portrait() {
    let c: ScaleCalculator = ScaleCalculator { width: Rat::new(50, 1), height: Rat::new(50, 1) };
    assert_eq!(
        c.get_orientation(),
        Orientation::Portrait { width: Rat::new(210, 1), height: Rat::new(297, 1) }
    );
}

#[test]
fn orientation_square_fractions() {
    // 3/2 and 6/4 are the same length written differently: still a square.
    let c: ScaleCalculator = ScaleCalculator { width: Rat::new(3, 2), height: Rat::new(6, 4) };
    assert_eq!(
        c.get_orientation(),
        Orientation::Portrait { width: Rat::new(210, 1), height: Rat::new(297, 1) }
    );
}

#[test]
fn scale_touches_width_edge() {
    // A wide image on the landscape page is bound by the page width:
    // scaled width equals the page width, scaled height stays below.
    let c: ScaleCalculator = ScaleCalculator { width: Rat::new(100, 1), height: Rat::new(50, 1) };
    let o = c.get_orientation();
    let s = c.get_scale(&o);
    assert!(c.width.mul(&s).same_value(&Rat::new(297, 1)));
    let placed_height = c.height.mul(&s);
    assert!(placed_height.lt(&Rat::new(210, 1)));
}

#[test]
fn scale_touches_height_edge() {
    // A square image on the portrait page is bound by the page width (the
    // shorter page edge): 210/50 beats 297/50.
    let c: ScaleCalculator = ScaleCalculator { width: Rat::new(50, 1), height: Rat::new(50, 1) };
    let o = c.get_orientation();
    let s = c.get_scale(&o);
    assert!(s.same_value(&Rat::new(210, 50)));
    assert!(c.width.mul(&s).same_value(&Rat::new(210, 1)));
}

#[test]
fn position_is_centered_and_contained() {
    let c: ScaleCalculator = ScaleCalculator { width: Rat::new(100, 1), height: Rat::new(50, 1) };
    let o = c.get_orientation();
    let s = c.get_scale(&o);
    let p = c.get_position(&o, &s);
    // Bound by width: no slack on x, half the height slack on y.
    assert!(p.x.same_value(&Rat::new(0, 1)));
    assert!(!p.y.lt(&Rat::new(0, 1)));
    // y + scaled height reaches the page height exactly on both sides.
    let far_edge = p.y.mul(&Rat::new(2, 1)); // 2*y == page height - scaled height
    assert!(far_edge.same_value(&Rat::new(210, 1).sub(&c.height.mul(&s))));
}

#[test]
fn rat_same_value_across_denominators() {
    assert!(Rat::new(1, 2).same_value(&Rat::new(2, 4)));
    assert!(!Rat::new(1, 2).same_value(&Rat::new(1, 3)));
    assert!(Rat::new(-3, 6).same_value(&Rat::new(-1, 2)));
}

#[test]
fn rat_arithmetic_exact() {
    let a = Rat::new(3, 4);
    let b = Rat::new(2, 3);
    assert!(a.mul(&b).same_value(&Rat::new(1, 2)));
    assert!(a.sub(&b).same_value(&Rat::new(1, 12)));
    assert!(a.div(&b).same_value(&Rat::new(9, 8)));
    assert!(a.half().same_value(&Rat::new(3, 8)));
    assert!(Rat::new(0, 5).half().same_value(&Rat::new(0, 1)));
    assert!(a.lt(&Rat::new(4, 5)));
    assert!(!a.lt(&Rat::new(3, 4)));
    assert!(a.is_positive());
    assert!(!Rat::new(0, 1).is_positive());
    assert!(!Rat::new(-1, 9).is_positive());
}
