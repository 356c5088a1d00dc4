use pdfpackman::ImageParameter;
use pdfpackman::LayoutError;
use pdfpackman::Rat;
use pdfpackman::pixels_to_page_units;

#[test]
fn pixels_to_page_units_exact() {
    // 100 pixels at 72 dots per inch are 100/72 inch = 2540/72 mm = 635/18 mm.
    let dpi = Rat::new(72, 1);
    assert!(pixels_to_page_units(100, &dpi).same_value(&Rat::new(635, 18)));
    // 50 pixels are half that.
    assert!(pixels_to_page_units(50, &dpi).same_value(&Rat::new(635, 36)));
    // At 300 dots per inch, 300 pixels are one inch: 127/5 mm.
    assert!(pixels_to_page_units(300, &Rat::new(300, 1)).same_value(&Rat::new(127, 5)));
}

#[test]
fn plan_wide_image_landscape() {
    // A 100 by 50 pixel image at 72 dots per inch: physical size 635/18 by
    // 635/36 mm (about 35.28 by 17.64), landscape page 297 by 210, bound by
    // the width, so the x offset is zero and the y offset is positive.
    let p = ImageParameter::new(100, 50, Rat::new(72, 1)).unwrap();
    assert_eq!(p.page_width, Rat::new(297, 1));
    assert_eq!(p.page_height, Rat::new(210, 1));
    // scale = 297 / (635/18) = 5346/635, about 8.42
    assert!(p.scale.same_value(&Rat::new(5346, 635)));
    assert!(p.position.x.same_value(&Rat::new(0, 1)));
    // y = (210 - (635/36)*(5346/635)) / 2 = (210 - 148.5) / 2 = 123/4
    assert!(p.position.y.same_value(&Rat::new(123, 4)));
    assert_eq!(p.dpi, Rat::new(72, 1));
}

#[test]
fn plan_square_image_portrait() {
    let p = ImageParameter::new(50, 50, Rat::new(72, 1)).unwrap();
    assert_eq!(p.page_width, Rat::new(210, 1));
    assert_eq!(p.page_height, Rat::new(297, 1));
    // Bound by the shorter page edge: scale = 210 / (635/36) = 7560/635.
    assert!(p.scale.same_value(&Rat::new(7560, 635)));
    assert!(p.position.x.same_value(&Rat::new(0, 1)));
    // y = (297 - 210) / 2
    assert!(p.position.y.same_value(&Rat::new(87, 2)));
}

#[test]
fn plan_tall_image_portrait() {
    // Taller than wide and bound by the page height.
    let p = ImageParameter::new(50, 200, Rat::new(72, 1)).unwrap();
    assert_eq!(p.page_width, Rat::new(210, 1));
    assert_eq!(p.page_height, Rat::new(297, 1));
    // scale = 297 / (635/9) = 2673/635
    assert!(p.scale.same_value(&Rat::new(2673, 635)));
    assert!(p.position.y.same_value(&Rat::new(0, 1)));
    // x = (210 - (635/36)*(2673/635)) / 2 = (210 - 2673/36) / 2 = 543/8
    assert!(p.position.x.same_value(&Rat::new(543, 8)));
}

#[test]
fn plan_zero_width_rejected() {
    assert_eq!(
        ImageParameter::new(0, 50, Rat::new(72, 1)),
        Err(LayoutError::InvalidDimension)
    );
}

#[test]
fn plan_zero_height_rejected() {
    assert_eq!(
        ImageParameter::new(100, 0, Rat::new(72, 1)),
        Err(LayoutError::InvalidDimension)
    );
}

#[test]
fn plan_nonpositive_resolution_rejected() {
    assert_eq!(
        ImageParameter::new(100, 50, Rat::new(0, 1)),
        Err(LayoutError::InvalidResolution)
    );
    assert_eq!(
        ImageParameter::new(100, 50, Rat::new(-72, 1)),
        Err(LayoutError::InvalidResolution)
    );
}

#[test]
fn plan_is_deterministic() {
    // Two runs over the same inputs yield identical plans, field for field.
    let a = ImageParameter::new(1920, 1080, Rat::new(300, 1)).unwrap();
    let b = ImageParameter::new(1920, 1080, Rat::new(300, 1)).unwrap();
    assert_eq!(a, b);
}

#[test]
fn plan_fractional_resolution() {
    // A fractional resolution of 144.5 dots per inch: 289 pixels are two
    // inches, 254/5 mm.
    let p = ImageParameter::new(289, 289, Rat::new(289, 2)).unwrap();
    assert_eq!(p.page_width, Rat::new(210, 1));
    // scale = 210 / (254/5) = 1050/254
    assert!(p.scale.same_value(&Rat::new(1050, 254)));
}
