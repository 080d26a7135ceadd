use host_core::mapping::{scale_clamped, EmulatorPoint, Fraction, MappingError, ViewportMapping};

#[test]
fn normalized_to_emulator_maps_center_point() {
    let mapping = ViewportMapping::for_letterboxed(2400, 1200, 1920, 1080).expect("valid mapping");

    let point = mapping
        .normalized_to_emulator(Fraction::new(1, 2), Fraction::new(1, 2))
        .expect("center should map");

    assert_eq!(point.x, 960);
    assert_eq!(point.y, 540);
}

#[test]
fn window_to_emulator_rejects_black_bar_input() {
    let mapping = ViewportMapping::for_letterboxed(2400, 1200, 1920, 1080).expect("valid mapping");

    let err = mapping
        .window_to_emulator(40, 600)
        .expect_err("black bar coordinate must fail");

    assert!(err.to_string().contains("outside active emulator viewport"));
}

#[test]
fn normalized_input_must_be_in_range() {
    let mapping = ViewportMapping::for_letterboxed(2400, 1200, 1920, 1080).expect("valid mapping");

    let err = mapping
        .normalized_to_emulator(Fraction::new(11, 10), Fraction::new(1, 2))
        .expect_err("out of range normalized coordinate must fail");

    assert!(err
        .to_string()
        .contains("normalized coordinates must be in range [0.0, 1.0]"));
}

#[test]
fn zero_dimension_is_rejected() {
    assert_eq!(
        ViewportMapping::for_letterboxed(0, 1200, 1920, 1080),
        Err(MappingError::InvalidDimensions)
    );
    assert_eq!(
        ViewportMapping::for_letterboxed(2400, 1200, 1920, 0),
        Err(MappingError::InvalidDimensions)
    );
}

#[test]
fn window_points_map_through_the_scaled_image() {
    let mapping = ViewportMapping::for_letterboxed(2400, 1200, 1920, 1080).expect("valid mapping");
    // scale 10/9, horizontal bars of 133 1/3 px on each side
    assert_eq!(mapping.window_to_emulator(1200, 600), Ok(EmulatorPoint { x: 960, y: 540 }));
    assert_eq!(mapping.window_to_emulator(134, 0), Ok(EmulatorPoint { x: 1, y: 0 }));
    assert_eq!(mapping.window_to_emulator(2266, 1199), Ok(EmulatorPoint { x: 1919, y: 1079 }));
    assert_eq!(
        mapping.window_to_emulator(2267, 600),
        Err(MappingError::OutsideActiveViewport)
    );
    assert_eq!(
        mapping.window_to_emulator(2400, 600),
        Err(MappingError::OutOfWindowBounds)
    );
}

#[test]
fn same_aspect_has_no_bars() {
    let mapping = ViewportMapping::for_letterboxed(1920, 1080, 1920, 1080).expect("valid mapping");
    assert_eq!(mapping.window_to_emulator(0, 0), Ok(EmulatorPoint { x: 0, y: 0 }));
    assert_eq!(mapping.window_to_emulator(1919, 1079), Ok(EmulatorPoint { x: 1919, y: 1079 }));
}

#[test]
fn normalized_edges_and_non_numbers() {
    let mapping = ViewportMapping::for_letterboxed(800, 600, 1920, 1080).expect("valid mapping");
    assert_eq!(
        mapping.normalized_to_emulator(Fraction::new(0, 1), Fraction::new(1, 1)),
        Ok(EmulatorPoint { x: 0, y: 1079 })
    );
    assert_eq!(
        mapping.normalized_to_emulator(Fraction::new(1, 0), Fraction::new(1, 2)),
        Err(MappingError::OutOfRangeNormalized)
    );
}

#[test]
fn clamped_scaling_rounds_half_away_from_zero() {
    assert_eq!(scale_clamped(Fraction::new(1, 2), 2459), 1230);
    assert_eq!(scale_clamped(Fraction::new(1, 4), 2), 1);
    assert_eq!(scale_clamped(Fraction::new(3, 2), 100), 100);
    assert_eq!(scale_clamped(Fraction::new(5, 0), 100), 0);
    assert_eq!(scale_clamped(Fraction::new(7, 10), 100), 70);
}
