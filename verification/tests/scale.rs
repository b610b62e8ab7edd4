use dp_image::{fit, Image, ImageErrorKind, Interpolation, Quad, Region, ScalePlan, Scaling};

fn solid(width: usize, height: usize, value: u32) -> Image {
    Image::new_from_pixels(width, height, &vec![value; width * height]).unwrap()
}

fn plan_of(state: Scaling) -> ScalePlan {
    match state {
        Scaling::Fitting { plan } => plan,
        _ => panic!("a new construction starts by fitting"),
    }
}

fn finished(state: Scaling) -> Result<Image, dp_image::ImageError> {
    match state {
        Scaling::Finished { outcome } => outcome,
        _ => panic!("the construction is not finished"),
    }
}

#[test]
fn fit_width_binding() {
    assert_eq!(fit(100, 50, 50, 50), (50, 25));
}

#[test]
fn fit_height_binding() {
    assert_eq!(fit(50, 100, 50, 50), (25, 50));
}

#[test]
fn fit_equal_ratios_take_the_box() {
    assert_eq!(fit(100, 100, 50, 50), (50, 50));
    assert_eq!(fit(7, 3, 14, 6), (14, 6));
}

#[test]
fn fit_within_tolerance_takes_the_box() {
    assert_eq!(fit(1000, 1000, 500, 505), (500, 505));
    assert_eq!(fit(1000, 1000, 505, 500), (505, 500));
}

#[test]
fn fit_at_tolerance_is_not_equal() {
    assert_eq!(fit(100, 100, 50, 51), (50, 50));
    assert_eq!(fit(100, 100, 51, 50), (50, 50));
}

#[test]
fn fit_rounds_to_nearest() {
    assert_eq!(fit(3, 2, 2, 2), (2, 1));
    assert_eq!(fit(3, 4, 2, 4), (2, 3));
}

#[test]
fn fit_rounds_half_up() {
    assert_eq!(fit(4, 3, 2, 3), (2, 2));
    assert_eq!(fit(3, 4, 3, 2), (2, 2));
}

#[test]
fn fit_enlarges_into_a_bigger_box() {
    assert_eq!(fit(10, 10, 100, 50), (50, 50));
    assert_eq!(fit(2, 1, 7, 100), (7, 4));
}

#[test]
fn fit_may_vanish_along_one_axis() {
    assert_eq!(fit(1000, 1, 10, 10), (10, 0));
    assert_eq!(fit(1, 1000, 10, 10), (0, 10));
}

#[test]
fn fit_handles_the_largest_sizes() {
    assert_eq!(
        fit(usize::MAX, usize::MAX, usize::MAX, usize::MAX),
        (usize::MAX, usize::MAX)
    );
    assert_eq!(fit(usize::MAX, 1, usize::MAX, usize::MAX), (usize::MAX, 1));
    assert_eq!(fit(1, usize::MAX, usize::MAX, usize::MAX), (1, usize::MAX));
    assert_eq!(fit(usize::MAX, 2, 1, usize::MAX), (1, 0));
}

#[test]
fn fit_stays_inside_the_box() {
    for width in 1..12usize {
        for height in 1..12usize {
            for scale_width in 0..9usize {
                for scale_height in 0..9usize {
                    let (w, h) = fit(width, height, scale_width, scale_height);
                    assert!(w <= scale_width && h <= scale_height);
                    assert!(w == scale_width || h == scale_height);
                }
            }
        }
    }
}

#[test]
fn scaled_half_width_without_expansion() {
    let pixels = vec![0u32; 100 * 50];
    let plan = plan_of(Image::new_from_pixels_scaled(100, 50, &pixels, 50, 50, false).unwrap());
    assert_eq!(
        plan,
        ScalePlan {
            source_width: 100,
            source_height: 50,
            target_width: 50,
            target_height: 25,
            quad: Quad { x1: 0, y1: 0, x2: 49, y2: 0, x3: 49, y3: 24, x4: 0, y4: 24 },
            interpolation: Interpolation::Bilinear,
            expansion: None,
        }
    );
    let state = Scaling::Fitting { plan }.step(Ok(solid(50, 25, 1)));
    let img = finished(state).unwrap();
    assert_eq!((img.width(), img.height()), (50, 25));
}

#[test]
fn scaled_with_expansion_fills_the_box() {
    let pixels = vec![0u32; 200 * 100];
    let plan = plan_of(Image::new_from_pixels_scaled(200, 100, &pixels, 100, 100, true).unwrap());
    assert_eq!((plan.target_width, plan.target_height), (100, 50));
    assert_eq!(plan.quad, Quad { x1: 0, y1: 0, x2: 99, y2: 0, x3: 99, y3: 49, x4: 0, y4: 49 });
    assert_eq!(
        plan.expansion,
        Some(Region { x_offset: 0, y_offset: -25, width: 100, height: 100 })
    );
    let state = Scaling::Fitting { plan }.step(Ok(solid(100, 50, 7)));
    let state = match state {
        Scaling::Expanding { fitted, region } => {
            assert_eq!((fitted.width(), fitted.height()), (100, 50));
            assert_eq!(region, Region { x_offset: 0, y_offset: -25, width: 100, height: 100 });
            Scaling::Expanding { fitted, region }.step(Ok(solid(100, 100, 7)))
        }
        _ => panic!("the canvas is still to be made"),
    };
    let img = finished(state).unwrap();
    assert_eq!((img.width(), img.height()), (100, 100));
}

#[test]
fn scaled_expansion_centres_with_floor_division() {
    let pixels = vec![0u32; 10 * 10];
    let plan = plan_of(Image::new_from_pixels_scaled(10, 10, &pixels, 15, 8, true).unwrap());
    assert_eq!((plan.target_width, plan.target_height), (8, 8));
    assert_eq!(plan.expansion, Some(Region { x_offset: -3, y_offset: 0, width: 15, height: 8 }));
}

#[test]
fn scaled_expansion_is_skipped_when_the_box_is_filled() {
    let pixels = vec![0u32; 100 * 100];
    let plan = plan_of(Image::new_from_pixels_scaled(100, 100, &pixels, 50, 50, true).unwrap());
    assert_eq!((plan.target_width, plan.target_height), (50, 50));
    assert_eq!(plan.expansion, None);
    let img = finished(Scaling::Fitting { plan }.step(Ok(solid(50, 50, 3)))).unwrap();
    assert_eq!((img.width(), img.height()), (50, 50));
}

#[test]
fn scaled_without_expand_never_plans_a_canvas() {
    let pixels = vec![0u32; 200 * 100];
    let plan = plan_of(Image::new_from_pixels_scaled(200, 100, &pixels, 100, 100, false).unwrap());
    assert_eq!((plan.target_width, plan.target_height), (100, 50));
    assert_eq!(plan.expansion, None);
}

#[test]
fn scaled_ignores_excess_pixels() {
    let pixels = vec![0u32; 100];
    let plan = plan_of(Image::new_from_pixels_scaled(4, 4, &pixels, 2, 2, false).unwrap());
    assert_eq!((plan.source_width, plan.source_height), (4, 4));
    assert_eq!((plan.target_width, plan.target_height), (2, 2));
}

#[test]
fn scaled_rejects_empty_source() {
    let err = Image::new_from_pixels_scaled(0, 10, &[], 5, 5, false).err().unwrap();
    assert_eq!(err.kind, ImageErrorKind::EmptyImage);
    assert_eq!(err.message, "Empty source image");
    let err = Image::new_from_pixels_scaled(10, 0, &[], 5, 5, true).err().unwrap();
    assert_eq!(err.kind, ImageErrorKind::EmptyImage);
}

#[test]
fn scaled_rejects_empty_target() {
    let pixels = vec![0u32; 4];
    let err = Image::new_from_pixels_scaled(2, 2, &pixels, 0, 5, false).err().unwrap();
    assert_eq!(err.kind, ImageErrorKind::EmptyTarget);
    assert_eq!(err.message, "Empty target image");
    let err = Image::new_from_pixels_scaled(2, 2, &pixels, 5, 0, false).err().unwrap();
    assert_eq!(err.kind, ImageErrorKind::EmptyTarget);
}

#[test]
fn scaled_rejects_short_input() {
    let pixels = vec![0u32; 3];
    let err = Image::new_from_pixels_scaled(2, 2, &pixels, 5, 5, false).err().unwrap();
    assert_eq!(err.kind, ImageErrorKind::InsufficientPixelData);
    assert_eq!(err.message, "Not enough pixels");
}

#[test]
fn scaled_checks_run_in_order() {
    let err = Image::new_from_pixels_scaled(0, 2, &[], 0, 5, false).err().unwrap();
    assert_eq!(err.kind, ImageErrorKind::EmptyImage);
    let err = Image::new_from_pixels_scaled(2, 2, &[], 0, 5, false).err().unwrap();
    assert_eq!(err.kind, ImageErrorKind::EmptyTarget);
    let err = Image::new_from_pixels_scaled(usize::MAX, 2, &[], 5, 5, false).err().unwrap();
    assert_eq!(err.kind, ImageErrorKind::InsufficientPixelData);
}

#[test]
fn scaled_rejects_content_that_vanishes() {
    let pixels = vec![0u32; 1000];
    let err = Image::new_from_pixels_scaled(1000, 1, &pixels, 10, 10, false).err().unwrap();
    assert_eq!(err.kind, ImageErrorKind::DimensionOverflow);
    assert_eq!(err.message, "out of range integral type conversion attempted");
}

#[test]
fn scaled_rejects_canvas_beyond_engine_range() {
    let pixels = vec![0u32; 100];
    let wide = i32::MAX as usize + 1;
    let plan = plan_of(Image::new_from_pixels_scaled(10, 10, &pixels, wide, 5, false).unwrap());
    assert_eq!((plan.target_width, plan.target_height), (5, 5));
    let err = Image::new_from_pixels_scaled(10, 10, &pixels, wide, 5, true).err().unwrap();
    assert_eq!(err.kind, ImageErrorKind::DimensionOverflow);
}

#[test]
fn scaled_accepts_the_widest_content() {
    let pixels = vec![0u32; 4];
    let wide = i32::MAX as usize + 1;
    let plan = plan_of(Image::new_from_pixels_scaled(2, 2, &pixels, wide, wide, false).unwrap());
    assert_eq!((plan.target_width, plan.target_height), (wide, wide));
    assert_eq!(plan.quad.x3, i32::MAX);
    assert_eq!(plan.quad.y3, i32::MAX);
    let err = Image::new_from_pixels_scaled(2, 2, &pixels, wide + 1, wide + 1, false)
        .err()
        .unwrap();
    assert_eq!(err.kind, ImageErrorKind::DimensionOverflow);
}

#[test]
fn scaling_ends_on_transform_failure() {
    let pixels = vec![0u32; 200 * 100];
    let state = Image::new_from_pixels_scaled(200, 100, &pixels, 100, 100, true).unwrap();
    let err = finished(state.step(Err(String::from("transform failed")))).err().unwrap();
    assert_eq!(err.kind, ImageErrorKind::EngineFailure);
    assert_eq!(err.message, "transform failed");
}

#[test]
fn scaling_ends_on_expansion_failure() {
    let pixels = vec![0u32; 200 * 100];
    let state = Image::new_from_pixels_scaled(200, 100, &pixels, 100, 100, true).unwrap();
    let state = state.step(Ok(solid(100, 50, 0)));
    assert!(matches!(state, Scaling::Expanding { .. }));
    let err = finished(state.step(Err(String::from("subimage failed")))).err().unwrap();
    assert_eq!(err.kind, ImageErrorKind::EngineFailure);
    assert_eq!(err.message, "subimage failed");
}

#[test]
fn scaling_keeps_its_outcome_once_finished() {
    let pixels = vec![0u32; 4];
    let state = Image::new_from_pixels_scaled(2, 2, &pixels, 1, 1, false).unwrap();
    let state = state.step(Ok(solid(1, 1, 42)));
    let state = state.step(Err(String::from("late")));
    let state = state.step(Ok(solid(3, 3, 0)));
    let img = finished(state).unwrap();
    assert_eq!((img.width(), img.height()), (1, 1));
    assert_eq!(img.pixels(), &[42u32][..]);
}

#[test]
fn scaling_hands_back_what_the_engine_made() {
    let pixels = vec![5u32; 16];
    let state = Image::new_from_pixels_scaled(4, 4, &pixels, 2, 2, false).unwrap();
    let img = finished(state.step(Ok(solid(2, 2, 0xFF00_00FF)))).unwrap();
    assert_eq!(img.pixels(), &[0xFF00_00FFu32; 4][..]);
}
