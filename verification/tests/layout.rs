use overlay::relative_roi::{HorizontalPartition, RelativeRoi, VerticalPartition, UNIT};

#[test]
fn build_accepts_valid_region() {
    let r = RelativeRoi::build(250_000, 0, 500_000, 500_000, 10_000, 0, 0, 0);
    assert!(r.is_ok());
}

#[test]
fn build_rejects_box_past_right_edge() {
    // x = 0.6 and width = 0.5 overflow the frame
    let r = RelativeRoi::build(600_000, 0, 500_000, 100_000, 0, 0, 0, 0);
    match r {
        Err(e) => assert_eq!(e.0, "`x` and `width` cannot add up to more than 1."),
        Ok(_) => panic!("expected a construction failure"),
    }
}

#[test]
fn build_rejects_buffer_of_half_the_width() {
    // width = 0.2 with a 0.15 buffer on both sides leaves no room
    let r = RelativeRoi::build_def(0, 0, 200_000, 500_000, Some(150_000), None);
    match r {
        Err(e) => assert_eq!(e.0, "`horizontal_buffer` must be less than half of  `width`."),
        Ok(_) => panic!("expected a construction failure"),
    }
}

#[test]
fn build_rejects_fraction_above_one() {
    let r = RelativeRoi::build(1_000_001, 0, 500_000, 100_000, 0, 0, 0, 0);
    match r {
        Err(e) => assert_eq!(e.0, "`x` value cannot be less than 0 or greater than 1."),
        Ok(_) => panic!("expected a construction failure"),
    }
}

#[test]
fn raw_resolution_stays_inside_the_frame() {
    let r = RelativeRoi::build(250_000, 0, 500_000, 500_000, 10_000, 0, 0, 0).unwrap();
    let px = r.generate_roi_raw(1920, 1080);
    // offset 0.26 and extent 0.49 of 1920, each truncated once
    assert_eq!(px.x, 499);
    assert_eq!(px.y, 0);
    assert_eq!(px.width, 940);
    assert_eq!(px.height, 540);
    assert!(px.x + px.width <= 1920);
    assert!(px.y + px.height <= 1080);
}

#[test]
fn fitted_resolution_preserves_aspect_and_centers() {
    let r = RelativeRoi::build(250_000, 0, 500_000, 500_000, 10_000, 0, 0, 0).unwrap();
    // content twice as wide as tall
    let px = r.generate_roi(1920, 1080, 2, 1);
    assert_eq!(px.width, 940);
    assert_eq!(px.height, 470);
    assert_eq!(px.x, 499);
    assert_eq!(px.y, 35);
    assert!(px.x + px.width <= 1920);
    assert!(px.y + px.height <= 1080);
}

#[test]
fn partition_halves_the_seam_buffer() {
    let r = RelativeRoi::build_as_partition(
        0,
        0,
        200_000,
        500_000,
        Some(10_000),
        Some(10_000),
        Some(HorizontalPartition::Left),
        Some(VerticalPartition::Top),
    )
    .unwrap();
    assert_eq!(r.left_horizontal_buffer, 10_000);
    assert_eq!(r.right_horizontal_buffer, 5_000);
    assert_eq!(r.top_vertical_buffer, 10_000);
    assert_eq!(r.bottom_vertical_buffer, 5_000);
}

#[test]
fn growth_of_a_large_region_is_capped_below_request() {
    // the region fills 80% of each dimension: doubling cannot fit
    let r = RelativeRoi::build(100_000, 100_000, 800_000, 800_000, 0, 0, 0, 0).unwrap();
    let grown = r.scale_rel_safe(2 * UNIT).unwrap();
    // the capped factor is 1.25, not 2.0
    assert_eq!(grown.width, 1_000_000);
    assert_eq!(grown.height, 1_000_000);
    assert_eq!(grown.x, 0);
    assert_eq!(grown.y, 0);
    assert!(grown.x + grown.width <= UNIT);
    assert!(grown.y + grown.height <= UNIT);
}

#[test]
fn growth_of_a_small_region_stops_at_the_request() {
    // a 0.2-square centered region has room to grow fivefold, but a
    // doubling request doubles it and no more
    let r = RelativeRoi::build(400_000, 400_000, 200_000, 200_000, 0, 0, 0, 0).unwrap();
    let grown = r.scale_rel_safe(2 * UNIT).unwrap();
    assert_eq!(grown.width, 400_000);
    assert_eq!(grown.height, 400_000);
    assert_eq!(grown.x, 300_000);
    assert_eq!(grown.y, 300_000);
}

#[test]
fn shrink_applies_the_requested_factor() {
    let r = RelativeRoi::build(100_000, 100_000, 800_000, 800_000, 0, 0, 0, 0).unwrap();
    let half = r.scale_rel_safe(UNIT / 2).unwrap();
    assert_eq!(half.width, 400_000);
    assert_eq!(half.height, 400_000);
    // the shrunk box keeps its center
    assert_eq!(half.x, 300_000);
    assert_eq!(half.y, 300_000);
}

#[test]
fn zero_scale_is_rejected() {
    let r = RelativeRoi::build(100_000, 100_000, 800_000, 800_000, 0, 0, 0, 0).unwrap();
    assert!(r.scale_rel_safe(0).is_err());
}

#[test]
fn center_offset_halves_the_difference() {
    assert_eq!(overlay::relative_roi::center_offset(100, 300), 100);
    assert_eq!(overlay::relative_roi::center_offset(300, 100), -100);
    assert_eq!(overlay::relative_roi::center_offset(0, 5), 2);
    assert_eq!(overlay::relative_roi::center_offset(5, 0), -3);
}
