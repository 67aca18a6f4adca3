use cameraunit::errors::Error;
use cameraunit::roi::{validate_roi, ROI};

fn bins124() -> Vec<i32> {
    vec![1, 2, 4]
}

#[test]
fn full_request_on_large_sensor_is_normalized() {
    let req = ROI { x_min: 300, x_max: 2700, y_min: 800, y_max: 2100, bin_x: 1, bin_y: 1 };
    let n = validate_roi(&req, 3008, 2200, &bins124(), false).unwrap();
    assert_eq!(n.x_max - n.x_min, 2400);
    assert_eq!(n.y_max - n.y_min, 1300);
    assert_eq!(n.x_min, 300);
    assert_eq!(n.y_min, 800);
    assert_eq!(n.bin_x, 1);
    assert_eq!(n.bin_y, 1);
}

#[test]
fn non_square_binning_is_rejected() {
    let req = ROI { x_min: 300, x_max: 2700, y_min: 800, y_max: 2100, bin_x: 3, bin_y: 1 };
    let r = validate_roi(&req, 3008, 2200, &bins124(), false);
    assert!(matches!(r, Err(Error::InvalidValue(_))));
}

#[test]
fn unsupported_bin_is_rejected() {
    let req = ROI { x_min: 0, x_max: 1024, y_min: 0, y_max: 1024, bin_x: 3, bin_y: 3 };
    let r = validate_roi(&req, 3008, 2200, &bins124(), false);
    assert!(matches!(r, Err(Error::InvalidValue(_))));
}

#[test]
fn bin_below_one_is_rejected() {
    let req = ROI { x_min: 0, x_max: 1024, y_min: 0, y_max: 1024, bin_x: 0, bin_y: 0 };
    let r = validate_roi(&req, 3008, 2200, &bins124(), false);
    assert!(matches!(r, Err(Error::InvalidValue(_))));
}

#[test]
fn width_truncates_to_multiple_of_8_and_height_to_2() {
    let req = ROI { x_min: 0, x_max: 1021, y_min: 0, y_max: 777, bin_x: 1, bin_y: 1 };
    let n = validate_roi(&req, 3008, 2200, &bins124(), false).unwrap();
    assert_eq!((n.x_max - n.x_min) % 8, 0);
    assert_eq!((n.y_max - n.y_min) % 2, 0);
    assert_eq!(n.x_max - n.x_min, 1016);
    assert_eq!(n.y_max - n.y_min, 776);
}

#[test]
fn requested_bin_is_kept() {
    let req = ROI { x_min: 0, x_max: 2000, y_min: 0, y_max: 2000, bin_x: 2, bin_y: 2 };
    let n = validate_roi(&req, 3008, 2200, &bins124(), false).unwrap();
    assert_eq!(n.bin_x, 2);
    assert_eq!(n.bin_y, 2);
    // Coordinates are scaled into binned pixel space.
    assert_eq!(n.x_min, 0);
    assert_eq!(n.x_max, 1000);
    assert_eq!(n.y_max, 1000);
}

#[test]
fn non_positive_far_edges_default_to_full_sensor() {
    let req = ROI { x_min: 0, x_max: 0, y_min: 0, y_max: 0, bin_x: 1, bin_y: 1 };
    let n = validate_roi(&req, 3008, 2200, &bins124(), false).unwrap();
    assert_eq!(n.x_max, 3008);
    assert_eq!(n.y_max, 2200);
}

#[test]
fn negative_extent_is_rejected() {
    let req = ROI { x_min: 2000, x_max: 100, y_min: 0, y_max: 100, bin_x: 1, bin_y: 1 };
    let r = validate_roi(&req, 3008, 2200, &bins124(), false);
    assert!(matches!(r, Err(Error::InvalidValue(_))));
}

#[test]
fn region_past_sensor_edge_is_rejected() {
    let req = ROI { x_min: 1000, x_max: 3100, y_min: 0, y_max: 100, bin_x: 1, bin_y: 1 };
    let r = validate_roi(&req, 3008, 2200, &bins124(), false);
    assert!(matches!(r, Err(Error::OutOfBounds(_))));
    let req = ROI { x_min: 0, x_max: 100, y_min: 0, y_max: 2300, bin_x: 1, bin_y: 1 };
    let r = validate_roi(&req, 3008, 2200, &bins124(), false);
    assert!(matches!(r, Err(Error::OutOfBounds(_))));
}

#[test]
fn legacy_sensor_needs_kilopixel_blocks() {
    // 1280 x 960 = 1_228_800 = 1200 * 1024: accepted.
    let req = ROI { x_min: 0, x_max: 1280, y_min: 0, y_max: 960, bin_x: 1, bin_y: 1 };
    assert!(validate_roi(&req, 1280, 960, &bins124(), true).is_ok());
    // 1280 x 950 is not a whole number of kilopixel blocks: rejected.
    let req = ROI { x_min: 0, x_max: 1280, y_min: 0, y_max: 950, bin_x: 1, bin_y: 1 };
    let r = validate_roi(&req, 1280, 960, &bins124(), true);
    assert!(matches!(r, Err(Error::InvalidValue(_))));
    // The same region passes on a current-generation link.
    assert!(validate_roi(&req, 1280, 960, &bins124(), false).is_ok());
}
