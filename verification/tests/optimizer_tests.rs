use cameraunit::optimizer::{compute_next_exposure, sort_pixels};

#[test]
fn sorting_orders_every_sample() {
    let v: Vec<u16> = vec![5, 3, 9, 3, 0, 65535, 7];
    let s = sort_pixels(&v);
    assert_eq!(s, vec![0, 3, 3, 5, 7, 9, 65535]);
}

#[test]
fn converged_frame_keeps_exposure_and_bin() {
    let pixels: Vec<u16> = vec![10000; 100];
    let r = compute_next_exposure(&pixels, 500_000, 2, true, 950, 10100, 10_000_000, 4, 0, 200);
    assert_eq!(r, (500_000, 2));
}

#[test]
fn exposure_scales_by_target_over_sample() {
    // Sample 10000 against target 20000 doubles one second of exposure.
    let pixels: Vec<u16> = vec![10000; 100];
    let r = compute_next_exposure(&pixels, 1_000_000, 1, true, 950, 20000, 10_000_000, 4, 0, 100);
    assert_eq!(r, (2_000_000, 1));
}

#[test]
fn projection_past_cap_promotes_bin_and_quarters_exposure() {
    // The projection of 4000 s steps the bin 1 -> 2 -> 4, quartering
    // each time, and stops at the allowed maximum bin.
    let pixels: Vec<u16> = vec![10; 100];
    let r = compute_next_exposure(
        &pixels,
        1_000_000,
        1,
        true,
        950,
        40000,
        400_000_000,
        4,
        0,
        100,
    );
    assert_eq!(r, (250_000_000, 4));
}

#[test]
fn comfortable_projection_reduces_bin_and_quadruples_exposure() {
    let pixels: Vec<u16> = vec![20000; 100];
    let r = compute_next_exposure(
        &pixels,
        1_000_000,
        4,
        true,
        950,
        40000,
        1_000_000_000,
        4,
        0,
        100,
    );
    assert_eq!(r, (32_000_000, 1));
}

#[test]
fn uneven_binning_leaves_bin_alone() {
    let pixels: Vec<u16> = vec![10; 100];
    let r = compute_next_exposure(
        &pixels,
        1_000_000,
        1,
        false,
        950,
        40000,
        400_000_000,
        4,
        0,
        100,
    );
    assert_eq!(r, (400_000_000, 1));
}

#[test]
fn dark_frame_clamps_to_the_cap() {
    let pixels: Vec<u16> = vec![0; 64];
    let r = compute_next_exposure(&pixels, 1_000_000, 1, false, 950, 100, 5_000_000, 4, 0, 10);
    assert_eq!(r, (5_000_000, 1));
}

#[test]
fn tiny_projection_floors_at_ten_microseconds() {
    let pixels: Vec<u16> = vec![60000; 64];
    let r = compute_next_exposure(&pixels, 20, 1, false, 950, 1, 5_000_000, 4, 0, 10);
    assert_eq!(r, (10, 1));
}

#[test]
fn percentile_above_ninety_nine_nine_takes_the_brightest_pixel() {
    let pixels: Vec<u16> = (0..100).collect();
    let r = compute_next_exposure(&pixels, 700_000, 1, true, 1000, 99, 10_000_000, 4, 0, 1);
    assert_eq!(r, (700_000, 1));
}

#[test]
fn exclusion_margin_steps_below_hot_pixels() {
    // Rank 99 falls within five pixels of the top, so the sample comes
    // from rank 94 instead.
    let pixels: Vec<u16> = (0..100).collect();
    let r = compute_next_exposure(&pixels, 700_000, 1, true, 1000, 94, 10_000_000, 4, 5, 1);
    assert_eq!(r, (700_000, 1));
}
