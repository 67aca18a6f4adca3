use cameraunit::metadata::ImageMetaData;

#[test]
fn a_default_record_is_empty() {
    let m = ImageMetaData::default();
    assert_eq!(m.bin_x, 0);
    assert_eq!(m.exposure_us, 0);
    assert_eq!(m.timestamp, 0);
    assert_eq!(m.camera_name, "");
    assert!(m.extended_metadata.is_empty());
}

#[test]
fn the_builder_fills_every_field() {
    let m = ImageMetaData::full_builder(
        2, 2, 800, 300, -1025, 700_000, 1_700_000_000_000, "ZWO ASI533MM Pro", 240, 10, 0, 600,
    );
    assert_eq!(m.bin_x, 2);
    assert_eq!(m.bin_y, 2);
    assert_eq!(m.img_top, 800);
    assert_eq!(m.img_left, 300);
    assert_eq!(m.temperature_centi, -1025);
    assert_eq!(m.exposure_us, 700_000);
    assert_eq!(m.timestamp, 1_700_000_000_000);
    assert_eq!(m.camera_name, "ZWO ASI533MM Pro");
    assert_eq!(m.gain, 240);
    assert_eq!(m.offset, 10);
    assert_eq!(m.min_gain, 0);
    assert_eq!(m.max_gain, 600);
    assert!(m.extended_metadata.is_empty());
}

#[test]
fn extended_pairs_keep_insertion_order_and_duplicates() {
    let mut m = ImageMetaData::default();
    m.add_extended_attrib("TEST", "TEST");
    m.add_extended_attrib("OTHER", "1");
    m.add_extended_attrib("TEST", "AGAIN");
    assert_eq!(m.extended_metadata.len(), 3);
    assert_eq!(m.extended_metadata[0], (String::from("TEST"), String::from("TEST")));
    assert_eq!(m.extended_metadata[1], (String::from("OTHER"), String::from("1")));
    assert_eq!(m.extended_metadata[2], (String::from("TEST"), String::from("AGAIN")));
}
