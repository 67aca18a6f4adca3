use cameraunit::asi::{ASIExposureStatus, ASIImageFormat};
use cameraunit::asicamera::{
    default_image_format, is_legacy_sensor, poll_interval_us, serial_from_bytes,
    set_temperature_plan, str_contains, supported_bins_from_raw, supported_formats_from_raw,
    ASICameraProps, CameraInfo_ASI, CameraUnit_ASI,
};
use cameraunit::errors::Error;
use cameraunit::roi::ROI;

fn mono_props() -> ASICameraProps {
    ASICameraProps {
        name: String::from("ZWO ASI533MM Pro"),
        id: 0,
        uuid: *b"12345678",
        max_height: 2200,
        max_width: 3008,
        is_color_cam: false,
        bayer_pattern: None,
        supported_bins: vec![1, 2, 4],
        supported_formats: vec![ASIImageFormat::Image_RAW8, ASIImageFormat::Image_RAW16],
        pixel_size_nm: 3760,
        mechanical_shutter: false,
        is_cooler_cam: true,
        is_usb3_camera: true,
        e_per_adu_milli: 1200,
        bit_depth: 14,
        is_trigger_camera: false,
    }
}

fn mono_camera() -> CameraUnit_ASI {
    CameraUnit_ASI::new(mono_props(), 0, 600, 32, 2_000_000_000).unwrap()
}

#[test]
fn a_fresh_camera_starts_full_frame() {
    let cam = mono_camera();
    assert!(!cam.is_capturing());
    assert_eq!(cam.get_exposure(), 100_000);
    assert_eq!(cam.get_bin_x(), 1);
    assert_eq!(cam.get_bin_y(), 1);
    let roi = cam.get_roi();
    assert_eq!((roi.x_min, roi.x_max, roi.y_min, roi.y_max), (0, 3008, 0, 2200));
    assert_eq!(cam.get_image_fmt(), ASIImageFormat::Image_RAW16);
    assert_eq!(cam.get_ccd_width(), 3008);
    assert_eq!(cam.get_ccd_height(), 2200);
    assert_eq!(cam.get_min_exposure().unwrap(), 32);
    assert_eq!(cam.get_max_exposure().unwrap(), 2_000_000_000);
    assert_eq!(cam.get_min_gain().unwrap(), 0);
    assert_eq!(cam.get_max_gain().unwrap(), 600);
    assert_eq!(cam.get_vendor(), "ZWO");
    assert_eq!(cam.camera_name(), "ZWO ASI533MM Pro");
}

#[test]
fn capture_request_while_hardware_works_is_refused() {
    let mut cam = mono_camera();
    let r = cam.capture_begin(ASIExposureStatus::Working);
    assert!(matches!(r, Err(Error::ExposureInProgress)));
    // The driver adopts the running exposure instead of starting a
    // duplicate one.
    assert!(cam.is_capturing());
}

#[test]
fn capture_request_on_failed_hardware_propagates_the_failure() {
    let mut cam = mono_camera();
    let r = cam.capture_begin(ASIExposureStatus::Failed);
    assert!(matches!(r, Err(Error::ExposureFailed(_))));
    assert!(!cam.is_capturing());
}

#[test]
fn cancel_when_idle_issues_no_stop_command() {
    let mut cam = mono_camera();
    assert!(!cam.is_capturing());
    assert!(!cam.cancel_capture());
    assert!(!cam.is_capturing());
    // Cancelling again changes nothing: cancel is idempotent.
    assert!(!cam.cancel_capture());
    assert!(!cam.is_capturing());
}

#[test]
fn cancel_during_capture_stops_and_returns_to_idle() {
    let mut cam = mono_camera();
    let _ = cam.capture_begin(ASIExposureStatus::Working);
    assert!(cam.is_capturing());
    assert!(cam.cancel_capture());
    assert!(!cam.is_capturing());
}

#[test]
fn a_full_capture_stamps_metadata_at_the_trigger() {
    let mut cam = mono_camera();
    let small = ROI { x_min: 0, x_max: 16, y_min: 0, y_max: 2, bin_x: 1, bin_y: 1 };
    let n = cam.set_roi_plan(&small).unwrap();
    cam.set_roi_commit(n);
    cam.capture_begin(ASIExposureStatus::Idle).unwrap();
    cam.capture_start_commit(1_700_000_000_000);
    assert!(cam.is_capturing());
    let expected = cam.capture_finish(ASIExposureStatus::Success).unwrap();
    assert_eq!(expected, 16 * 2 * 2);
    let bytes: Vec<u8> = vec![0x34u8; expected as usize];
    let img = cam.readout_commit(bytes, Some(-1050), 240, 10).unwrap();
    assert!(!cam.is_capturing());
    let meta = img.get_metadata();
    assert_eq!(meta.timestamp, 1_700_000_000_000);
    assert_eq!(meta.exposure_us, 100_000);
    assert_eq!(meta.bin_x, 1);
    assert_eq!(meta.img_left, 0);
    assert_eq!(meta.temperature_centi, -1050);
    assert_eq!(meta.gain, 240);
    assert_eq!(meta.offset, 10);
    assert_eq!(meta.min_gain, 0);
    assert_eq!(meta.max_gain, 600);
    assert_eq!(meta.camera_name, "ZWO ASI533MM Pro");
    // No mechanical shutter: every frame counts as dark.
    assert_eq!(meta.extended_metadata.len(), 1);
    assert_eq!(meta.extended_metadata[0].0, "DARK_FRAME");
    assert_eq!(meta.extended_metadata[0].1, "True");
    assert_eq!(img.get_image().width(), 16);
    assert_eq!(img.get_image().height(), 2);
    assert_eq!(img.get_image().format(), ASIImageFormat::Image_RAW16);
}

#[test]
fn readout_of_the_wrong_size_resets_to_idle() {
    let mut cam = mono_camera();
    cam.capture_begin(ASIExposureStatus::Idle).unwrap();
    cam.capture_start_commit(7);
    let r = cam.readout_commit(vec![0u8; 3], None, 0, 0);
    assert!(matches!(r, Err(Error::InvalidSize(3))));
    assert!(!cam.is_capturing());
}

#[test]
fn every_failed_poll_outcome_returns_to_idle() {
    for (status, msg) in [
        (ASIExposureStatus::Failed, "Unknown"),
        (ASIExposureStatus::Idle, "Successful exposure but no available data"),
        (ASIExposureStatus::Working, "Exposure timed out"),
    ] {
        let mut cam = mono_camera();
        cam.capture_begin(ASIExposureStatus::Idle).unwrap();
        cam.capture_start_commit(0);
        let r = cam.capture_finish(status);
        match r {
            Err(Error::ExposureFailed(m)) => assert_eq!(m, msg),
            _ => panic!("expected an exposure failure"),
        }
        assert!(!cam.is_capturing());
    }
}

#[test]
fn poll_cadence_is_tiered_by_exposure() {
    assert_eq!(poll_interval_us(0), 1_000);
    assert_eq!(poll_interval_us(15_999), 1_000);
    assert_eq!(poll_interval_us(16_000), 100_000);
    assert_eq!(poll_interval_us(999_999), 100_000);
    assert_eq!(poll_interval_us(1_000_000), 1_000_000);
    assert_eq!(poll_interval_us(3_600_000_000), 1_000_000);
}

#[test]
fn exposure_requests_are_validated_before_hardware() {
    let cam = mono_camera();
    assert!(matches!(cam.set_exposure_plan(31), Err(Error::InvalidValue(_))));
    assert!(matches!(cam.set_exposure_plan(2_000_000_001), Err(Error::InvalidValue(_))));
    assert!(cam.set_exposure_plan(700_000).is_ok());
    let mut cam = cam;
    let _ = cam.capture_begin(ASIExposureStatus::Working);
    assert!(matches!(cam.set_exposure_plan(700_000), Err(Error::ExposureInProgress)));
    cam.set_exposure_commit(700_100);
    assert_eq!(cam.get_exposure(), 700_100);
}

#[test]
fn gain_requests_are_validated_before_hardware() {
    let cam = mono_camera();
    assert!(matches!(cam.set_gain_raw_plan(-1), Err(Error::InvalidValue(_))));
    assert!(matches!(cam.set_gain_raw_plan(601), Err(Error::InvalidValue(_))));
    assert!(cam.set_gain_raw_plan(300).is_ok());
    // A normalized request maps onto the raw range.
    assert_eq!(cam.set_gain_plan(0).unwrap(), 0);
    assert_eq!(cam.set_gain_plan(65536).unwrap(), 600);
    assert_eq!(cam.set_gain_plan(32768).unwrap(), 300);
    assert!(matches!(cam.set_gain_plan(65537), Err(Error::InvalidValue(_))));
}

#[test]
fn roi_requests_are_refused_during_capture() {
    let mut cam = mono_camera();
    let _ = cam.capture_begin(ASIExposureStatus::Working);
    let req = ROI { x_min: 0, x_max: 1024, y_min: 0, y_max: 1024, bin_x: 1, bin_y: 1 };
    assert!(matches!(cam.set_roi_plan(&req), Err(Error::ExposureInProgress)));
    // A geometry fault is reported before the capture conflict.
    let bad = ROI { x_min: 0, x_max: 1024, y_min: 0, y_max: 1024, bin_x: 1, bin_y: 2 };
    assert!(matches!(cam.set_roi_plan(&bad), Err(Error::InvalidValue(_))));
}

#[test]
fn format_changes_are_validated() {
    let mut cam = mono_camera();
    // The active format needs no write.
    assert_eq!(cam.set_image_fmt_plan(ASIImageFormat::Image_RAW16).unwrap(), false);
    // A supported change needs one.
    assert_eq!(cam.set_image_fmt_plan(ASIImageFormat::Image_RAW8).unwrap(), true);
    // An unsupported format is a mode error.
    assert!(matches!(
        cam.set_image_fmt_plan(ASIImageFormat::Image_RGB24),
        Err(Error::InvalidMode(_))
    ));
    cam.set_image_fmt_commit(ASIImageFormat::Image_RAW8);
    assert_eq!(cam.get_image_fmt(), ASIImageFormat::Image_RAW8);
}

#[test]
fn shutter_control_needs_a_mechanical_shutter() {
    let mut cam = mono_camera();
    assert!(matches!(cam.set_shutter_open(false), Err(Error::InvalidControlType(_))));
    assert!(matches!(cam.get_shutter_open(), Err(Error::InvalidControlType(_))));
    let mut props = mono_props();
    props.mechanical_shutter = true;
    let mut cam = CameraUnit_ASI::new(props, 0, 600, 32, 2_000_000_000).unwrap();
    assert_eq!(cam.set_shutter_open(false).unwrap(), false);
    assert_eq!(cam.get_shutter_open().unwrap(), false);
    assert_eq!(cam.set_shutter_open(true).unwrap(), true);
    assert_eq!(cam.get_shutter_open().unwrap(), true);
}

#[test]
fn temperature_requests_are_validated() {
    assert!(matches!(set_temperature_plan(0, false), Err(Error::InvalidControlType(_))));
    assert!(matches!(set_temperature_plan(-8001, true), Err(Error::InvalidValue(_))));
    assert!(matches!(set_temperature_plan(2001, true), Err(Error::InvalidValue(_))));
    assert_eq!(set_temperature_plan(-1550, true).unwrap(), -15);
    assert_eq!(set_temperature_plan(1999, true).unwrap(), 19);
}

#[test]
fn color_cameras_default_to_rgb() {
    let mut props = mono_props();
    props.is_color_cam = true;
    assert_eq!(default_image_format(&props), ASIImageFormat::Image_RGB24);
    let mut props = mono_props();
    props.supported_formats = vec![ASIImageFormat::Image_RAW8];
    assert_eq!(default_image_format(&props), ASIImageFormat::Image_RAW8);
    assert_eq!(default_image_format(&mono_props()), ASIImageFormat::Image_RAW16);
}

#[test]
fn legacy_family_detection_needs_both_marks() {
    let mut props = mono_props();
    props.name = String::from("ZWO ASI120MM");
    props.is_usb3_camera = false;
    assert!(is_legacy_sensor(&props));
    props.is_usb3_camera = true;
    assert!(!is_legacy_sensor(&props));
    let mut props = mono_props();
    props.is_usb3_camera = false;
    assert!(!is_legacy_sensor(&props));
    assert!(str_contains("ZWO ASI120MM Mini", "ASI120"));
    assert!(!str_contains("ASI12", "ASI120"));
}

#[test]
fn zero_terminated_device_lists_are_cut_at_the_zero() {
    assert_eq!(supported_bins_from_raw(&vec![1, 2, 4, 0, 0, 0]), vec![1, 2, 4]);
    assert_eq!(supported_bins_from_raw(&vec![0; 16]), Vec::<i32>::new());
    assert_eq!(supported_bins_from_raw(&vec![1, 2]), vec![1, 2]);
    let formats = supported_formats_from_raw(&vec![1, 2, 0, 0]).unwrap();
    assert_eq!(formats, vec![ASIImageFormat::Image_RGB24, ASIImageFormat::Image_RAW16]);
    // A format the library does not capture is a mode error, not a crash.
    assert!(matches!(supported_formats_from_raw(&vec![1, 3, 0]), Err(Error::InvalidMode(_))));
}

#[test]
fn serial_numbers_decode_big_endian() {
    assert_eq!(serial_from_bytes(&[0, 0, 0, 0, 0, 0, 0, 9]), 9);
    assert_eq!(serial_from_bytes(&[1, 0, 0, 0, 0, 0, 0, 0]), 1 << 56);
    assert_eq!(
        serial_from_bytes(&[0x12, 0x34, 0x56, 0x78, 0x9a, 0xbc, 0xde, 0xf0]),
        0x1234_5678_9abc_def0
    );
}

#[test]
fn info_surface_mirrors_the_properties() {
    let info = CameraInfo_ASI::from_props(&mono_props());
    assert_eq!(info.camera_name(), "ZWO ASI533MM Pro");
    assert_eq!(info.get_uuid(), *b"12345678");
    assert_eq!(info.get_ccd_width(), 3008);
    assert_eq!(info.get_ccd_height(), 2200);
    assert_eq!(info.get_pixel_size(), Some(3760));
    assert!(info.camera_ready());
}

#[test]
fn devices_reporting_impossible_bounds_are_refused() {
    let r = CameraUnit_ASI::new(mono_props(), 10, 9, 32, 1000);
    assert!(matches!(r, Err(Error::InvalidValue(_))));
    let mut props = mono_props();
    props.max_width = 0x8000_0000;
    let r = CameraUnit_ASI::new(props, 0, 600, 32, 1000);
    assert!(matches!(r, Err(Error::InvalidValue(_))));
}
