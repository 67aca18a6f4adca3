use cameraunit::asi::ASIImageFormat;
use cameraunit::errors::Error;
use cameraunit::image_buf::{ImageBuf, PixelData};
use cameraunit::imagedata::{FitsHeaderValue, FitsImageKind, ImageData};
use cameraunit::metadata::ImageMetaData;

#[test]
fn buffers_must_fill_their_dimensions() {
    assert!(ImageBuf::from_mono8(4, 2, vec![0; 8]).is_ok());
    assert!(matches!(ImageBuf::from_mono8(4, 2, vec![0; 7]), Err(Error::InvalidSize(7))));
    assert!(ImageBuf::from_mono16(4, 2, vec![0; 8]).is_ok());
    assert!(matches!(ImageBuf::from_mono16(4, 2, vec![0; 9]), Err(Error::InvalidSize(9))));
    assert!(ImageBuf::from_rgb24(4, 2, vec![0; 24]).is_ok());
    assert!(matches!(ImageBuf::from_rgb24(4, 2, vec![0; 8]), Err(Error::InvalidSize(8))));
}

#[test]
fn raw_frames_decode_little_endian_sixteen_bit_samples() {
    let bytes = vec![0x01, 0x00, 0x00, 0x01, 0xff, 0xff, 0x34, 0x12];
    let img = ImageBuf::from_raw_frame(ASIImageFormat::Image_RAW16, 4, 1, bytes).unwrap();
    assert_eq!(img.format(), ASIImageFormat::Image_RAW16);
    match img.pixels() {
        PixelData::Mono16(d) => assert_eq!(d, &vec![1, 256, 65535, 0x1234]),
        _ => panic!("expected sixteen-bit samples"),
    }
    assert_eq!(img.to_luma16(), vec![1, 256, 65535, 0x1234]);
}

#[test]
fn raw_frame_sizes_follow_the_format() {
    assert!(ImageBuf::from_raw_frame(ASIImageFormat::Image_RAW8, 4, 2, vec![0; 8]).is_ok());
    assert!(ImageBuf::from_raw_frame(ASIImageFormat::Image_RAW16, 4, 2, vec![0; 16]).is_ok());
    assert!(ImageBuf::from_raw_frame(ASIImageFormat::Image_RGB24, 4, 2, vec![0; 24]).is_ok());
    assert!(
        matches!(
            ImageBuf::from_raw_frame(ASIImageFormat::Image_RAW16, 4, 2, vec![0; 8]),
            Err(Error::InvalidSize(8))
        )
    );
}

#[test]
fn eight_bit_samples_spread_over_the_full_range() {
    let img = ImageBuf::from_mono8(3, 1, vec![0, 1, 255]).unwrap();
    // Not the bytes themselves: each sample v becomes v * 257.
    assert_eq!(img.to_luma16(), vec![0, 257, 65535]);
}

#[test]
fn rgb_luma_matches_the_image_crate() {
    let data: Vec<u8> = vec![255, 0, 0, 0, 255, 0, 0, 0, 255, 10, 200, 31];
    let img = ImageBuf::from_rgb24(2, 2, data.clone()).unwrap();
    let ours = img.to_luma16();
    let theirs = image::DynamicImage::from(
        image::RgbImage::from_raw(2, 2, data).unwrap(),
    ).to_luma16().into_raw();
    assert_eq!(ours, theirs);
    // The conversion actually mixes the channels; pure red is far from
    // either black or white.
    assert!(ours[0] > 0 && ours[0] < 65535);
}

#[test]
fn an_image_keeps_its_metadata() {
    let img = ImageBuf::from_mono16(2, 2, vec![5; 4]).unwrap();
    let mut meta = ImageMetaData::default();
    meta.camera_name = String::from("test camera");
    meta.timestamp = 42;
    let mut data = ImageData::new(img, meta);
    assert_eq!(data.get_metadata().timestamp, 42);
    assert_eq!(data.get_image().width(), 2);
    data.add_extended_attrib("KEY", "VALUE");
    data.add_extended_attrib("KEY", "OTHER");
    let pairs = &data.get_metadata().extended_metadata;
    assert_eq!(pairs.len(), 2);
    assert_eq!(pairs[0], (String::from("KEY"), String::from("VALUE")));
    assert_eq!(pairs[1], (String::from("KEY"), String::from("OTHER")));
    let mut replacement = ImageMetaData::default();
    replacement.timestamp = 43;
    data.set_metadata(replacement);
    assert_eq!(data.get_metadata().timestamp, 43);
}

#[test]
fn container_header_fields_come_in_writer_order() {
    let img = ImageBuf::from_mono16(2, 2, vec![5; 4]).unwrap();
    let meta = ImageMetaData::full_builder(
        2, 2, 800, 300, -1025, 700_000, 1_700_000_000_000, "ZWO ASI533MM Pro", 240, 10, 0, 600,
    );
    let mut data = ImageData::new(img, meta);
    data.add_extended_attrib("DARK_FRAME", "False");
    let headers = data.fits_headers("testprog");
    let keys: Vec<&str> = headers.iter().map(|h| h.0.as_str()).collect();
    assert_eq!(
        keys,
        vec![
            "PROGRAM", "CAMERA", "TIMESTAMP", "CCDTEMP", "EXPOSURE_US", "ORIGIN_X", "ORIGIN_Y",
            "BINX", "BINY", "GAIN", "OFFSET", "GAIN_MIN", "GAIN_MAX", "DARK_FRAME",
        ]
    );
    assert!(matches!(&headers[0].1, FitsHeaderValue::Text(s) if s == "testprog"));
    assert!(matches!(&headers[1].1, FitsHeaderValue::Text(s) if s == "ZWO ASI533MM Pro"));
    assert!(matches!(headers[2].1, FitsHeaderValue::UInt(1_700_000_000_000)));
    assert!(matches!(headers[3].1, FitsHeaderValue::TemperatureCenti(-1025)));
    assert!(matches!(headers[4].1, FitsHeaderValue::UInt(700_000)));
    assert!(matches!(headers[5].1, FitsHeaderValue::UInt(300)));
    assert!(matches!(headers[6].1, FitsHeaderValue::UInt(800)));
    assert!(matches!(headers[7].1, FitsHeaderValue::UInt(2)));
    assert!(matches!(headers[8].1, FitsHeaderValue::UInt(2)));
    assert!(matches!(headers[9].1, FitsHeaderValue::Int(240)));
    assert!(matches!(headers[10].1, FitsHeaderValue::Int(10)));
    assert!(matches!(headers[11].1, FitsHeaderValue::Int(0)));
    assert!(matches!(headers[12].1, FitsHeaderValue::Int(600)));
    assert!(matches!(&headers[13].1, FitsHeaderValue::Text(s) if s == "False"));
}

#[test]
fn container_element_type_follows_the_pixel_format() {
    let mono8 = ImageBuf::from_mono8(2, 2, vec![0; 4]).unwrap();
    let mono16 = ImageBuf::from_mono16(2, 2, vec![0; 4]).unwrap();
    let rgb = ImageBuf::from_rgb24(2, 2, vec![0; 12]).unwrap();
    let meta = ImageMetaData::default;
    assert_eq!(
        ImageData::new(mono8, meta()).fits_image_kind().unwrap(),
        FitsImageKind::UnsignedByte
    );
    assert_eq!(
        ImageData::new(mono16, meta()).fits_image_kind().unwrap(),
        FitsImageKind::UnsignedShort
    );
    assert!(matches!(
        ImageData::new(rgb, meta()).fits_image_kind(),
        Err(Error::InvalidImageType(_))
    ));
}

#[test]
fn optimizing_from_a_frame_uses_its_metadata() {
    // A constant frame at half the target doubles the stored exposure.
    let img = ImageBuf::from_mono16(10, 10, vec![10000; 100]).unwrap();
    let meta = ImageMetaData::full_builder(
        1, 1, 0, 0, 0, 1_000_000, 0, "cam", 0, 0, 0, 100,
    );
    let data = ImageData::new(img, meta);
    let (exp, bin) = data.find_optimum_exposure(950, 20000, 10_000_000, 4, 0, 100).unwrap();
    assert_eq!((exp, bin), (2_000_000, 1));
}

#[test]
fn error_messages_name_the_failure() {
    assert_eq!(Error::TimedOut.message(), "Timed out");
    assert_eq!(Error::ExposureInProgress.message(), "Exposure in progress");
    assert_eq!(Error::InvalidValue(String::from("bad")).message(), "bad");
    assert_eq!(
        Error::InvalidControlType(String::from("cooler")).message(),
        "Invalid control type: cooler"
    );
    assert_eq!(Error::NoCamerasAvailable.message(), "No cameras available");
    assert_eq!(Error::InvalidSize(1470).message(), "Invalid size: 1470");
    assert_eq!(Error::BufferTooSmall(0).message(), "Buffer too small: 0");
    assert_eq!(Error::InvalidIndex(-5).message(), "Invalid index: -5");
    assert_eq!(Error::InvalidId(2147483647).message(), "Invalid id: 2147483647");
}
