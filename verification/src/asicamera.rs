//! The camera driver's state machine.
//!
//! The driver records what it knows of the device — identity, control
//! bounds, the active region, exposure and format — and every hardware
//! interaction is split into a decision and a commitment: a `plan`
//! method validates a request against the recorded state and says
//! whether the hardware may be touched, and a `commit` method folds the
//! hardware-confirmed outcome back into the state.  The capture
//! lifecycle runs the same way: [`CameraUnit_ASI::capture_begin`]
//! adjudicates a capture request against the reported exposure status,
//! the poll cadence comes from [`poll_interval_us`],
//! [`CameraUnit_ASI::capture_finish`] turns the final status into a
//! readout plan or a failure that always returns the machine to idle,
//! and [`CameraUnit_ASI::readout_commit`] decodes the pixel buffer and
//! stamps the metadata with the moment the exposure was triggered.

use vstd::prelude::*;
use vstd::string::StringExecFns;
use vstd::string::StrSliceExecFns;
use crate::asi::{ASIBayerPattern, ASIExposureStatus, ASIImageFormat, spec_bytes_per_pixel};
use crate::errors::Error;
use crate::image_buf::ImageBuf;
use crate::imagedata::ImageData;
use crate::metadata::ImageMetaData;
use crate::roi::{roi_accepted, normalized_roi, validate_roi, ROI};

verus! {

/// Properties the device reports once, at open time.
#[derive(Clone, Debug)]
pub struct ASICameraProps {
    /// Name the device reports.
    pub name: String,
    /// The device identifier used by the vendor layer.
    pub id: i32,
    /// The device's stored identity bytes.
    pub uuid: [u8; 8],
    /// Sensor height in unbinned pixels.
    pub max_height: u32,
    /// Sensor width in unbinned pixels.
    pub max_width: u32,
    /// Whether the sensor carries a Bayer color mosaic.
    pub is_color_cam: bool,
    /// The mosaic layout, when the sensor is color.
    pub bayer_pattern: Option<ASIBayerPattern>,
    /// Binning factors the device offers.
    pub supported_bins: Vec<i32>,
    /// Pixel formats the device offers.
    pub supported_formats: Vec<ASIImageFormat>,
    /// Pixel pitch in nanometers.
    pub pixel_size_nm: u64,
    /// Whether a mechanical shutter is fitted.
    pub mechanical_shutter: bool,
    /// Whether a cooler is fitted.
    pub is_cooler_cam: bool,
    /// Whether the device is on a USB 3 link; older link generations
    /// impose the kilopixel-block readout constraint.
    pub is_usb3_camera: bool,
    /// Reported conversion factor, thousandths of an electron per count.
    pub e_per_adu_milli: u32,
    /// Sample depth of the analog-to-digital converter.
    pub bit_depth: i32,
    /// Whether the device supports triggered capture.
    pub is_trigger_camera: bool,
}

/// Everything the driver records between hardware interactions; the
/// ghost view of [`CameraUnit_ASI`].
pub struct CameraState {
    pub props: ASICameraProps,
    pub gain_min: i64,
    pub gain_max: i64,
    pub exp_min_us: u64,
    pub exp_max_us: u64,
    pub exposure_us: u64,
    pub capturing: bool,
    pub is_dark_frame: bool,
    pub image_fmt: ASIImageFormat,
    pub roi: ROI,
    pub pending_timestamp: u64,
}

/// The recorded state is internally consistent: the region sits inside
/// the sensor with square binning, and the reported bounds fit the
/// types the metadata uses.
pub open spec fn camera_wf(s: CameraState) -> bool {
    &&& s.props.max_width <= 0x7fff_ffff
    &&& s.props.max_height <= 0x7fff_ffff
    &&& 0 <= s.roi.x_min <= s.roi.x_max
    &&& 0 <= s.roi.y_min <= s.roi.y_max
    &&& s.roi.x_max <= s.props.max_width
    &&& s.roi.y_max <= s.props.max_height
    &&& s.roi.bin_x >= 1
    &&& s.roi.bin_y == s.roi.bin_x
    &&& s.gain_min <= s.gain_max
    &&& -0x8000_0000 <= s.gain_min
    &&& s.gain_max <= 0x7fff_ffff
}

/// A camera driver: the software side of one physical device.
pub struct CameraUnit_ASI {
    props: ASICameraProps,
    gain_min: i64,
    gain_max: i64,
    exp_min_us: u64,
    exp_max_us: u64,
    exposure_us: u64,
    capturing: bool,
    is_dark_frame: bool,
    image_fmt: ASIImageFormat,
    roi: ROI,
    pending_timestamp: u64,
}

impl View for CameraUnit_ASI {
    type V = CameraState;

    closed spec fn view(&self) -> CameraState {
        CameraState {
            props: self.props,
            gain_min: self.gain_min,
            gain_max: self.gain_max,
            exp_min_us: self.exp_min_us,
            exp_max_us: self.exp_max_us,
            exposure_us: self.exposure_us,
            capturing: self.capturing,
            is_dark_frame: self.is_dark_frame,
            image_fmt: self.image_fmt,
            roi: self.roi,
            pending_timestamp: self.pending_timestamp,
        }
    }
}

/// Whether the device's format list offers a format.
fn formats_contain(formats: &Vec<ASIImageFormat>, x: ASIImageFormat) -> (r: bool)
    ensures
        r == formats@.contains(x),
{
    let mut i: usize = 0;
    while i < formats.len()
        invariant
            i <= formats@.len(),
            forall|j: int| 0 <= j < i ==> formats@[j] != x,
        decreases formats@.len() - i,
    {
        if formats[i] == x {
            assert(formats@[i as int] == x);
            return true;
        }
        i = i + 1;
    }
    false
}

/// The capture format a freshly opened device starts in.
pub open spec fn spec_default_image_format(props: ASICameraProps) -> ASIImageFormat {
    if props.is_color_cam {
        ASIImageFormat::Image_RGB24
    } else if props.supported_formats@.contains(ASIImageFormat::Image_RAW16) {
        ASIImageFormat::Image_RAW16
    } else {
        ASIImageFormat::Image_RAW8
    }
}

/// Choose the capture format a freshly opened device starts in: color
/// sensors start in RGB, mono sensors in their deepest mono format.
pub fn default_image_format(props: &ASICameraProps) -> (r: ASIImageFormat)
    ensures
        r == spec_default_image_format(*props),
{
    if props.is_color_cam {
        ASIImageFormat::Image_RGB24
    } else if formats_contain(&props.supported_formats, ASIImageFormat::Image_RAW16) {
        ASIImageFormat::Image_RAW16
    } else {
        ASIImageFormat::Image_RAW8
    }
}

/// The cadence of exposure-status polling, tiered by exposure length so
/// short exposures are noticed quickly without busy-polling long ones:
/// every millisecond under 16 milliseconds, every 100 milliseconds
/// under a second, every second beyond that.
pub fn poll_interval_us(exposure_us: u64) -> (r: u64)
    ensures
        exposure_us < 16_000 ==> r == 1_000,
        16_000 <= exposure_us < 1_000_000 ==> r == 100_000,
        exposure_us >= 1_000_000 ==> r == 1_000_000,
{
    if exposure_us < 16_000 {
        1_000
    } else if exposure_us < 1_000_000 {
        100_000
    } else {
        1_000_000
    }
}

/// A device serial number, eight big-endian bytes.
pub open spec fn spec_be_u64(b: Seq<u8>) -> int {
    b[0] * 0x100_0000_0000_0000 + b[1] * 0x1_0000_0000_0000 + b[2] * 0x100_0000_0000 + b[3]
        * 0x1_0000_0000 + b[4] * 0x100_0000 + b[5] * 0x1_0000 + b[6] * 0x100 + b[7]
}

/// Read a device serial number out of its eight big-endian bytes.
pub fn serial_from_bytes(b: &[u8; 8]) -> (r: u64)
    ensures
        r == spec_be_u64(b@),
{
    (b[0] as u64) * 0x100_0000_0000_0000 + (b[1] as u64) * 0x1_0000_0000_0000 + (b[2] as u64)
        * 0x100_0000_0000 + (b[3] as u64) * 0x1_0000_0000 + (b[4] as u64) * 0x100_0000 + (
    b[5] as u64) * 0x1_0000 + (b[6] as u64) * 0x100 + (b[7] as u64)
}

/// Validate a cooler set-point before any hardware write: the device
/// must have a cooler and the target must lie between -80 and +20
/// degrees Celsius.  On success the whole-degree value the hardware is
/// given comes back, truncated toward zero as the device expects.
pub fn set_temperature_plan(temperature_centi: i32, is_cooler_cam: bool) -> (r: Result<i32, Error>)
    ensures
        !is_cooler_cam ==> r matches Err(Error::InvalidControlType(_)),
        is_cooler_cam && temperature_centi < -8000 ==> r matches Err(Error::InvalidValue(_)),
        is_cooler_cam && temperature_centi > 2000 ==> r matches Err(Error::InvalidValue(_)),
        is_cooler_cam && -8000 <= temperature_centi <= 2000 ==> r == Ok::<i32, Error>(
            crate::roi::div_trunc(temperature_centi as int, 100) as i32,
        ),
{
    if !is_cooler_cam {
        return Err(Error::InvalidControlType(String::from_str("Camera does not have cooler")));
    }
    if temperature_centi < -8000 {
        return Err(Error::InvalidValue(String::from_str("Temperature is below minimum of -80")));
    }
    if temperature_centi > 2000 {
        return Err(Error::InvalidValue(String::from_str("Temperature is above maximum of 20")));
    }
    if temperature_centi >= 0 {
        Ok(temperature_centi / 100)
    } else {
        let d: i32 = (-temperature_centi) / 100;
        Ok(-d)
    }
}

/// Whether `needle` occurs in `hay` starting at offset `k`.
pub open spec fn contains_at(hay: Seq<char>, needle: Seq<char>, k: int) -> bool {
    &&& 0 <= k
    &&& k + needle.len() <= hay.len()
    &&& hay.subrange(k, k + needle.len() as int) == needle
}

/// Whether `needle` occurs anywhere in `hay`.
pub open spec fn str_has_substring(hay: Seq<char>, needle: Seq<char>) -> bool {
    exists|k: int| contains_at(hay, needle, k)
}

/// Whether `needle` occurs in `hay` at offset `k`.
fn match_at(hay: &str, needle: &str, k: usize) -> (r: bool)
    requires
        k + needle@.len() <= hay@.len(),
        hay@.len() <= usize::MAX,
    ensures
        r == contains_at(hay@, needle@, k as int),
{
    let m: usize = needle.unicode_len();
    let mut j: usize = 0;
    while j < m
        invariant
            j <= m,
            m == needle@.len(),
            k + m <= hay@.len(),
            hay@.len() <= usize::MAX,
            forall|t: int| 0 <= t < j ==> hay@[k + t] == needle@[t],
        decreases m - j,
    {
        if hay.get_char(k + j) != needle.get_char(j) {
            proof {
                assert(hay@.subrange(k as int, k as int + needle@.len() as int)[j as int] != needle@[j as int]);
            }
            return false;
        }
        j = j + 1;
    }
    proof {
        assert(hay@.subrange(k as int, k as int + needle@.len() as int) =~= needle@);
    }
    true
}

/// Whether one string occurs inside another.
pub fn str_contains(hay: &str, needle: &str) -> (r: bool)
    ensures
        r == str_has_substring(hay@, needle@),
{
    let n: usize = hay.unicode_len();
    let m: usize = needle.unicode_len();
    if m > n {
        proof {
            assert(forall|k: int| !contains_at(hay@, needle@, k));
        }
        return false;
    }
    if m == 0 {
        proof {
            assert(hay@.subrange(0, 0) =~= needle@);
            assert(contains_at(hay@, needle@, 0));
        }
        return true;
    }
    let mut k: usize = 0;
    while k <= n - m
        invariant
            1 <= m <= n,
            n == hay@.len(),
            m == needle@.len(),
            n <= usize::MAX,
            k <= n - m + 1,
            forall|k2: int| 0 <= k2 < k ==> !contains_at(hay@, needle@, k2),
        decreases n - m + 1 - k,
    {
        if match_at(hay, needle, k) {
            return true;
        }
        k = k + 1;
    }
    proof {
        assert forall|k2: int| !contains_at(hay@, needle@, k2) by {
            if 0 <= k2 <= n - m {
                assert(!contains_at(hay@, needle@, k2));
            }
        }
    }
    false
}

/// Sensors on a legacy link transfer whole kilopixel blocks only; the
/// constraint applies to the older models whose name carries the
/// `ASI120` family mark on a non-USB-3 link.
pub open spec fn spec_legacy_sensor(props: ASICameraProps) -> bool {
    !props.is_usb3_camera && str_has_substring(props.name@, "ASI120"@)
}

/// Whether this device needs the legacy kilopixel readout constraint.
pub fn is_legacy_sensor(props: &ASICameraProps) -> (r: bool)
    ensures
        r == spec_legacy_sensor(*props),
{
    !props.is_usb3_camera && str_contains(props.name.as_str(), "ASI120")
}


/// The index of the first zero in a device-reported, zero-terminated
/// list, or its whole length when none occurs.
pub open spec fn spec_zero_terminated_len(raw: Seq<i32>) -> int
    decreases raw.len(),
{
    if raw.len() == 0 {
        0
    } else if raw[0] == 0 {
        0
    } else {
        1 + spec_zero_terminated_len(raw.drop_first())
    }
}

proof fn lemma_zero_terminated_len_step(raw: Seq<i32>, i: int)
    requires
        0 <= i < raw.len(),
    ensures
        raw[i] == 0 ==> spec_zero_terminated_len(raw.skip(i)) == 0,
        raw[i] != 0 ==> spec_zero_terminated_len(raw.skip(i)) == 1 + spec_zero_terminated_len(
            raw.skip(i + 1),
        ),
    decreases raw.len() - i,
{
    assert(raw.skip(i).len() > 0);
    assert(raw.skip(i)[0] == raw[i]);
    if raw[i] != 0 {
        assert(raw.skip(i).drop_first() =~= raw.skip(i + 1));
    }
}

proof fn lemma_zero_terminated_len_bounds(raw: Seq<i32>)
    ensures
        0 <= spec_zero_terminated_len(raw) <= raw.len(),
        forall|j: int| 0 <= j < spec_zero_terminated_len(raw) ==> raw[j] != 0,
    decreases raw.len(),
{
    if raw.len() > 0 && raw[0] != 0 {
        lemma_zero_terminated_len_bounds(raw.drop_first());
        assert forall|j: int| 0 <= j < spec_zero_terminated_len(raw) implies raw[j] != 0 by {
            if j > 0 {
                assert(raw.drop_first()[j - 1] != 0);
            }
        }
    }
}

/// The binning factors a device reports: the prefix of its
/// zero-terminated list.
pub fn supported_bins_from_raw(raw: &Vec<i32>) -> (r: Vec<i32>)
    ensures
        r@ == raw@.take(spec_zero_terminated_len(raw@)),
{
    let mut r: Vec<i32> = Vec::new();
    let mut i: usize = 0;
    proof {
        lemma_zero_terminated_len_bounds(raw@);
        assert(raw@.skip(0) =~= raw@);
    }
    while i < raw.len()
        invariant
            i <= raw@.len(),
            r@.len() == i,
            forall|j: int| 0 <= j < i ==> r@[j] == raw@[j],
            spec_zero_terminated_len(raw@) == i + spec_zero_terminated_len(raw@.skip(i as int)),
            forall|j: int| 0 <= j < i ==> raw@[j] != 0,
        decreases raw@.len() - i,
    {
        proof {
            lemma_zero_terminated_len_step(raw@, i as int);
            lemma_zero_terminated_len_bounds(raw@.skip(i as int));
        }
        if raw[i] == 0 {
            proof {
                assert(r@ =~= raw@.take(spec_zero_terminated_len(raw@)));
            }
            return r;
        }
        r.push(raw[i]);
        i = i + 1;
    }
    proof {
        assert(spec_zero_terminated_len(raw@.skip(i as int)) == 0);
        assert(r@ =~= raw@.take(spec_zero_terminated_len(raw@)));
    }
    r
}

/// The SDK integer that names each pixel format.
pub open spec fn image_format_code(fmt: ASIImageFormat) -> int {
    match fmt {
        ASIImageFormat::Image_RAW8 => 0,
        ASIImageFormat::Image_RGB24 => 1,
        ASIImageFormat::Image_RAW16 => 2,
    }
}

/// The pixel formats a device reports: the prefix of its
/// zero-terminated list, each entry decoded.  An entry the library does
/// not recognize is a recoverable mode error, not an abort.
pub fn supported_formats_from_raw(raw: &Vec<i32>) -> (r: Result<Vec<ASIImageFormat>, Error>)
    ensures
        r matches Ok(v) ==> {
            &&& v@.len() == spec_zero_terminated_len(raw@)
            &&& forall|j: int|
                0 <= j < v@.len() ==> image_format_code(v@[j]) == raw@[j]
        },
        r matches Err(e) ==> (e matches Error::InvalidMode(_)) && (exists|j: int|
            0 <= j < spec_zero_terminated_len(raw@) && !(0 <= #[trigger] raw@[j] <= 2)),
{
    let mut v: Vec<ASIImageFormat> = Vec::new();
    let mut i: usize = 0;
    proof {
        lemma_zero_terminated_len_bounds(raw@);
        assert(raw@.skip(0) =~= raw@);
    }
    while i < raw.len()
        invariant
            i <= raw@.len(),
            v@.len() == i,
            forall|j: int| 0 <= j < i ==> image_format_code(v@[j]) == raw@[j],
            spec_zero_terminated_len(raw@) == i + spec_zero_terminated_len(raw@.skip(i as int)),
            forall|j: int| 0 <= j < i ==> raw@[j] != 0,
        decreases raw@.len() - i,
    {
        proof {
            lemma_zero_terminated_len_step(raw@, i as int);
            lemma_zero_terminated_len_bounds(raw@.skip(i as int));
        }
        let x: i32 = raw[i];
        if x == 0 {
            return Ok(v);
        }
        if x < 0 || x > 2 {
            proof {
                lemma_zero_terminated_len_bounds(raw@.skip(i as int + 1));
                assert(0 <= i < spec_zero_terminated_len(raw@) && !(0 <= raw@[i as int] <= 2));
            }
            return Err(Error::InvalidMode(String::from_str("Unrecognized image format")));
        }
        if x == 1 {
            v.push(ASIImageFormat::Image_RGB24);
        } else {
            v.push(ASIImageFormat::Image_RAW16);
        }
        i = i + 1;
    }
    Ok(v)
}

impl CameraUnit_ASI {
    /// Build the driver state for a freshly opened device: full-frame
    /// region at bin 1, a tenth of a second of exposure, shutter open,
    /// and the default format for the sensor.  The reported sensor and
    /// gain bounds must fit the coordinate types the driver computes
    /// with; a device reporting anything larger is refused.
    pub fn new(
        props: ASICameraProps,
        gain_min: i64,
        gain_max: i64,
        exp_min_us: u64,
        exp_max_us: u64,
    ) -> (r: Result<CameraUnit_ASI, Error>)
        ensures
            r is Ok <==> {
                &&& props.max_width <= 0x7fff_ffff
                &&& props.max_height <= 0x7fff_ffff
                &&& gain_min <= gain_max
                &&& -0x8000_0000 <= gain_min
                &&& gain_max <= 0x7fff_ffff
            },
            r matches Ok(c) ==> {
                &&& camera_wf(c@)
                &&& c@.props == props
                &&& c@.gain_min == gain_min
                &&& c@.gain_max == gain_max
                &&& c@.exp_min_us == exp_min_us
                &&& c@.exp_max_us == exp_max_us
                &&& c@.exposure_us == 100_000
                &&& !c@.capturing
                &&& !c@.is_dark_frame
                &&& c@.image_fmt == spec_default_image_format(props)
                &&& c@.roi == (ROI {
                    x_min: 0,
                    x_max: props.max_width as i32,
                    y_min: 0,
                    y_max: props.max_height as i32,
                    bin_x: 1,
                    bin_y: 1,
                })
                &&& c@.pending_timestamp == 0
            },
            r is Err ==> r matches Err(Error::InvalidValue(_)),
    {
        if props.max_width > 0x7fff_ffff || props.max_height > 0x7fff_ffff {
            return Err(Error::InvalidValue(String::from_str("Sensor dimensions out of range")));
        }
        if gain_min > gain_max || gain_min < -0x8000_0000 || gain_max > 0x7fff_ffff {
            return Err(Error::InvalidValue(String::from_str("Gain bounds out of range")));
        }
        let image_fmt = default_image_format(&props);
        let roi = ROI {
            x_min: 0,
            x_max: props.max_width as i32,
            y_min: 0,
            y_max: props.max_height as i32,
            bin_x: 1,
            bin_y: 1,
        };
        Ok(CameraUnit_ASI {
            props,
            gain_min,
            gain_max,
            exp_min_us,
            exp_max_us,
            exposure_us: 100_000,
            capturing: false,
            is_dark_frame: false,
            image_fmt,
            roi,
            pending_timestamp: 0,
        })
    }

    /// Name the device reports.
    pub fn camera_name(&self) -> (r: &str)
        ensures
            r@ == self@.props.name@,
    {
        self.props.name.as_str()
    }

    /// The device's stored identity bytes.
    pub fn get_uuid(&self) -> (r: [u8; 8])
        ensures
            r@ == self@.props.uuid@,
    {
        self.props.uuid
    }

    /// A driver with an open device is ready.
    pub fn camera_ready(&self) -> (r: bool)
        ensures
            r,
    {
        true
    }

    /// Whether a capture is in progress in this driver's record.
    pub fn is_capturing(&self) -> (r: bool)
        ensures
            r == self@.capturing,
    {
        self.capturing
    }

    /// Sensor width in unbinned pixels.
    pub fn get_ccd_width(&self) -> (r: u32)
        ensures
            r == self@.props.max_width,
    {
        self.props.max_width
    }

    /// Sensor height in unbinned pixels.
    pub fn get_ccd_height(&self) -> (r: u32)
        ensures
            r == self@.props.max_height,
    {
        self.props.max_height
    }

    /// Pixel pitch in nanometers.
    pub fn get_pixel_size(&self) -> (r: Option<u64>)
        ensures
            r == Some(self@.props.pixel_size_nm),
    {
        Some(self.props.pixel_size_nm)
    }

    /// The device vendor.
    pub fn get_vendor(&self) -> (r: &str)
        ensures
            r@ == "ZWO"@,
    {
        "ZWO"
    }

    /// The device properties reported at open time.
    pub fn get_props(&self) -> (r: &ASICameraProps)
        ensures
            r == &self@.props,
    {
        &self.props
    }

    /// The shortest exposure the device accepts, in microseconds.
    pub fn get_min_exposure(&self) -> (r: Result<u64, Error>)
        ensures
            r == Ok::<u64, Error>(self@.exp_min_us),
    {
        Ok(self.exp_min_us)
    }

    /// The longest exposure the device accepts, in microseconds.
    pub fn get_max_exposure(&self) -> (r: Result<u64, Error>)
        ensures
            r == Ok::<u64, Error>(self@.exp_max_us),
    {
        Ok(self.exp_max_us)
    }

    /// The smallest raw gain the device accepts.
    pub fn get_min_gain(&self) -> (r: Result<i64, Error>)
        ensures
            r == Ok::<i64, Error>(self@.gain_min),
    {
        Ok(self.gain_min)
    }

    /// The largest raw gain the device accepts.
    pub fn get_max_gain(&self) -> (r: Result<i64, Error>)
        ensures
            r == Ok::<i64, Error>(self@.gain_max),
    {
        Ok(self.gain_max)
    }

    /// The active region's binning along x.
    pub fn get_bin_x(&self) -> (r: i32)
        ensures
            r == self@.roi.bin_x,
    {
        self.roi.bin_x
    }

    /// The active region's binning along y.
    pub fn get_bin_y(&self) -> (r: i32)
        ensures
            r == self@.roi.bin_y,
    {
        self.roi.bin_y
    }

    /// The configured exposure, in microseconds.
    pub fn get_exposure(&self) -> (r: u64)
        ensures
            r == self@.exposure_us,
    {
        self.exposure_us
    }

    /// The active capture region, in binned pixel space.
    pub fn get_roi(&self) -> (r: &ROI)
        ensures
            r == &self@.roi,
    {
        &self.roi
    }

    /// The active pixel format.
    pub fn get_image_fmt(&self) -> (r: ASIImageFormat)
        ensures
            r == self@.image_fmt,
    {
        self.image_fmt
    }

    /// Whether the mechanical shutter stands open; a device without one
    /// reports an unsupported control.
    pub fn get_shutter_open(&self) -> (r: Result<bool, Error>)
        ensures
            self@.props.mechanical_shutter ==> r == Ok::<bool, Error>(!self@.is_dark_frame),
            !self@.props.mechanical_shutter ==> r matches Err(Error::InvalidControlType(_)),
    {
        if !self.props.mechanical_shutter {
            return Err(
                Error::InvalidControlType(
                    String::from_str("Camera does not have mechanical shutter"),
                ),
            );
        }
        Ok(!self.is_dark_frame)
    }

    /// Open or close the mechanical shutter for the next capture.  The
    /// request is refused while a capture is in progress or when no
    /// shutter is fitted; no hardware is involved, the choice takes
    /// effect when an exposure is triggered.
    pub fn set_shutter_open(&mut self, open: bool) -> (r: Result<bool, Error>)
        ensures
            old(self)@.capturing ==> (r matches Err(Error::ExposureInProgress)) && final(self)@
                == old(self)@,
            !old(self)@.capturing && !old(self)@.props.mechanical_shutter ==> (r matches Err(
                Error::InvalidControlType(_),
            )) && final(self)@ == old(self)@,
            !old(self)@.capturing && old(self)@.props.mechanical_shutter ==> r == Ok::<
                bool,
                Error,
            >(open) && final(self)@ == (CameraState { is_dark_frame: !open, ..old(self)@ }),
    {
        if self.capturing {
            return Err(Error::ExposureInProgress);
        }
        if !self.props.mechanical_shutter {
            return Err(
                Error::InvalidControlType(
                    String::from_str("Camera does not have mechanical shutter"),
                ),
            );
        }
        self.is_dark_frame = !open;
        Ok(open)
    }

    /// Validate an exposure request before any hardware write: the
    /// duration must lie within the device's bounds and no capture may
    /// be in progress.
    pub fn set_exposure_plan(&self, exposure_us: u64) -> (r: Result<(), Error>)
        ensures
            r is Ok <==> self@.exp_min_us <= exposure_us <= self@.exp_max_us
                && !self@.capturing,
            exposure_us < self@.exp_min_us ==> r matches Err(Error::InvalidValue(_)),
            exposure_us > self@.exp_max_us ==> r matches Err(Error::InvalidValue(_)),
            self@.exp_min_us <= exposure_us <= self@.exp_max_us && self@.capturing ==> r
                matches Err(Error::ExposureInProgress),
    {
        if exposure_us < self.exp_min_us {
            return Err(Error::InvalidValue(String::from_str("Exposure is below minimum")));
        }
        if exposure_us > self.exp_max_us {
            return Err(Error::InvalidValue(String::from_str("Exposure is above maximum")));
        }
        if self.capturing {
            return Err(Error::ExposureInProgress);
        }
        Ok(())
    }

    /// Record the exposure the hardware confirmed after a write; the
    /// confirmed value stands, not the requested one, since the device
    /// may clamp or round.
    pub fn set_exposure_commit(&mut self, confirmed_us: u64)
        ensures
            final(self)@ == (CameraState { exposure_us: confirmed_us, ..old(self)@ }),
    {
        self.exposure_us = confirmed_us;
    }

    /// Validate a raw gain request before any hardware write: the value
    /// must lie within the device's reported bounds and no capture may
    /// be in progress.
    pub fn set_gain_raw_plan(&self, gain: i64) -> (r: Result<(), Error>)
        ensures
            r is Ok <==> self@.gain_min <= gain <= self@.gain_max && !self@.capturing,
            gain < self@.gain_min ==> r matches Err(Error::InvalidValue(_)),
            gain > self@.gain_max ==> r matches Err(Error::InvalidValue(_)),
            self@.gain_min <= gain <= self@.gain_max && self@.capturing ==> r matches Err(
                Error::ExposureInProgress,
            ),
    {
        if gain < self.gain_min {
            return Err(Error::InvalidValue(String::from_str("Gain is below minimum")));
        }
        if gain > self.gain_max {
            return Err(Error::InvalidValue(String::from_str("Gain is above maximum")));
        }
        if self.capturing {
            return Err(Error::ExposureInProgress);
        }
        Ok(())
    }

    /// Validate a normalized gain request and map it to the raw value
    /// the hardware is given.  The scale runs from 0 to
    /// [`GAIN_SCALE`](crate::gain::GAIN_SCALE); a device that reports no
    /// usable gain range is refused.
    pub fn set_gain_plan(&self, gain: u32) -> (r: Result<i64, Error>)
        ensures
            gain > crate::gain::GAIN_SCALE ==> r matches Err(Error::InvalidValue(_)),
            gain <= crate::gain::GAIN_SCALE && self@.gain_min >= self@.gain_max ==> r matches
                Err(Error::InvalidValue(_)),
            gain <= crate::gain::GAIN_SCALE && self@.gain_min < self@.gain_max
                && self@.capturing ==> r matches Err(Error::ExposureInProgress),
            gain <= crate::gain::GAIN_SCALE && self@.gain_min < self@.gain_max
                && !self@.capturing ==> r == Ok::<i64, Error>(
                crate::gain::spec_normalized_to_raw(
                    gain as int,
                    self@.gain_min as int,
                    self@.gain_max as int,
                ) as i64,
            ),
    {
        if gain > crate::gain::GAIN_SCALE {
            return Err(Error::InvalidValue(String::from_str("Gain is outside of range")));
        }
        if self.gain_min >= self.gain_max {
            return Err(Error::InvalidValue(String::from_str("Camera reports no gain range")));
        }
        let raw = crate::gain::normalized_to_raw(gain, self.gain_min, self.gain_max);
        if self.capturing {
            return Err(Error::ExposureInProgress);
        }
        Ok(raw)
    }

    /// Validate and normalize a region request against this sensor; see
    /// [`validate_roi`].  The request is additionally refused while a
    /// capture is in progress.  No hardware has been touched when this
    /// returns; the caller applies the geometry and start position to
    /// the device, rolls the geometry back if the start-position write
    /// fails, and records the region with
    /// [`CameraUnit_ASI::set_roi_commit`] only when both writes stood.
    pub fn set_roi_plan(&self, req: &ROI) -> (r: Result<ROI, Error>)
        requires
            camera_wf(self@),
        ensures
            r is Ok <==> roi_accepted(
                *req,
                self@.props.max_width as int,
                self@.props.max_height as int,
                self@.props.supported_bins@,
                spec_legacy_sensor(self@.props),
            ) && !self@.capturing,
            r matches Ok(n) ==> n == normalized_roi(
                *req,
                self@.props.max_width as int,
                self@.props.max_height as int,
            ),
            req.bin_x != req.bin_y ==> r matches Err(Error::InvalidValue(_)),
            roi_accepted(
                *req,
                self@.props.max_width as int,
                self@.props.max_height as int,
                self@.props.supported_bins@,
                spec_legacy_sensor(self@.props),
            ) && self@.capturing ==> r matches Err(Error::ExposureInProgress),
    {
        let legacy = is_legacy_sensor(&self.props);
        let normalized = validate_roi(
            req,
            self.props.max_width,
            self.props.max_height,
            &self.props.supported_bins,
            legacy,
        )?;
        if self.capturing {
            return Err(Error::ExposureInProgress);
        }
        Ok(normalized)
    }

    /// Record a region after the hardware accepted both the geometry
    /// and the start position.  The region must be a normalized one
    /// that sits inside the sensor.
    pub fn set_roi_commit(&mut self, roi: ROI)
        requires
            0 <= roi.x_min <= roi.x_max,
            0 <= roi.y_min <= roi.y_max,
            roi.x_max <= old(self)@.props.max_width,
            roi.y_max <= old(self)@.props.max_height,
            roi.bin_x >= 1,
            roi.bin_y == roi.bin_x,
        ensures
            final(self)@ == (CameraState { roi, ..old(self)@ }),
    {
        self.roi = roi;
    }

    /// Validate a pixel-format change: the format must be one the
    /// device offers and no capture may be in progress.  A result of
    /// `Ok(true)` directs the caller to rewrite the device's region
    /// format before committing; `Ok(false)` means the format already
    /// stands and nothing need be written.
    pub fn set_image_fmt_plan(&self, fmt: ASIImageFormat) -> (r: Result<bool, Error>)
        ensures
            self@.image_fmt == fmt ==> r == Ok::<bool, Error>(false),
            self@.image_fmt != fmt && !self@.props.supported_formats@.contains(fmt) ==> r
                matches Err(Error::InvalidMode(_)),
            self@.image_fmt != fmt && self@.props.supported_formats@.contains(fmt)
                && self@.capturing ==> r matches Err(Error::ExposureInProgress),
            self@.image_fmt != fmt && self@.props.supported_formats@.contains(fmt)
                && !self@.capturing ==> r == Ok::<bool, Error>(true),
    {
        if self.image_fmt == fmt {
            return Ok(false);
        }
        if !formats_contain(&self.props.supported_formats, fmt) {
            return Err(Error::InvalidMode(String::from_str("Format not supported by camera")));
        }
        if self.capturing {
            return Err(Error::ExposureInProgress);
        }
        Ok(true)
    }

    /// Record a pixel format the hardware accepted.
    pub fn set_image_fmt_commit(&mut self, fmt: ASIImageFormat)
        ensures
            final(self)@ == (CameraState { image_fmt: fmt, ..old(self)@ }),
    {
        self.image_fmt = fmt;
    }

    /// Adjudicate a capture request against the exposure status the
    /// hardware reports.  A device already working is adopted — the
    /// driver marks itself capturing and reports the conflict rather
    /// than starting a duplicate exposure, so a request during an
    /// exposure never issues a start command.  A device reporting a
    /// failed exposure propagates the failure.  Only an idle or
    /// finished device lets the caller trigger the exposure, which it
    /// then records with [`CameraUnit_ASI::capture_start_commit`].
    pub fn capture_begin(&mut self, hw_status: ASIExposureStatus) -> (r: Result<(), Error>)
        ensures
            hw_status == ASIExposureStatus::Working ==> (r matches Err(
                Error::ExposureInProgress,
            )) && final(self)@ == (CameraState { capturing: true, ..old(self)@ }),
            hw_status == ASIExposureStatus::Failed ==> (r matches Err(Error::ExposureFailed(_)))
                && final(self)@ == old(self)@,
            hw_status == ASIExposureStatus::Idle || hw_status == ASIExposureStatus::Success
                ==> r is Ok && final(self)@ == (CameraState { capturing: false, ..old(self)@ }),
    {
        match hw_status {
            ASIExposureStatus::Working => {
                self.capturing = true;
                Err(Error::ExposureInProgress)
            },
            ASIExposureStatus::Failed => Err(Error::ExposureFailed(String::from_str("Unknown"))),
            _ => {
                self.capturing = false;
                Ok(())
            },
        }
    }

    /// Record that the exposure was triggered, and when: the metadata
    /// of the eventual frame carries this moment, the start of
    /// acquisition, not the time the readout completed.
    pub fn capture_start_commit(&mut self, timestamp_ms: u64)
        ensures
            final(self)@ == (CameraState {
                capturing: true,
                pending_timestamp: timestamp_ms,
                ..old(self)@
            }),
    {
        self.capturing = true;
        self.pending_timestamp = timestamp_ms;
    }

    /// Record that a trigger or readout attempt ended without a frame:
    /// the machine returns to idle so the device stays usable.
    pub fn capture_abort(&mut self)
        ensures
            final(self)@ == (CameraState { capturing: false, ..old(self)@ }),
    {
        self.capturing = false;
    }

    /// Turn the exposure status observed after polling into a readout
    /// plan or a failure.  Every failure returns the machine to idle: a
    /// reported failure, an idle device (the exposure completed but its
    /// frame is gone), and a device still working after the caller gave
    /// up (the caller must then issue a stop command).  On success the
    /// expected readout size in bytes comes back and the machine stays
    /// capturing until the readout is committed or aborted.
    pub fn capture_finish(&mut self, hw_status: ASIExposureStatus) -> (r: Result<u64, Error>)
        requires
            camera_wf(old(self)@),
        ensures
            hw_status == ASIExposureStatus::Failed ==> (r matches Err(Error::ExposureFailed(m))
                && m@ == "Unknown"@) && final(self)@ == (CameraState {
                capturing: false,
                ..old(self)@
            }),
            hw_status == ASIExposureStatus::Idle ==> (r matches Err(Error::ExposureFailed(m))
                && m@ == "Successful exposure but no available data"@) && final(self)@ == (
            CameraState { capturing: false, ..old(self)@ }),
            hw_status == ASIExposureStatus::Working ==> (r matches Err(Error::ExposureFailed(m))
                && m@ == "Exposure timed out"@) && final(self)@ == (CameraState {
                capturing: false,
                ..old(self)@
            }),
            hw_status == ASIExposureStatus::Success ==> r == Ok::<u64, Error>(
                (spec_bytes_per_pixel(old(self)@.image_fmt) * ((old(self)@.roi.x_max
                    - old(self)@.roi.x_min) * (old(self)@.roi.y_max - old(self)@.roi.y_min)))
                    as u64,
            ) && final(self)@ == old(self)@,
    {
        match hw_status {
            ASIExposureStatus::Failed => {
                self.capturing = false;
                Err(Error::ExposureFailed(String::from_str("Unknown")))
            },
            ASIExposureStatus::Idle => {
                self.capturing = false;
                Err(
                    Error::ExposureFailed(
                        String::from_str("Successful exposure but no available data"),
                    ),
                )
            },
            ASIExposureStatus::Working => {
                self.capturing = false;
                Err(Error::ExposureFailed(String::from_str("Exposure timed out")))
            },
            ASIExposureStatus::Success => {
                let width: u64 = (self.roi.x_max - self.roi.x_min) as u64;
                let height: u64 = (self.roi.y_max - self.roi.y_min) as u64;
                proof {
                    assert(0 <= width * height < 0x4000_0000_0000_0000) by (nonlinear_arith)
                        requires
                            0 <= width < 0x8000_0000,
                            0 <= height < 0x8000_0000,
                    ;
                }
                let pixels: u64 = width * height;
                let bpp: u64 = self.image_fmt.bytes_per_pixel();
                proof {
                    assert(0 <= bpp as int * pixels as int <= 3 * pixels as int)
                        by (nonlinear_arith)
                        requires
                            0 <= bpp as int <= 3,
                            0 <= pixels as int,
                    ;
                }
                Ok(bpp * pixels)
            },
        }
    }

    /// Decode a completed readout into a frame and stamp its metadata.
    /// The buffer must hold exactly the bytes
    /// [`CameraUnit_ASI::capture_finish`] asked for, in the active
    /// format; anything else is refused with the buffer's size, and the
    /// machine returns to idle either way — a failed readout never
    /// leaves it stuck capturing.  The metadata carries the region,
    /// exposure and identity of this driver, the moment the exposure
    /// was triggered, the temperature if one was read (absolute zero
    /// otherwise), and a dark-frame mark: a frame is dark when the
    /// shutter was held shut, and always counted dark without a
    /// mechanical shutter.
    pub fn readout_commit(
        &mut self,
        bytes: Vec<u8>,
        temperature_centi: Option<i32>,
        gain_raw: i64,
        offset: i64,
    ) -> (r: Result<ImageData, Error>)
        requires
            camera_wf(old(self)@),
        ensures
            final(self)@ == (CameraState { capturing: false, ..old(self)@ }),
            ({
                let s = old(self)@;
                let width = (s.roi.x_max - s.roi.x_min) as u32;
                let height = (s.roi.y_max - s.roi.y_min) as u32;
                &&& (r is Ok <==> bytes@.len() == spec_bytes_per_pixel(s.image_fmt) * (width
                    * height))
                &&& (r matches Err(e) ==> e matches Error::InvalidSize(n) && n == bytes@.len())
                &&& (r matches Ok(img) ==> {
                    let meta = img.spec_metadata();
                    &&& img.spec_image().wf()
                    &&& img.spec_image().spec_width() == width
                    &&& img.spec_image().spec_height() == height
                    &&& img.spec_image().spec_format() == s.image_fmt
                    &&& (s.image_fmt == ASIImageFormat::Image_RAW8
                        ==> img.spec_image().luma16_view()
                        == crate::image_buf::mono8_as_luma16(bytes@))
                    &&& (s.image_fmt == ASIImageFormat::Image_RAW16
                        ==> img.spec_image().luma16_view()
                        == crate::image_buf::decoded_mono16(bytes@))
                    &&& (s.image_fmt == ASIImageFormat::Image_RGB24
                        ==> img.spec_image().luma16_view()
                        == crate::image_buf::rgb_luma16_of(bytes@))
                    &&& meta.bin_x == s.roi.bin_x
                    &&& meta.bin_y == s.roi.bin_y
                    &&& meta.img_left == s.roi.x_min
                    &&& meta.img_top == s.roi.y_min
                    &&& meta.exposure_us == s.exposure_us
                    &&& meta.timestamp == s.pending_timestamp
                    &&& meta.camera_name@ == s.props.name@
                    &&& meta.gain == gain_raw
                    &&& meta.offset == offset
                    &&& meta.min_gain == s.gain_min
                    &&& meta.max_gain == s.gain_max
                    &&& meta.temperature_centi == (match temperature_centi {
                        Some(t) => t,
                        None => -27300i32,
                    })
                    &&& meta.extended_metadata@.len() == 1
                    &&& meta.extended_metadata@[0].0@ == "DARK_FRAME"@
                    &&& meta.extended_metadata@[0].1@ == (if s.props.mechanical_shutter
                        && !s.is_dark_frame {
                        "False"@
                    } else {
                        "True"@
                    })
                })
            }),
    {
        self.capturing = false;
        let width: u32 = (self.roi.x_max - self.roi.x_min) as u32;
        let height: u32 = (self.roi.y_max - self.roi.y_min) as u32;
        let n_bytes: usize = bytes.len();
        let img = match ImageBuf::from_raw_frame(self.image_fmt, width, height, bytes) {
            Ok(img) => img,
            Err(_) => {
                return Err(Error::InvalidSize(n_bytes));
            },
        };
        let temp: i32 = match temperature_centi {
            Some(t) => t,
            None => -27300,
        };
        let mut meta = ImageMetaData::full_builder(
            self.roi.bin_x as u32,
            self.roi.bin_y as u32,
            self.roi.y_min as u32,
            self.roi.x_min as u32,
            temp,
            self.exposure_us,
            self.pending_timestamp,
            self.props.name.as_str(),
            gain_raw,
            offset,
            self.gain_min as i32,
            self.gain_max as i32,
        );
        let shutter_open: bool = self.props.mechanical_shutter && !self.is_dark_frame;
        if shutter_open {
            meta.add_extended_attrib("DARK_FRAME", "False");
        } else {
            meta.add_extended_attrib("DARK_FRAME", "True");
        }
        Ok(ImageData::new(img, meta))
    }

    /// Cancel whatever capture may be in progress.  Cancelling is
    /// idempotent and always succeeds: when no capture is active the
    /// driver stays idle and directs the caller to send no stop
    /// command; when one is active the driver returns to idle and the
    /// caller must issue the hardware stop.
    pub fn cancel_capture(&mut self) -> (stop_command: bool)
        ensures
            stop_command == old(self)@.capturing,
            final(self)@ == (CameraState { capturing: false, ..old(self)@ }),
    {
        let was = self.capturing;
        self.capturing = false;
        was
    }
}

/// A read-only description of an open device, shareable with observers
/// that may not drive it.
#[derive(Clone, Debug)]
pub struct CameraInfo_ASI {
    /// Name the device reports.
    pub name: String,
    /// The device's stored identity bytes.
    pub uuid: [u8; 8],
    /// Sensor height in unbinned pixels.
    pub height: u32,
    /// Sensor width in unbinned pixels.
    pub width: u32,
    /// Pixel pitch in nanometers.
    pub psize_nm: u64,
    /// Whether a cooler is fitted.
    pub is_cooler_cam: bool,
}

impl CameraInfo_ASI {
    /// The information surface of a device, from its reported
    /// properties.
    pub fn from_props(props: &ASICameraProps) -> (r: CameraInfo_ASI)
        ensures
            r.name@ == props.name@,
            r.uuid@ == props.uuid@,
            r.height == props.max_height,
            r.width == props.max_width,
            r.psize_nm == props.pixel_size_nm,
            r.is_cooler_cam == props.is_cooler_cam,
    {
        CameraInfo_ASI {
            name: props.name.clone(),
            uuid: props.uuid,
            height: props.max_height,
            width: props.max_width,
            psize_nm: props.pixel_size_nm,
            is_cooler_cam: props.is_cooler_cam,
        }
    }

    /// Name the device reports.
    pub fn camera_name(&self) -> (r: &str)
        ensures
            r@ == self.name@,
    {
        self.name.as_str()
    }

    /// The device's stored identity bytes.
    pub fn get_uuid(&self) -> (r: [u8; 8])
        ensures
            r@ == self.uuid@,
    {
        self.uuid
    }

    /// Sensor width in unbinned pixels.
    pub fn get_ccd_width(&self) -> (r: u32)
        ensures
            r == self.width,
    {
        self.width
    }

    /// Sensor height in unbinned pixels.
    pub fn get_ccd_height(&self) -> (r: u32)
        ensures
            r == self.height,
    {
        self.height
    }

    /// Pixel pitch in nanometers.
    pub fn get_pixel_size(&self) -> (r: Option<u64>)
        ensures
            r == Some(self.psize_nm),
    {
        Some(self.psize_nm)
    }

    /// An opened device is ready.
    pub fn camera_ready(&self) -> (r: bool)
        ensures
            r,
    {
        true
    }
}

} // verus!
