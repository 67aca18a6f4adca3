//! The device capability contract.
//!
//! Two interface surfaces every camera backend offers: a read-only
//! information surface and a read-write control surface.  Every method
//! has a default that reports the capability as unsupported, so a
//! backend without a cooler, shutter or some control still answers
//! every call with a value instead of crashing.
//!
//! Exposures are microseconds, temperatures hundredths of a degree
//! Celsius, pixel pitches nanometers, and the normalized gain runs from
//! 0 to [`GAIN_SCALE`](crate::gain::GAIN_SCALE).

use vstd::prelude::*;
use vstd::string::StringExecFns;
use crate::errors::Error;
use crate::imagedata::ImageData;
use crate::roi::ROI;

verus! {

/// The read-only information surface of a camera.
pub trait CameraInfo {
    /// Whether the device is open and answering.
    fn camera_ready(&self) -> bool {
        false
    }

    /// Name the device reports.
    fn camera_name(&self) -> &str {
        "Unknown"
    }

    /// The device's stored identity, if it has one.
    fn get_uuid(&self) -> Option<String> {
        None
    }

    /// Whether a capture is in progress.  An observer that cannot get a
    /// prompt answer must report `true` rather than a stale idle.
    fn is_capturing(&self) -> bool {
        false
    }

    /// Set the cooler target, hundredths of a degree Celsius; the
    /// confirmed whole-degree value comes back.
    fn set_temperature(&self, temperature_centi: i32) -> Result<i32, Error> {
        let _ = temperature_centi;
        Err(Error::Message(String::from_str("Not implemented")))
    }

    /// The detector temperature, hundredths of a degree Celsius.
    fn get_temperature(&self) -> Option<i32> {
        None
    }

    /// The cooler drive level, percent.
    fn get_cooler_power(&self) -> Option<i32> {
        None
    }

    /// Set the cooler drive level, percent.
    fn set_cooler_power(&self, power: i32) -> Result<i32, Error> {
        let _ = power;
        Err(Error::Message(String::from_str("Not implemented")))
    }

    /// Sensor width in unbinned pixels.
    fn get_ccd_width(&self) -> u32 {
        0
    }

    /// Sensor height in unbinned pixels.
    fn get_ccd_height(&self) -> u32 {
        0
    }

    /// Pixel pitch in nanometers.
    fn get_pixel_size(&self) -> Option<u64> {
        None
    }
}

/// The read-write control surface of a camera.
pub trait CameraUnit: CameraInfo {
    /// The device vendor.
    fn get_vendor(&self) -> &str {
        "Unknown"
    }

    /// Run one exposure to completion and return its frame.
    fn capture_image(&self) -> Result<ImageData, Error> {
        Err(Error::GeneralError(String::from_str("Not implemented")))
    }

    /// Cancel whatever capture may be in progress; cancelling with none
    /// active succeeds and touches nothing.
    fn cancel_capture(&self) -> Result<(), Error> {
        Err(Error::GeneralError(String::from_str("Not implemented")))
    }

    /// The most recent frame, where the backend keeps one.
    fn get_last_image(&self) -> Option<ImageData> {
        None
    }

    /// Set the exposure, microseconds; the hardware-confirmed value
    /// comes back.
    fn set_exposure(&mut self, exposure_us: u64) -> Result<u64, Error> {
        let _ = exposure_us;
        Err(Error::Message(String::from_str("Not implemented")))
    }

    /// The configured exposure, microseconds.
    fn get_exposure(&self) -> u64 {
        0
    }

    /// The gain on the normalized scale.
    fn get_gain(&self) -> u32 {
        0
    }

    /// The gain as the device's raw value.
    fn get_gain_raw(&self) -> i64 {
        0
    }

    /// Set the gain on the normalized scale; the confirmed value comes
    /// back.
    fn set_gain(&mut self, gain: u32) -> Result<u32, Error> {
        let _ = gain;
        Err(Error::Message(String::from_str("Not implemented")))
    }

    /// Set the gain as the device's raw value; the confirmed value
    /// comes back.
    fn set_gain_raw(&mut self, gain: i64) -> Result<i64, Error> {
        let _ = gain;
        Err(Error::Message(String::from_str("Not implemented")))
    }

    /// The pixel offset as the device's raw value.
    fn get_offset(&self) -> i32 {
        0
    }

    /// Set the pixel offset; the confirmed value comes back.
    fn set_offset(&mut self, offset: i32) -> Result<i32, Error> {
        let _ = offset;
        Err(Error::Message(String::from_str("Not implemented")))
    }

    /// The shortest exposure the device accepts, microseconds.
    fn get_min_exposure(&self) -> Result<u64, Error> {
        Err(Error::Message(String::from_str("Not implemented")))
    }

    /// The longest exposure the device accepts, microseconds.
    fn get_max_exposure(&self) -> Result<u64, Error> {
        Err(Error::Message(String::from_str("Not implemented")))
    }

    /// The smallest raw gain the device accepts.
    fn get_min_gain(&self) -> Result<i64, Error> {
        Err(Error::Message(String::from_str("Not implemented")))
    }

    /// The largest raw gain the device accepts.
    fn get_max_gain(&self) -> Result<i64, Error> {
        Err(Error::Message(String::from_str("Not implemented")))
    }

    /// Open or close the mechanical shutter for the next capture.
    fn set_shutter_open(&mut self, open: bool) -> Result<bool, Error> {
        let _ = open;
        Err(Error::Message(String::from_str("Not implemented")))
    }

    /// Whether the mechanical shutter stands open.
    fn get_shutter_open(&self) -> Result<bool, Error> {
        Err(Error::Message(String::from_str("Not implemented")))
    }

    /// Validate, apply and record a capture region; the normalized
    /// region actually in force comes back.
    fn set_roi(&mut self, roi: &ROI) -> Result<ROI, Error> {
        let _ = roi;
        Err(Error::Message(String::from_str("Not implemented")))
    }

    /// The active region's binning along x.
    fn get_bin_x(&self) -> i32 {
        1
    }

    /// The active region's binning along y.
    fn get_bin_y(&self) -> i32 {
        1
    }

    /// The active capture region, in binned pixel space.
    fn get_roi(&self) -> ROI {
        ROI { x_min: 0, x_max: 0, y_min: 0, y_max: 0, bin_x: 1, bin_y: 1 }
    }

    /// A human-readable description of the device's condition.
    fn get_status(&self) -> String {
        String::from_str("Not implemented")
    }
}

} // verus!
