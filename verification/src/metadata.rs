//! Acquisition metadata.
//!
//! Every capture is stamped once, at the moment the exposure is
//! triggered, with the camera's identity and settings.  The record is
//! immutable afterwards except for appending extended key/value pairs,
//! which keep their insertion order; a repeated key does not overwrite
//! an earlier one, both are kept.
//!
//! Temperatures are hundredths of a degree Celsius and exposures are
//! microseconds, so every field is exact.

use vstd::prelude::*;
use vstd::string::StringExecFns;

verus! {

/// The metadata of one captured frame.
#[derive(Debug, Clone)]
pub struct ImageMetaData {
    /// Binning factor along x at capture time.
    pub bin_x: u32,
    /// Binning factor along y at capture time.
    pub bin_y: u32,
    /// First sensor row of the captured region, in binned pixels.
    pub img_top: u32,
    /// First sensor column of the captured region, in binned pixels.
    pub img_left: u32,
    /// Detector temperature in hundredths of a degree Celsius.
    pub temperature_centi: i32,
    /// Exposure duration in microseconds.
    pub exposure_us: u64,
    /// Moment the exposure was triggered, in milliseconds since the
    /// Unix epoch.
    pub timestamp: u64,
    /// Name the camera reports.
    pub camera_name: String,
    /// Raw gain at capture time.
    pub gain: i64,
    /// Raw offset at capture time.
    pub offset: i64,
    /// Smallest raw gain the device accepts.
    pub min_gain: i32,
    /// Largest raw gain the device accepts.
    pub max_gain: i32,
    /// Extended key/value pairs in insertion order; duplicate keys are
    /// kept.
    pub extended_metadata: Vec<(String, String)>,
}

impl Default for ImageMetaData {
    /// A zeroed record with an empty name and no extended pairs.
    fn default() -> (d: Self)
        ensures
            d.bin_x == 0,
            d.bin_y == 0,
            d.img_top == 0,
            d.img_left == 0,
            d.temperature_centi == 0,
            d.exposure_us == 0,
            d.timestamp == 0,
            d.camera_name@ == Seq::<char>::empty(),
            d.gain == 0,
            d.offset == 0,
            d.min_gain == 0,
            d.max_gain == 0,
            d.extended_metadata@ == Seq::<(String, String)>::empty(),
    {
        ImageMetaData {
            bin_x: 0,
            bin_y: 0,
            img_top: 0,
            img_left: 0,
            temperature_centi: 0,
            exposure_us: 0,
            timestamp: 0,
            camera_name: String::new(),
            gain: 0,
            offset: 0,
            min_gain: 0,
            max_gain: 0,
            extended_metadata: Vec::new(),
        }
    }
}

impl ImageMetaData {
    /// Build a full record in one step, with no extended pairs yet.
    pub fn full_builder(
        bin_x: u32,
        bin_y: u32,
        img_top: u32,
        img_left: u32,
        temperature_centi: i32,
        exposure_us: u64,
        timestamp: u64,
        camera_name: &str,
        gain: i64,
        offset: i64,
        min_gain: i32,
        max_gain: i32,
    ) -> (d: Self)
        ensures
            d.bin_x == bin_x,
            d.bin_y == bin_y,
            d.img_top == img_top,
            d.img_left == img_left,
            d.temperature_centi == temperature_centi,
            d.exposure_us == exposure_us,
            d.timestamp == timestamp,
            d.camera_name@ == camera_name@,
            d.gain == gain,
            d.offset == offset,
            d.min_gain == min_gain,
            d.max_gain == max_gain,
            d.extended_metadata@ == Seq::<(String, String)>::empty(),
    {
        ImageMetaData {
            bin_x,
            bin_y,
            img_top,
            img_left,
            temperature_centi,
            exposure_us,
            timestamp,
            camera_name: camera_name.to_owned(),
            gain,
            offset,
            min_gain,
            max_gain,
            extended_metadata: Vec::new(),
        }
    }

    /// Append one extended key/value pair.  Earlier pairs keep their
    /// place and a duplicate key does not overwrite anything.
    pub fn add_extended_attrib(&mut self, key: &str, val: &str)
        ensures
            final(self).extended_metadata@.len() == old(self).extended_metadata@.len() + 1,
            forall|i: int|
                0 <= i < old(self).extended_metadata@.len() ==> final(self).extended_metadata@[i]
                    == old(self).extended_metadata@[i],
            final(self).extended_metadata@.last().0@ == key@,
            final(self).extended_metadata@.last().1@ == val@,
            *final(self) == (ImageMetaData {
                extended_metadata: final(self).extended_metadata,
                ..*old(self)
            }),
    {
        self.extended_metadata.push((key.to_owned(), val.to_owned()));
    }
}

} // verus!
