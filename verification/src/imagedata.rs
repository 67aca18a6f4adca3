//! A captured frame paired with its acquisition metadata.
//!
//! The pairing is what a capture returns and what both the exposure
//! optimizer and the persistence layer consume.  The persistence
//! interface is modeled here as the ordered list of header fields a
//! self-describing image container embeds; writing the container itself
//! is file I/O and stays outside the library.

use vstd::prelude::*;
use vstd::string::StringExecFns;
use crate::asi::ASIImageFormat;
use crate::errors::Error;
use crate::image_buf::ImageBuf;
use crate::metadata::ImageMetaData;
use crate::optimizer::{compute_next_exposure, spec_next_exposure};

verus! {

/// One value of a container header field.
#[derive(Debug, Clone)]
pub enum FitsHeaderValue {
    /// A text value.
    Text(String),
    /// An unsigned integer value.
    UInt(u64),
    /// A signed integer value.
    Int(i64),
    /// A temperature in hundredths of a degree Celsius; the writer
    /// renders it in degrees.
    TemperatureCenti(i32),
}

/// The element type a container image is written as.
#[derive(Debug, Clone, Copy, PartialEq, Eq, Structural)]
pub enum FitsImageKind {
    /// One unsigned byte per sample.
    UnsignedByte,
    /// One unsigned 16-bit word per sample.
    UnsignedShort,
}

/// A captured frame and the metadata stamped when its exposure was
/// triggered.
#[derive(Clone)]
pub struct ImageData {
    img: ImageBuf,
    meta: ImageMetaData,
}

impl ImageData {
    /// The frame.
    pub closed spec fn spec_image(&self) -> ImageBuf {
        self.img
    }

    /// The metadata.
    pub closed spec fn spec_metadata(&self) -> ImageMetaData {
        self.meta
    }

    /// Pair a frame with its metadata.
    pub fn new(img: ImageBuf, meta: ImageMetaData) -> (r: Self)
        ensures
            r.spec_image() == img,
            r.spec_metadata() == meta,
    {
        ImageData { img, meta }
    }

    /// Append one extended key/value pair to the metadata.
    pub fn add_extended_attrib(&mut self, key: &str, val: &str)
        ensures
            final(self).spec_image() == old(self).spec_image(),
            ({
                let before = old(self).spec_metadata().extended_metadata@;
                let after = final(self).spec_metadata().extended_metadata@;
                &&& after.len() == before.len() + 1
                &&& (forall|i: int| 0 <= i < before.len() ==> after[i] == before[i])
                &&& after.last().0@ == key@
                &&& after.last().1@ == val@
            }),
            final(self).spec_metadata() == (ImageMetaData {
                extended_metadata: final(self).spec_metadata().extended_metadata,
                ..old(self).spec_metadata()
            }),
    {
        self.meta.add_extended_attrib(key, val);
    }

    /// The metadata.
    pub fn get_metadata(&self) -> (r: &ImageMetaData)
        ensures
            r == &self.spec_metadata(),
    {
        &self.meta
    }

    /// Replace the metadata wholesale.
    pub fn set_metadata(&mut self, meta: ImageMetaData)
        ensures
            final(self).spec_image() == old(self).spec_image(),
            final(self).spec_metadata() == meta,
    {
        self.meta = meta;
    }

    /// The frame.
    pub fn get_image(&self) -> (r: &ImageBuf)
        ensures
            r == &self.spec_image(),
    {
        &self.img
    }

    /// Mutable access to the frame.
    pub fn get_image_mut(&mut self) -> (r: &mut ImageBuf)
        ensures
            *r == old(self).spec_image(),
            final(self).spec_image() == *final(r),
            final(self).spec_metadata() == old(self).spec_metadata(),
    {
        &mut self.img
    }

    /// Recommend the exposure and bin for the next capture from this
    /// frame's pixel distribution; see
    /// [`compute_next_exposure`](crate::optimizer::compute_next_exposure)
    /// for the algorithm.  The binning is only traded against exposure
    /// when this frame's binning was square.
    pub fn find_optimum_exposure(
        &self,
        percentile_tenths: u32,
        pixel_tgt: u16,
        max_allowed_exp_us: u64,
        max_allowed_bin: u16,
        pixel_exclusion: u32,
        pixel_uncertainty: u16,
    ) -> (r: Result<(u64, u16), String>)
        requires
            self.spec_image().wf(),
            self.spec_image().spec_width() * self.spec_image().spec_height() >= 1,
            self.spec_metadata().bin_x <= 0xffff,
        ensures
            r matches Ok(p) ==> (p.0 as int, p.1 as int) == spec_next_exposure(
                self.spec_image().luma16_view(),
                self.spec_metadata().exposure_us as int,
                self.spec_metadata().bin_x as int,
                self.spec_metadata().bin_x == self.spec_metadata().bin_y,
                percentile_tenths as int,
                pixel_tgt as int,
                max_allowed_exp_us as int,
                max_allowed_bin as int,
                pixel_exclusion as int,
                pixel_uncertainty as int,
            ),
            r is Ok,
    {
        let change_bin: bool = self.meta.bin_x == self.meta.bin_y;
        let bin: u16 = self.meta.bin_x as u16;
        let pixels = self.img.to_luma16();
        let next = compute_next_exposure(
            &pixels,
            self.meta.exposure_us,
            bin,
            change_bin,
            percentile_tenths,
            pixel_tgt,
            max_allowed_exp_us,
            max_allowed_bin,
            pixel_exclusion,
            pixel_uncertainty,
        );
        Ok(next)
    }

    /// The element type a container writer must use for this frame; an
    /// RGB frame has no single-plane representation and is refused.
    pub fn fits_image_kind(&self) -> (r: Result<FitsImageKind, Error>)
        ensures
            self.spec_image().spec_format() == ASIImageFormat::Image_RAW8 ==> r == Ok::<
                FitsImageKind,
                Error,
            >(FitsImageKind::UnsignedByte),
            self.spec_image().spec_format() == ASIImageFormat::Image_RAW16 ==> r == Ok::<
                FitsImageKind,
                Error,
            >(FitsImageKind::UnsignedShort),
            self.spec_image().spec_format() == ASIImageFormat::Image_RGB24 ==> r matches Err(
                Error::InvalidImageType(_),
            ),
    {
        match self.img.format() {
            ASIImageFormat::Image_RAW8 => Ok(FitsImageKind::UnsignedByte),
            ASIImageFormat::Image_RAW16 => Ok(FitsImageKind::UnsignedShort),
            ASIImageFormat::Image_RGB24 => Err(
                Error::InvalidImageType(String::from_str("Unsupported image type")),
            ),
        }
    }

    /// The container header fields for this frame, in the order the
    /// writer embeds them: the program name, the camera's identity and
    /// settings, then every extended pair in insertion order.
    pub fn fits_headers(&self, progname: &str) -> (r: Vec<(String, FitsHeaderValue)>)
        ensures
            r@.len() == 13 + self.spec_metadata().extended_metadata@.len(),
            r@[0].0@ == "PROGRAM"@ && (r@[0].1 matches FitsHeaderValue::Text(s) && s@
                == progname@),
            r@[1].0@ == "CAMERA"@ && (r@[1].1 matches FitsHeaderValue::Text(s) && s@ == self
                .spec_metadata().camera_name@),
            r@[2].0@ == "TIMESTAMP"@ && r@[2].1 == FitsHeaderValue::UInt(
                self.spec_metadata().timestamp,
            ),
            r@[3].0@ == "CCDTEMP"@ && r@[3].1 == FitsHeaderValue::TemperatureCenti(
                self.spec_metadata().temperature_centi,
            ),
            r@[4].0@ == "EXPOSURE_US"@ && r@[4].1 == FitsHeaderValue::UInt(
                self.spec_metadata().exposure_us,
            ),
            r@[5].0@ == "ORIGIN_X"@ && r@[5].1 == FitsHeaderValue::UInt(
                self.spec_metadata().img_left as u64,
            ),
            r@[6].0@ == "ORIGIN_Y"@ && r@[6].1 == FitsHeaderValue::UInt(
                self.spec_metadata().img_top as u64,
            ),
            r@[7].0@ == "BINX"@ && r@[7].1 == FitsHeaderValue::UInt(
                self.spec_metadata().bin_x as u64,
            ),
            r@[8].0@ == "BINY"@ && r@[8].1 == FitsHeaderValue::UInt(
                self.spec_metadata().bin_y as u64,
            ),
            r@[9].0@ == "GAIN"@ && r@[9].1 == FitsHeaderValue::Int(self.spec_metadata().gain),
            r@[10].0@ == "OFFSET"@ && r@[10].1 == FitsHeaderValue::Int(
                self.spec_metadata().offset,
            ),
            r@[11].0@ == "GAIN_MIN"@ && r@[11].1 == FitsHeaderValue::Int(
                self.spec_metadata().min_gain as i64,
            ),
            r@[12].0@ == "GAIN_MAX"@ && r@[12].1 == FitsHeaderValue::Int(
                self.spec_metadata().max_gain as i64,
            ),
            forall|i: int|
                0 <= i < self.spec_metadata().extended_metadata@.len() ==> {
                    &&& r@[13 + i].0@ == self.spec_metadata().extended_metadata@[i].0@
                    &&& (r@[13 + i].1 matches FitsHeaderValue::Text(s) && s@ == self
                        .spec_metadata().extended_metadata@[i].1@)
                },
    {
        let mut r: Vec<(String, FitsHeaderValue)> = Vec::new();
        r.push(
            (String::from_str("PROGRAM"), FitsHeaderValue::Text(progname.to_owned())),
        );
        r.push(
            (
                String::from_str("CAMERA"),
                FitsHeaderValue::Text(self.meta.camera_name.clone()),
            ),
        );
        r.push((String::from_str("TIMESTAMP"), FitsHeaderValue::UInt(self.meta.timestamp)));
        r.push(
            (
                String::from_str("CCDTEMP"),
                FitsHeaderValue::TemperatureCenti(self.meta.temperature_centi),
            ),
        );
        r.push((String::from_str("EXPOSURE_US"), FitsHeaderValue::UInt(self.meta.exposure_us)));
        r.push(
            (String::from_str("ORIGIN_X"), FitsHeaderValue::UInt(self.meta.img_left as u64)),
        );
        r.push((String::from_str("ORIGIN_Y"), FitsHeaderValue::UInt(self.meta.img_top as u64)));
        r.push((String::from_str("BINX"), FitsHeaderValue::UInt(self.meta.bin_x as u64)));
        r.push((String::from_str("BINY"), FitsHeaderValue::UInt(self.meta.bin_y as u64)));
        r.push((String::from_str("GAIN"), FitsHeaderValue::Int(self.meta.gain)));
        r.push((String::from_str("OFFSET"), FitsHeaderValue::Int(self.meta.offset)));
        r.push((String::from_str("GAIN_MIN"), FitsHeaderValue::Int(self.meta.min_gain as i64)));
        r.push((String::from_str("GAIN_MAX"), FitsHeaderValue::Int(self.meta.max_gain as i64)));
        let ghost head = r@;
        proof {
            assert(head[0].0@ == "PROGRAM"@);
            assert(head[0].1 matches FitsHeaderValue::Text(s) && s@ == progname@);
            assert(head[1].0@ == "CAMERA"@);
            assert(head[1].1 matches FitsHeaderValue::Text(s) && s@ == self.meta.camera_name@);
            assert(head[2].0@ == "TIMESTAMP"@);
            assert(head[2].1 == FitsHeaderValue::UInt(self.meta.timestamp));
            assert(head[3].0@ == "CCDTEMP"@);
            assert(head[3].1 == FitsHeaderValue::TemperatureCenti(self.meta.temperature_centi));
            assert(head[4].0@ == "EXPOSURE_US"@);
            assert(head[4].1 == FitsHeaderValue::UInt(self.meta.exposure_us));
            assert(head[5].0@ == "ORIGIN_X"@);
            assert(head[5].1 == FitsHeaderValue::UInt(self.meta.img_left as u64));
            assert(head[6].0@ == "ORIGIN_Y"@);
            assert(head[6].1 == FitsHeaderValue::UInt(self.meta.img_top as u64));
            assert(head[7].0@ == "BINX"@);
            assert(head[7].1 == FitsHeaderValue::UInt(self.meta.bin_x as u64));
            assert(head[8].0@ == "BINY"@);
            assert(head[8].1 == FitsHeaderValue::UInt(self.meta.bin_y as u64));
            assert(head[9].0@ == "GAIN"@);
            assert(head[9].1 == FitsHeaderValue::Int(self.meta.gain));
            assert(head[10].0@ == "OFFSET"@);
            assert(head[10].1 == FitsHeaderValue::Int(self.meta.offset));
            assert(head[11].0@ == "GAIN_MIN"@);
            assert(head[11].1 == FitsHeaderValue::Int(self.meta.min_gain as i64));
            assert(head[12].0@ == "GAIN_MAX"@);
            assert(head[12].1 == FitsHeaderValue::Int(self.meta.max_gain as i64));
        }
        let mut i: usize = 0;
        while i < self.meta.extended_metadata.len()
            invariant
                r@.len() == 13 + i,
                i <= self.meta.extended_metadata@.len(),
                r@.subrange(0, 13) =~= head,
                forall|j: int|
                    0 <= j < i ==> {
                        &&& r@[13 + j].0@ == self.meta.extended_metadata@[j].0@
                        &&& (r@[13 + j].1 matches FitsHeaderValue::Text(s) && s@ == self
                            .meta.extended_metadata@[j].1@)
                    },
            decreases self.meta.extended_metadata@.len() - i,
        {
            let ghost before = r@;
            let pair = &self.meta.extended_metadata[i];
            r.push((pair.0.clone(), FitsHeaderValue::Text(pair.1.clone())));
            proof {
                assert(r@.subrange(0, 13) =~= before.subrange(0, 13));
            }
            i = i + 1;
        }
        proof {
            assert(r@.subrange(0, 13) =~= head);
            assert forall|j: int| 0 <= j < 13 implies r@[j] == head[j] by {
                assert(r@.subrange(0, 13)[j] == r@[j]);
            }
            assert(r@[0].1 matches FitsHeaderValue::Text(s) && s@ == progname@);
            assert(r@[1].1 matches FitsHeaderValue::Text(s) && s@ == self.meta.camera_name@);
            assert(r@[2].1 == FitsHeaderValue::UInt(self.meta.timestamp));
            assert(r@[3].1 == FitsHeaderValue::TemperatureCenti(self.meta.temperature_centi));
        }
        r
    }
}

} // verus!
