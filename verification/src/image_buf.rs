//! Decoded pixel buffers.
//!
//! A frame is one of three layouts: 8-bit mono, 16-bit mono, or
//! interleaved 8-bit RGB, always paired with its dimensions and sized
//! exactly `width * height * bytes-per-pixel`.  The exposure optimizer
//! reads every frame through its 16-bit mono interpretation, which the
//! `image` crate computes for the layouts that need conversion.

use vstd::prelude::*;
use crate::asi::{spec_bytes_per_pixel, ASIImageFormat};
use crate::errors::Error;

verus! {

/// The samples of a frame in one of the supported layouts.
#[derive(Clone)]
pub enum PixelData {
    /// One byte per pixel.
    Mono8(Vec<u8>),
    /// One 16-bit sample per pixel.
    Mono16(Vec<u16>),
    /// Three bytes per pixel, interleaved red, green, blue.
    Rgb24(Vec<u8>),
}

/// The 16-bit mono interpretation of 8-bit mono samples: each sample is
/// spread over the full 16-bit range.
pub open spec fn mono8_as_luma16(data: Seq<u8>) -> Seq<u16> {
    Seq::new(data.len(), |i: int| (data[i] * 257) as u16)
}

/// 16-bit samples read from little-endian byte pairs.
pub open spec fn decoded_mono16(bytes: Seq<u8>) -> Seq<u16> {
    Seq::new(bytes.len() / 2, |i: int| (bytes[2 * i] + 256 * bytes[2 * i + 1]) as u16)
}

/// The 16-bit mono interpretation of an interleaved RGB frame, as the
/// `image` crate's color-space conversion computes it.  It depends on
/// the samples alone.
pub uninterp spec fn rgb_luma16_of(data: Seq<u8>) -> Seq<u16>;

/// A frame's pixel count fits in 64 bits.
proof fn lemma_dims_bound(w: int, h: int)
    by (nonlinear_arith)
    requires
        0 <= w < 0x1_0000_0000,
        0 <= h < 0x1_0000_0000,
    ensures
        0 <= w * h < 0x1_0000_0000_0000_0000,
{
}

/// Relies on `image::DynamicImage::to_luma16` on an 8-bit grayscale
/// image: the layouts match, so each sample `v` is converted on its own
/// to `v * 257`, and the dimensions are kept.
#[verifier::external_body]
fn luma8_to_luma16(width: u32, height: u32, data: &Vec<u8>) -> (r: Vec<u16>)
    requires
        data@.len() == width * height,
    ensures
        r@ == mono8_as_luma16(data@),
{
    let buf = image::GrayImage::from_raw(width, height, data.clone()).unwrap();
    image::DynamicImage::from(buf).to_luma16().into_raw()
}

/// Relies on `image::DynamicImage::to_luma16` on an 8-bit RGB image: the
/// result is a function of the samples alone, one 16-bit luma value per
/// pixel, with the dimensions kept.
#[verifier::external_body]
fn rgb24_to_luma16(width: u32, height: u32, data: &Vec<u8>) -> (r: Vec<u16>)
    requires
        data@.len() == 3 * (width * height),
    ensures
        r@ == rgb_luma16_of(data@),
        r@.len() == width * height,
{
    let buf = image::RgbImage::from_raw(width, height, data.clone()).unwrap();
    image::DynamicImage::from(buf).to_luma16().into_raw()
}

/// Read 16-bit samples out of a little-endian byte stream.
fn decode_mono16_le(bytes: &Vec<u8>) -> (r: Vec<u16>)
    requires
        bytes@.len() % 2 == 0,
    ensures
        r@ == decoded_mono16(bytes@),
{
    let mut r: Vec<u16> = Vec::new();
    let n: usize = bytes.len() / 2;
    let mut i: usize = 0;
    while i < n
        invariant
            i <= n,
            n == bytes@.len() / 2,
            bytes@.len() % 2 == 0,
            bytes@.len() <= usize::MAX,
            r@.len() == i,
            forall|j: int| 0 <= j < i ==> r@[j] == (bytes@[2 * j] + 256 * bytes@[2 * j + 1]) as u16,
        decreases n - i,
    {
        let lo: u16 = bytes[2 * i] as u16;
        let hi: u16 = bytes[2 * i + 1] as u16;
        r.push(lo + 256 * hi);
        i = i + 1;
    }
    proof {
        assert(r@ =~= decoded_mono16(bytes@));
    }
    r
}

/// A decoded frame: dimensions plus samples in one of the supported
/// layouts, sized exactly to the dimensions.
#[derive(Clone)]
pub struct ImageBuf {
    width: u32,
    height: u32,
    data: PixelData,
}

impl ImageBuf {
    /// The frame's width in pixels.
    pub closed spec fn spec_width(&self) -> u32 {
        self.width
    }

    /// The frame's height in pixels.
    pub closed spec fn spec_height(&self) -> u32 {
        self.height
    }

    /// The pixel format the samples are laid out in.
    pub closed spec fn spec_format(&self) -> ASIImageFormat {
        match self.data {
            PixelData::Mono8(_) => ASIImageFormat::Image_RAW8,
            PixelData::Mono16(_) => ASIImageFormat::Image_RAW16,
            PixelData::Rgb24(_) => ASIImageFormat::Image_RGB24,
        }
    }

    /// The samples hold exactly one frame of the stated dimensions.
    pub closed spec fn wf(&self) -> bool {
        match self.data {
            PixelData::Mono8(d) => d@.len() == self.width * self.height,
            PixelData::Mono16(d) => d@.len() == self.width * self.height,
            PixelData::Rgb24(d) => d@.len() == 3 * (self.width * self.height),
        }
    }

    /// The frame's 16-bit mono interpretation.
    pub closed spec fn luma16_view(&self) -> Seq<u16> {
        match self.data {
            PixelData::Mono8(d) => mono8_as_luma16(d@),
            PixelData::Mono16(d) => d@,
            PixelData::Rgb24(d) => rgb_luma16_of(d@),
        }
    }

    /// Wrap an 8-bit mono frame; the samples must fill the dimensions
    /// exactly.
    pub fn from_mono8(width: u32, height: u32, data: Vec<u8>) -> (r: Result<ImageBuf, Error>)
        ensures
            r is Ok <==> data@.len() == width * height,
            r matches Ok(img) ==> {
                &&& img.wf()
                &&& img.spec_width() == width
                &&& img.spec_height() == height
                &&& img.spec_format() == ASIImageFormat::Image_RAW8
                &&& img.luma16_view() == mono8_as_luma16(data@)
            },
            r is Err ==> (r matches Err(Error::InvalidSize(s)) && s == data@.len()),
    {
        proof {
            lemma_dims_bound(width as int, height as int);
        }
        if data.len() as u128 == (width as u128) * (height as u128) {
            Ok(ImageBuf { width, height, data: PixelData::Mono8(data) })
        } else {
            Err(Error::InvalidSize(data.len()))
        }
    }

    /// Wrap a 16-bit mono frame; the samples must fill the dimensions
    /// exactly.
    pub fn from_mono16(width: u32, height: u32, data: Vec<u16>) -> (r: Result<ImageBuf, Error>)
        ensures
            r is Ok <==> data@.len() == width * height,
            r matches Ok(img) ==> {
                &&& img.wf()
                &&& img.spec_width() == width
                &&& img.spec_height() == height
                &&& img.spec_format() == ASIImageFormat::Image_RAW16
                &&& img.luma16_view() == data@
            },
            r is Err ==> (r matches Err(Error::InvalidSize(s)) && s == data@.len()),
    {
        proof {
            lemma_dims_bound(width as int, height as int);
        }
        if data.len() as u128 == (width as u128) * (height as u128) {
            Ok(ImageBuf { width, height, data: PixelData::Mono16(data) })
        } else {
            Err(Error::InvalidSize(data.len()))
        }
    }

    /// Wrap an interleaved RGB frame; the samples must fill the
    /// dimensions exactly, three bytes per pixel.
    pub fn from_rgb24(width: u32, height: u32, data: Vec<u8>) -> (r: Result<ImageBuf, Error>)
        ensures
            r is Ok <==> data@.len() == 3 * (width * height),
            r matches Ok(img) ==> {
                &&& img.wf()
                &&& img.spec_width() == width
                &&& img.spec_height() == height
                &&& img.spec_format() == ASIImageFormat::Image_RGB24
                &&& img.luma16_view() == rgb_luma16_of(data@)
            },
            r is Err ==> (r matches Err(Error::InvalidSize(s)) && s == data@.len()),
    {
        proof {
            lemma_dims_bound(width as int, height as int);
        }
        if data.len() as u128 == 3 * ((width as u128) * (height as u128)) {
            Ok(ImageBuf { width, height, data: PixelData::Rgb24(data) })
        } else {
            Err(Error::InvalidSize(data.len()))
        }
    }

    /// Decode the raw bytes of one hardware readout into a frame.  The
    /// buffer must hold exactly `width * height` pixels of the given
    /// format; 16-bit samples arrive little-endian.
    pub fn from_raw_frame(fmt: ASIImageFormat, width: u32, height: u32, bytes: Vec<u8>) -> (r:
        Result<ImageBuf, Error>)
        ensures
            r is Ok <==> bytes@.len() == spec_bytes_per_pixel(fmt) * (width * height),
            r matches Ok(img) ==> {
                &&& img.wf()
                &&& img.spec_width() == width
                &&& img.spec_height() == height
                &&& img.spec_format() == fmt
                &&& (fmt == ASIImageFormat::Image_RAW8 ==> img.luma16_view() == mono8_as_luma16(
                    bytes@,
                ))
                &&& (fmt == ASIImageFormat::Image_RAW16 ==> img.luma16_view() == decoded_mono16(
                    bytes@,
                ))
                &&& (fmt == ASIImageFormat::Image_RGB24 ==> img.luma16_view() == rgb_luma16_of(
                    bytes@,
                ))
            },
            r is Err ==> (r matches Err(Error::InvalidSize(s)) && s == bytes@.len()),
    {
        match fmt {
            ASIImageFormat::Image_RAW8 => {
                proof {
                    assert(spec_bytes_per_pixel(fmt) == 1);
                }
                ImageBuf::from_mono8(width, height, bytes)
            },
            ASIImageFormat::Image_RAW16 => {
                proof {
                    lemma_dims_bound(width as int, height as int);
                }
                if bytes.len() as u128 == 2 * ((width as u128) * (height as u128)) {
                    let data = decode_mono16_le(&bytes);
                    proof {
                        assert(decoded_mono16(bytes@).len() == width * height);
                    }
                    Ok(ImageBuf { width, height, data: PixelData::Mono16(data) })
                } else {
                    Err(Error::InvalidSize(bytes.len()))
                }
            },
            ASIImageFormat::Image_RGB24 => ImageBuf::from_rgb24(width, height, bytes),
        }
    }

    /// The frame's width in pixels.
    pub fn width(&self) -> (r: u32)
        ensures
            r == self.spec_width(),
    {
        self.width
    }

    /// The frame's height in pixels.
    pub fn height(&self) -> (r: u32)
        ensures
            r == self.spec_height(),
    {
        self.height
    }

    /// The pixel format the samples are laid out in.
    pub fn format(&self) -> (r: ASIImageFormat)
        ensures
            r == self.spec_format(),
    {
        match self.data {
            PixelData::Mono8(_) => ASIImageFormat::Image_RAW8,
            PixelData::Mono16(_) => ASIImageFormat::Image_RAW16,
            PixelData::Rgb24(_) => ASIImageFormat::Image_RGB24,
        }
    }

    /// Read access to the samples.
    pub fn pixels(&self) -> (r: &PixelData)
        ensures
            r == &self.view_pixels(),
    {
        &self.data
    }

    /// The samples as stored.
    pub closed spec fn view_pixels(&self) -> PixelData {
        self.data
    }

    /// The frame in its 16-bit mono interpretation, one value per
    /// pixel.
    pub fn to_luma16(&self) -> (r: Vec<u16>)
        requires
            self.wf(),
        ensures
            r@ == self.luma16_view(),
            r@.len() == self.spec_width() * self.spec_height(),
    {
        match &self.data {
            PixelData::Mono8(d) => luma8_to_luma16(self.width, self.height, d),
            PixelData::Mono16(d) => {
                let r = d.clone();
                proof {
                    assert(r@ =~= d@);
                }
                r
            },
            PixelData::Rgb24(d) => rgb24_to_luma16(self.width, self.height, d),
        }
    }
}

} // verus!
