//! Region-of-interest and binning geometry.
//!
//! A capture region is expressed in binned pixel space and must respect
//! the sensor's readout alignment: the width a multiple of 8, the height
//! a multiple of 2, and the far edges inside the binned sensor.
//! [`validate_roi`] normalizes a requested region against those
//! constraints without touching any hardware.

use vstd::prelude::*;
use vstd::string::StringExecFns;
use crate::errors::Error;

verus! {

/// A requested or normalized capture region: pixel bounds plus the
/// binning factor in each axis.
#[derive(Clone, Copy, Debug, PartialEq, Eq, Structural)]
pub struct ROI {
    pub x_min: i32,
    pub x_max: i32,
    pub y_min: i32,
    pub y_max: i32,
    pub bin_x: i32,
    pub bin_y: i32,
}

/// Division truncating toward zero, as hardware coordinate scaling does.
pub open spec fn div_trunc(a: int, b: int) -> int {
    if a >= 0 {
        a / b
    } else {
        -((-a) / b)
    }
}

/// The requested binning is square, at least one, and offered by the device.
pub open spec fn bin_accepted(req: ROI, bins: Seq<i32>) -> bool {
    &&& req.bin_x == req.bin_y
    &&& req.bin_x >= 1
    &&& bins.contains(req.bin_x)
}

/// A non-positive far edge stands for the full sensor extent.
pub open spec fn defaulted_x_max(req: ROI, sensor_width: int) -> int {
    if req.x_max <= 0 {
        sensor_width
    } else {
        req.x_max as int
    }
}

/// A non-positive far edge stands for the full sensor extent.
pub open spec fn defaulted_y_max(req: ROI, sensor_height: int) -> int {
    if req.y_max <= 0 {
        sensor_height
    } else {
        req.y_max as int
    }
}

/// The near x edge scaled into binned pixel space.
pub open spec fn norm_x_min(req: ROI) -> int {
    div_trunc(req.x_min as int, req.bin_x as int)
}

/// The near y edge scaled into binned pixel space.
pub open spec fn norm_y_min(req: ROI) -> int {
    div_trunc(req.y_min as int, req.bin_x as int)
}

/// The width in binned pixels before alignment truncation.
pub open spec fn raw_width(req: ROI, sensor_width: int) -> int {
    div_trunc(defaulted_x_max(req, sensor_width), req.bin_x as int) - norm_x_min(req)
}

/// The height in binned pixels before alignment truncation.
pub open spec fn raw_height(req: ROI, sensor_height: int) -> int {
    div_trunc(defaulted_y_max(req, sensor_height), req.bin_x as int) - norm_y_min(req)
}

/// The width truncated down to the readout alignment of 8 pixels.
pub open spec fn norm_width(req: ROI, sensor_width: int) -> int {
    raw_width(req, sensor_width) - raw_width(req, sensor_width) % 8
}

/// The height truncated down to the readout alignment of 2 rows.
pub open spec fn norm_height(req: ROI, sensor_height: int) -> int {
    raw_height(req, sensor_height) - raw_height(req, sensor_height) % 2
}

/// The normalized far edges stay inside the binned sensor.
pub open spec fn edges_in_bounds(req: ROI, sensor_width: int, sensor_height: int) -> bool {
    &&& norm_x_min(req) + norm_width(req, sensor_width) <= sensor_width / (req.bin_x as int)
    &&& norm_y_min(req) + norm_height(req, sensor_height) <= sensor_height / (req.bin_x as int)
}

/// Legacy readout engines transfer whole kilopixel blocks only.
pub open spec fn block_aligned(req: ROI, sensor_width: int, sensor_height: int) -> bool {
    (norm_width(req, sensor_width) * norm_height(req, sensor_height)) % 1024 == 0
}

/// Everything [`validate_roi`] checks, in one predicate: the request is
/// accepted exactly when this holds.
pub open spec fn roi_accepted(
    req: ROI,
    sensor_width: int,
    sensor_height: int,
    bins: Seq<i32>,
    legacy_sensor: bool,
) -> bool {
    &&& bin_accepted(req, bins)
    &&& raw_width(req, sensor_width) >= 0
    &&& raw_height(req, sensor_height) >= 0
    &&& edges_in_bounds(req, sensor_width, sensor_height)
    &&& (legacy_sensor ==> block_aligned(req, sensor_width, sensor_height))
}

/// The region a successful validation returns.
pub open spec fn normalized_roi(req: ROI, sensor_width: int, sensor_height: int) -> ROI {
    ROI {
        x_min: norm_x_min(req) as i32,
        x_max: (norm_x_min(req) + norm_width(req, sensor_width)) as i32,
        y_min: norm_y_min(req) as i32,
        y_max: (norm_y_min(req) + norm_height(req, sensor_height)) as i32,
        bin_x: req.bin_x,
        bin_y: req.bin_x,
    }
}

/// Division truncating toward zero for device coordinates.
fn div_trunc_i32(a: i32, b: i32) -> (r: i32)
    requires
        1 <= b,
    ensures
        r as int == div_trunc(a as int, b as int),
        a >= 0 ==> 0 <= r <= a,
        a < 0 ==> a <= r <= 0,
{
    if a >= 0 {
        let q: u32 = (a as u32) / (b as u32);
        proof {
            vstd::arithmetic::div_mod::lemma_div_is_ordered_by_denominator(a as int, 1, b as int);
        }
        q as i32
    } else {
        let na: u64 = (-(a as i64)) as u64;
        let q: u64 = na / (b as u64);
        proof {
            vstd::arithmetic::div_mod::lemma_div_is_ordered_by_denominator(na as int, 1, b as int);
        }
        -(q as i64) as i32
    }
}

/// Whether the device's supported-bin list offers this factor.
fn bins_contain(bins: &Vec<i32>, x: i32) -> (r: bool)
    ensures
        r == bins@.contains(x),
{
    let mut i: usize = 0;
    while i < bins.len()
        invariant
            i <= bins@.len(),
            forall|j: int| 0 <= j < i ==> bins@[j] != x,
        decreases bins@.len() - i,
    {
        if bins[i] == x {
            assert(bins@[i as int] == x);
            return true;
        }
        i = i + 1;
    }
    false
}

/// Validate and normalize a requested capture region against the sensor.
///
/// The request is checked before any hardware interaction: the binning
/// must be square, at least one and supported; a non-positive far edge
/// defaults to the full sensor extent; all coordinates are scaled into
/// binned pixel space; the width is truncated down to a multiple of 8
/// and the height to a multiple of 2; the resulting edges must stay
/// inside the binned sensor; and a legacy sensor additionally requires
/// the pixel count to be a whole number of kilopixel blocks.
///
/// On success the returned region carries the requested binning, a width
/// divisible by 8 and a height divisible by 2.
pub fn validate_roi(
    req: &ROI,
    sensor_width: u32,
    sensor_height: u32,
    supported_bins: &Vec<i32>,
    legacy_sensor: bool,
) -> (r: Result<ROI, Error>)
    requires
        sensor_width <= 0x7fff_ffff,
        sensor_height <= 0x7fff_ffff,
    ensures
        r is Ok <==> roi_accepted(
            *req,
            sensor_width as int,
            sensor_height as int,
            supported_bins@,
            legacy_sensor,
        ),
        r matches Ok(n) ==> {
            &&& n == normalized_roi(*req, sensor_width as int, sensor_height as int)
            &&& (n.x_max - n.x_min) % 8 == 0
            &&& (n.y_max - n.y_min) % 2 == 0
            &&& n.bin_x == req.bin_x
            &&& n.bin_y == req.bin_x
        },
        req.bin_x != req.bin_y ==> r matches Err(Error::InvalidValue(_)),
        req.bin_x == req.bin_y && req.bin_x < 1 ==> r matches Err(Error::InvalidValue(_)),
        req.bin_x == req.bin_y && req.bin_x >= 1 && !supported_bins@.contains(req.bin_x)
            ==> r matches Err(Error::InvalidValue(_)),
        bin_accepted(*req, supported_bins@)
            && (raw_width(*req, sensor_width as int) < 0
                || raw_height(*req, sensor_height as int) < 0)
            ==> r matches Err(Error::InvalidValue(_)),
        bin_accepted(*req, supported_bins@)
            && raw_width(*req, sensor_width as int) >= 0
            && raw_height(*req, sensor_height as int) >= 0
            && !edges_in_bounds(*req, sensor_width as int, sensor_height as int)
            ==> r matches Err(Error::OutOfBounds(_)),
        bin_accepted(*req, supported_bins@)
            && raw_width(*req, sensor_width as int) >= 0
            && raw_height(*req, sensor_height as int) >= 0
            && edges_in_bounds(*req, sensor_width as int, sensor_height as int)
            && legacy_sensor
            && !block_aligned(*req, sensor_width as int, sensor_height as int)
            ==> r matches Err(Error::InvalidValue(_)),
{
    if req.bin_x != req.bin_y {
        return Err(Error::InvalidValue(String::from_str("Bin X and Bin Y must be equal")));
    }
    if req.bin_x < 1 {
        return Err(Error::InvalidValue(String::from_str("Bin is below minimum of 1")));
    }
    if !bins_contain(supported_bins, req.bin_x) {
        return Err(Error::InvalidValue(String::from_str("Bin is not supported by camera")));
    }
    let bin: i32 = req.bin_x;

    let x_max_full: i32 = if req.x_max <= 0 { sensor_width as i32 } else { req.x_max };
    let y_max_full: i32 = if req.y_max <= 0 { sensor_height as i32 } else { req.y_max };

    let x_min_n: i32 = div_trunc_i32(req.x_min, bin);
    let y_min_n: i32 = div_trunc_i32(req.y_min, bin);
    let x_max_n: i32 = div_trunc_i32(x_max_full, bin);
    let y_max_n: i32 = div_trunc_i32(y_max_full, bin);

    let width_raw: i64 = x_max_n as i64 - x_min_n as i64;
    let height_raw: i64 = y_max_n as i64 - y_min_n as i64;
    if width_raw < 0 || height_raw < 0 {
        return Err(Error::InvalidValue(String::from_str(
            "ROI width and height must be positive",
        )));
    }

    let width: i64 = width_raw - ((width_raw as u64) % 8) as i64;
    let height: i64 = height_raw - ((height_raw as u64) % 2) as i64;

    let x_max_out: i64 = x_min_n as i64 + width;
    let y_max_out: i64 = y_min_n as i64 + height;

    let bound_x: i64 = ((sensor_width as u32) / (bin as u32)) as i64;
    let bound_y: i64 = ((sensor_height as u32) / (bin as u32)) as i64;
    if x_max_out > bound_x {
        return Err(Error::OutOfBounds(String::from_str(
            "ROI x_max is greater than max width",
        )));
    }
    if y_max_out > bound_y {
        return Err(Error::OutOfBounds(String::from_str(
            "ROI y_max is greater than max height",
        )));
    }

    if legacy_sensor {
        proof {
            assert(0 <= width * height <= 0xffff_ffff_i64 * 0xffff_ffff_i64)
                by (nonlinear_arith)
                requires
                    0 <= width <= 0xffff_ffff_i64,
                    0 <= height <= 0xffff_ffff_i64,
            ;
        }
        let pixels: i128 = width as i128 * height as i128;
        if ((pixels as u128) % 1024) != 0 {
            return Err(Error::InvalidValue(String::from_str(
                "Legacy sensors require the pixel count to be a multiple of 1024",
            )));
        }
    }

    Ok(ROI {
        x_min: x_min_n,
        x_max: x_max_out as i32,
        y_min: y_min_n,
        y_max: y_max_out as i32,
        bin_x: bin,
        bin_y: bin,
    })
}

} // verus!
