//! Device-reported enumerations and control capabilities.
//!
//! The vendor SDK reports exposure status, control identifiers, Bayer
//! patterns and pixel formats as raw integers.  Each decoder here maps a
//! reported integer to the library's enumeration, and rejects or drops
//! values the library does not recognize instead of aborting.

use vstd::prelude::*;
use vstd::string::StringExecFns;
use crate::errors::Error;

verus! {

pub const ASI_EXP_IDLE: u32 = 0;
pub const ASI_EXP_WORKING: u32 = 1;
pub const ASI_EXP_SUCCESS: u32 = 2;
pub const ASI_EXP_FAILED: u32 = 3;

/// The four exposure states the hardware can report.
#[derive(Clone, Copy, Debug, PartialEq, Eq, Structural)]
pub enum ASIExposureStatus {
    Idle,
    Working,
    Success,
    Failed,
}

impl ASIExposureStatus {
    /// Decode a device-reported exposure status; an unknown value is a
    /// recoverable mode error, not an abort.
    pub fn from_u32(val: u32) -> (r: Result<ASIExposureStatus, Error>)
        ensures
            val == ASI_EXP_IDLE ==> r == Ok::<ASIExposureStatus, Error>(ASIExposureStatus::Idle),
            val == ASI_EXP_WORKING ==> r == Ok::<ASIExposureStatus, Error>(
                ASIExposureStatus::Working,
            ),
            val == ASI_EXP_SUCCESS ==> r == Ok::<ASIExposureStatus, Error>(
                ASIExposureStatus::Success,
            ),
            val == ASI_EXP_FAILED ==> r == Ok::<ASIExposureStatus, Error>(
                ASIExposureStatus::Failed,
            ),
            val > ASI_EXP_FAILED ==> r matches Err(Error::InvalidMode(_)),
    {
        if val == ASI_EXP_IDLE {
            Ok(ASIExposureStatus::Idle)
        } else if val == ASI_EXP_WORKING {
            Ok(ASIExposureStatus::Working)
        } else if val == ASI_EXP_SUCCESS {
            Ok(ASIExposureStatus::Success)
        } else if val == ASI_EXP_FAILED {
            Ok(ASIExposureStatus::Failed)
        } else {
            Err(Error::InvalidMode(String::from_str("Invalid exposure status")))
        }
    }
}

/// Control identifiers the SDK exposes, in the SDK's numbering.
#[derive(Clone, Copy, Debug, PartialEq, Eq, Structural)]
pub enum ASIControlType {
    Gain,
    Exposure,
    Gamma,
    WhiteBal_R,
    WhiteBal_B,
    Offset,
    BWOvld,
    Overclock,
    Temperature,
    Flip,
    AutoExpMaxGain,
    AutoExpMaxExp,
    AutoExpTgtBrightness,
    HWBin,
    HighSpeedMode,
    CoolerPowerPercent,
    TargetTemp,
    CoolerOn,
    MonoBin,
    FanOn,
    PatternAdjust,
    AntiDewHeater,
}

/// The SDK integer that names each control.
pub open spec fn control_type_code(t: ASIControlType) -> u32 {
    match t {
        ASIControlType::Gain => 0,
        ASIControlType::Exposure => 1,
        ASIControlType::Gamma => 2,
        ASIControlType::WhiteBal_R => 3,
        ASIControlType::WhiteBal_B => 4,
        ASIControlType::Offset => 5,
        ASIControlType::BWOvld => 6,
        ASIControlType::Overclock => 7,
        ASIControlType::Temperature => 8,
        ASIControlType::Flip => 9,
        ASIControlType::AutoExpMaxGain => 10,
        ASIControlType::AutoExpMaxExp => 11,
        ASIControlType::AutoExpTgtBrightness => 12,
        ASIControlType::HWBin => 13,
        ASIControlType::HighSpeedMode => 14,
        ASIControlType::CoolerPowerPercent => 15,
        ASIControlType::TargetTemp => 16,
        ASIControlType::CoolerOn => 17,
        ASIControlType::MonoBin => 18,
        ASIControlType::FanOn => 19,
        ASIControlType::PatternAdjust => 20,
        ASIControlType::AntiDewHeater => 21,
    }
}

impl ASIControlType {
    /// Decode a device-reported control identifier; unknown identifiers
    /// are dropped rather than guessed at.
    pub fn from_u32(val: u32) -> (r: Option<ASIControlType>)
        ensures
            r matches Some(t) ==> control_type_code(t) == val,
            r is None <==> val > 21,
    {
        if val == 0 {
            Some(ASIControlType::Gain)
        } else if val == 1 {
            Some(ASIControlType::Exposure)
        } else if val == 2 {
            Some(ASIControlType::Gamma)
        } else if val == 3 {
            Some(ASIControlType::WhiteBal_R)
        } else if val == 4 {
            Some(ASIControlType::WhiteBal_B)
        } else if val == 5 {
            Some(ASIControlType::Offset)
        } else if val == 6 {
            Some(ASIControlType::BWOvld)
        } else if val == 7 {
            Some(ASIControlType::Overclock)
        } else if val == 8 {
            Some(ASIControlType::Temperature)
        } else if val == 9 {
            Some(ASIControlType::Flip)
        } else if val == 10 {
            Some(ASIControlType::AutoExpMaxGain)
        } else if val == 11 {
            Some(ASIControlType::AutoExpMaxExp)
        } else if val == 12 {
            Some(ASIControlType::AutoExpTgtBrightness)
        } else if val == 13 {
            Some(ASIControlType::HWBin)
        } else if val == 14 {
            Some(ASIControlType::HighSpeedMode)
        } else if val == 15 {
            Some(ASIControlType::CoolerPowerPercent)
        } else if val == 16 {
            Some(ASIControlType::TargetTemp)
        } else if val == 17 {
            Some(ASIControlType::CoolerOn)
        } else if val == 18 {
            Some(ASIControlType::MonoBin)
        } else if val == 19 {
            Some(ASIControlType::FanOn)
        } else if val == 20 {
            Some(ASIControlType::PatternAdjust)
        } else if val == 21 {
            Some(ASIControlType::AntiDewHeater)
        } else {
            None
        }
    }

    /// The SDK integer for this control, for handing to the device.
    pub fn code(&self) -> (r: u32)
        ensures
            r == control_type_code(*self),
    {
        match self {
            ASIControlType::Gain => 0,
            ASIControlType::Exposure => 1,
            ASIControlType::Gamma => 2,
            ASIControlType::WhiteBal_R => 3,
            ASIControlType::WhiteBal_B => 4,
            ASIControlType::Offset => 5,
            ASIControlType::BWOvld => 6,
            ASIControlType::Overclock => 7,
            ASIControlType::Temperature => 8,
            ASIControlType::Flip => 9,
            ASIControlType::AutoExpMaxGain => 10,
            ASIControlType::AutoExpMaxExp => 11,
            ASIControlType::AutoExpTgtBrightness => 12,
            ASIControlType::HWBin => 13,
            ASIControlType::HighSpeedMode => 14,
            ASIControlType::CoolerPowerPercent => 15,
            ASIControlType::TargetTemp => 16,
            ASIControlType::CoolerOn => 17,
            ASIControlType::MonoBin => 18,
            ASIControlType::FanOn => 19,
            ASIControlType::PatternAdjust => 20,
            ASIControlType::AntiDewHeater => 21,
        }
    }
}

/// Bayer mosaic layouts a color sensor can report.
#[derive(Clone, Copy, Debug, PartialEq, Eq, Structural)]
pub enum ASIBayerPattern {
    Bayer_RG,
    Bayer_BG,
    Bayer_GR,
    Bayer_GB,
}

impl ASIBayerPattern {
    /// Decode a device-reported Bayer pattern.
    pub fn from_u32(val: u32) -> (r: Option<ASIBayerPattern>)
        ensures
            val == 0 ==> r == Some(ASIBayerPattern::Bayer_RG),
            val == 1 ==> r == Some(ASIBayerPattern::Bayer_BG),
            val == 2 ==> r == Some(ASIBayerPattern::Bayer_GR),
            val == 3 ==> r == Some(ASIBayerPattern::Bayer_GB),
            val > 3 ==> r is None,
    {
        if val == 0 {
            Some(ASIBayerPattern::Bayer_RG)
        } else if val == 1 {
            Some(ASIBayerPattern::Bayer_BG)
        } else if val == 2 {
            Some(ASIBayerPattern::Bayer_GR)
        } else if val == 3 {
            Some(ASIBayerPattern::Bayer_GB)
        } else {
            None
        }
    }
}

/// Pixel formats the library captures: 8-bit mono, 16-bit mono and
/// interleaved 8-bit RGB.
#[derive(Clone, Copy, Debug, PartialEq, Eq, Structural)]
pub enum ASIImageFormat {
    Image_RAW8,
    Image_RGB24,
    Image_RAW16,
}

impl ASIImageFormat {
    /// Decode a device-reported pixel format; formats the library does
    /// not capture are dropped.
    pub fn from_u32(val: u32) -> (r: Option<ASIImageFormat>)
        ensures
            val == 0 ==> r == Some(ASIImageFormat::Image_RAW8),
            val == 1 ==> r == Some(ASIImageFormat::Image_RGB24),
            val == 2 ==> r == Some(ASIImageFormat::Image_RAW16),
            val > 2 ==> r is None,
    {
        if val == 0 {
            Some(ASIImageFormat::Image_RAW8)
        } else if val == 1 {
            Some(ASIImageFormat::Image_RGB24)
        } else if val == 2 {
            Some(ASIImageFormat::Image_RAW16)
        } else {
            None
        }
    }

    /// Bytes each pixel occupies in a raw readout of this format.
    pub fn bytes_per_pixel(&self) -> (r: u64)
        ensures
            r == spec_bytes_per_pixel(*self),
    {
        match self {
            ASIImageFormat::Image_RAW8 => 1,
            ASIImageFormat::Image_RGB24 => 3,
            ASIImageFormat::Image_RAW16 => 2,
        }
    }
}

/// Bytes each pixel occupies in a raw readout of this format.
pub open spec fn spec_bytes_per_pixel(fmt: ASIImageFormat) -> u64 {
    match fmt {
        ASIImageFormat::Image_RAW8 => 1,
        ASIImageFormat::Image_RGB24 => 3,
        ASIImageFormat::Image_RAW16 => 2,
    }
}

/// One control's capability record as the device reports it.
#[derive(Clone)]
pub struct ASIControlCaps {
    pub id: ASIControlType,
    pub name: [u8; 64],
    pub description: [u8; 128],
    pub min_value: i64,
    pub max_value: i64,
    pub default_value: i64,
    pub is_auto_supported: bool,
    pub is_writable: bool,
}

impl Default for ASIControlCaps {
    /// An empty, read-only capability record.
    fn default() -> (d: Self)
        ensures
            d.id == ASIControlType::Gain,
            d.min_value == 0,
            d.max_value == 0,
            d.default_value == 0,
            !d.is_auto_supported,
            !d.is_writable,
    {
        ASIControlCaps {
            id: ASIControlType::Gain,
            name: [0u8; 64],
            description: [0u8; 128],
            min_value: 0,
            max_value: 0,
            default_value: 0,
            is_auto_supported: false,
            is_writable: false,
        }
    }
}

/// The bounds of the first capability record for `id`, if the device
/// reports one.
pub open spec fn spec_controlcap_minmax(
    caps: Seq<ASIControlCaps>,
    id: ASIControlType,
) -> Option<(i64, i64)>
    decreases caps.len(),
{
    if caps.len() == 0 {
        None
    } else if caps[0].id == id {
        Some((caps[0].min_value, caps[0].max_value))
    } else {
        spec_controlcap_minmax(caps.drop_first(), id)
    }
}

proof fn lemma_controlcap_minmax_step(caps: Seq<ASIControlCaps>, id: ASIControlType, i: int)
    requires
        0 <= i < caps.len(),
        caps[i].id != id,
    ensures
        spec_controlcap_minmax(caps.skip(i), id) == spec_controlcap_minmax(caps.skip(i + 1), id),
{
    assert(caps.skip(i).len() > 0);
    assert(caps.skip(i)[0] == caps[i]);
    assert(caps.skip(i).drop_first() =~= caps.skip(i + 1));
}

/// Find the reported bounds of a control, taking the first record whose
/// identifier matches.
pub fn get_controlcap_minmax(caps: &Vec<ASIControlCaps>, id: ASIControlType) -> (r: Option<
    (i64, i64),
>)
    ensures
        r == spec_controlcap_minmax(caps@, id),
{
    let mut i: usize = 0;
    proof {
        assert(caps@.skip(0) =~= caps@);
    }
    while i < caps.len()
        invariant
            i <= caps@.len(),
            spec_controlcap_minmax(caps@.skip(i as int), id) == spec_controlcap_minmax(caps@, id),
        decreases caps@.len() - i,
    {
        if caps[i].id == id {
            proof {
                assert(caps@.skip(i as int)[0] == caps@[i as int]);
            }
            return Some((caps[i].min_value, caps[i].max_value));
        }
        proof {
            lemma_controlcap_minmax_step(caps@, id, i as int);
        }
        i = i + 1;
    }
    proof {
        assert(caps@.skip(i as int).len() == 0);
    }
    None
}

/// The device's gain bounds, or `(0, 0)` when it reports none.
pub fn get_gain_minmax(caps: &Vec<ASIControlCaps>) -> (r: (i64, i64))
    ensures
        spec_controlcap_minmax(caps@, ASIControlType::Gain) matches Some(b) ==> r == b,
        spec_controlcap_minmax(caps@, ASIControlType::Gain) is None ==> r == (0i64, 0i64),
{
    let minmax = get_controlcap_minmax(caps, ASIControlType::Gain);
    match minmax {
        Some(b) => b,
        None => (0, 0),
    }
}

/// The device's exposure bounds in microseconds, or one millisecond to
/// two hundred seconds when it reports none.
pub fn get_exposure_minmax(caps: &Vec<ASIControlCaps>) -> (r: (u64, u64))
    ensures
        spec_controlcap_minmax(caps@, ASIControlType::Exposure) matches Some(b) ==> r == (
            b.0 as u64,
            b.1 as u64,
        ),
        spec_controlcap_minmax(caps@, ASIControlType::Exposure) is None ==> r == (
            1000u64,
            200_000_000u64,
        ),
{
    let minmax = get_controlcap_minmax(caps, ASIControlType::Exposure);
    match minmax {
        Some((lo, hi)) => (lo as u64, hi as u64),
        None => (1000, 200_000_000),
    }
}

} // verus!
