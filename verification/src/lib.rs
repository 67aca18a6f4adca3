//! Vendor-neutral control library for scientific imaging cameras.
//!
//! The crate models a camera as a capability contract (an information
//! surface and a control surface), drives a single exposure through an
//! explicit capture state machine, validates region-of-interest and
//! binning geometry against sensor constraints, and recommends the next
//! exposure and binning factor from a pixel-percentile of the previous
//! frame.  Hardware access itself stays outside: every decision the
//! driver makes is a function from its recorded state and a reported
//! hardware event to a new state and a result, so the logic is checked
//! for every event the hardware can report.

#![allow(non_camel_case_types)]

pub mod asi;
pub mod asicamera;
pub mod camera;
pub mod errors;
pub mod gain;
pub mod image_buf;
pub mod imagedata;
pub mod metadata;
pub mod optimizer;
pub mod roi;

pub use asi::ASIImageFormat;
pub use asicamera::{ASICameraProps, CameraInfo_ASI, CameraUnit_ASI};
pub use camera::{CameraInfo, CameraUnit};
pub use errors::Error;
pub use imagedata::ImageData;
pub use metadata::ImageMetaData;
pub use roi::ROI;
