//! Error taxonomy shared by every camera operation.
//!
//! Validation failures are detected before any hardware interaction,
//! concurrency conflicts report a capture in progress, and hardware or
//! transport faults are surfaced verbatim as values, never as aborts.

use vstd::prelude::*;
use vstd::string::StringExecFns;

verus! {

/// The character of one decimal digit.
pub open spec fn digit_char(d: int) -> char {
    if d == 0 {
        '0'
    } else if d == 1 {
        '1'
    } else if d == 2 {
        '2'
    } else if d == 3 {
        '3'
    } else if d == 4 {
        '4'
    } else if d == 5 {
        '5'
    } else if d == 6 {
        '6'
    } else if d == 7 {
        '7'
    } else if d == 8 {
        '8'
    } else {
        '9'
    }
}

/// The decimal rendering of a non-negative number, most significant
/// digit first.
pub open spec fn spec_decimal(n: int) -> Seq<char>
    decreases n,
{
    if n < 10 {
        seq![digit_char(n)]
    } else {
        spec_decimal(n / 10).push(digit_char(n % 10))
    }
}

/// The decimal rendering of a signed number: a minus sign before the
/// digits when it is negative.
pub open spec fn spec_decimal_signed(n: int) -> Seq<char> {
    if n < 0 {
        seq!['-'] + spec_decimal(-n)
    } else {
        spec_decimal(n)
    }
}

/// Append one decimal digit to a string.
fn push_digit(s: &mut String, d: u8)
    requires
        d < 10,
    ensures
        final(s)@ == old(s)@.push(digit_char(d as int)),
{
    proof {
        reveal_strlit("0");
        reveal_strlit("1");
        reveal_strlit("2");
        reveal_strlit("3");
        reveal_strlit("4");
        reveal_strlit("5");
        reveal_strlit("6");
        reveal_strlit("7");
        reveal_strlit("8");
        reveal_strlit("9");
    }
    let ghost before = s@;
    if d == 0 {
        s.append("0");
    } else if d == 1 {
        s.append("1");
    } else if d == 2 {
        s.append("2");
    } else if d == 3 {
        s.append("3");
    } else if d == 4 {
        s.append("4");
    } else if d == 5 {
        s.append("5");
    } else if d == 6 {
        s.append("6");
    } else if d == 7 {
        s.append("7");
    } else if d == 8 {
        s.append("8");
    } else {
        s.append("9");
    }
    proof {
        assert(s@ =~= before.push(digit_char(d as int)));
    }
}

/// The digits of a little-endian digit list, read back most significant
/// first.
spec fn digits_reversed(digits: Seq<u8>) -> Seq<char> {
    Seq::new(digits.len(), |i: int| digit_char(digits[digits.len() - 1 - i] as int))
}

/// Render a number in decimal.
pub fn decimal_string(n: u64) -> (r: String)
    ensures
        r@ == spec_decimal(n as int),
{
    let mut digits: Vec<u8> = Vec::new();
    digits.push((n % 10) as u8);
    let mut m: u64 = n / 10;
    proof {
        if n >= 10 {
            assert(spec_decimal(n as int) == spec_decimal(m as int).push(
                digit_char(n as int % 10),
            ));
            assert(spec_decimal(n as int) =~= spec_decimal(m as int) + digits_reversed(digits@));
        } else {
            assert(spec_decimal(n as int) =~= digits_reversed(digits@));
        }
    }
    while m > 0
        invariant
            digits@.len() >= 1,
            forall|i: int| 0 <= i < digits@.len() ==> digits@[i] < 10,
            m > 0 ==> spec_decimal(n as int) == spec_decimal(m as int) + digits_reversed(digits@),
            m == 0 ==> spec_decimal(n as int) == digits_reversed(digits@),
        decreases m,
    {
        let ghost before = digits@;
        let ghost m0 = m as int;
        digits.push((m % 10) as u8);
        m = m / 10;
        proof {
            assert(digits_reversed(digits@) =~= seq![digit_char(m0 % 10)] + digits_reversed(
                before,
            ));
            if m0 >= 10 {
                assert(spec_decimal(m0) == spec_decimal(m0 / 10).push(digit_char(m0 % 10)));
                assert(spec_decimal(m0) + digits_reversed(before) =~= spec_decimal(m0 / 10)
                    + digits_reversed(digits@));
            } else {
                assert(spec_decimal(m0) =~= seq![digit_char(m0)]);
                assert(spec_decimal(m0) + digits_reversed(before) =~= digits_reversed(digits@));
            }
        }
    }
    let mut r = String::new();
    let mut i: usize = digits.len();
    while i > 0
        invariant
            i <= digits@.len(),
            forall|j: int| 0 <= j < digits@.len() ==> digits@[j] < 10,
            r@ =~= digits_reversed(digits@).take(digits@.len() - i),
        decreases i,
    {
        i = i - 1;
        push_digit(&mut r, digits[i]);
        proof {
            assert(r@ =~= digits_reversed(digits@).take(digits@.len() - i));
        }
    }
    proof {
        assert(r@ =~= digits_reversed(digits@));
    }
    r
}

/// Render a signed number in decimal.
pub fn decimal_string_signed(n: i64) -> (r: String)
    ensures
        r@ == spec_decimal_signed(n as int),
{
    if n >= 0 {
        let r = decimal_string(n as u64);
        r
    } else {
        let mut r = String::from_str("-");
        let magnitude: u64 = (-(n as i128)) as u64;
        let rest = decimal_string(magnitude);
        r.append(rest.as_str());
        proof {
            reveal_strlit("-");
            assert(r@ =~= spec_decimal_signed(n as int));
        }
        r
    }
}

/// Everything a camera operation can report instead of a result.
#[derive(Debug, Clone, PartialEq, Eq)]
pub enum Error {
    /// A free-form failure message.
    Message(String),
    /// An enumeration index that names no camera.
    InvalidIndex(i32),
    /// A device identifier that names no camera.
    InvalidId(i32),
    /// A control that the device does not expose.
    InvalidControlType(String),
    /// No camera is connected.
    NoCamerasAvailable,
    /// The device handle was closed.
    CameraClosed,
    /// The device was unplugged.
    CameraRemoved,
    /// A path that cannot be used.
    InvalidPath(String),
    /// A malformed container or request format.
    InvalidFormat(String),
    /// A buffer or image size that does not fit the request.
    InvalidSize(usize),
    /// A pixel format the device or library does not handle.
    InvalidImageType(String),
    /// The hardware did not answer in time.
    TimedOut,
    /// Operations arrived in an order the device forbids.
    InvalidSequence,
    /// A caller-provided buffer is too small.
    BufferTooSmall(usize),
    /// A capture is already in progress.
    ExposureInProgress,
    /// A failure with no more specific classification.
    GeneralError(String),
    /// A mode or enumeration value the library does not recognize.
    InvalidMode(String),
    /// The exposure itself failed.
    ExposureFailed(String),
    /// A request outside the accepted value range.
    InvalidValue(String),
    /// A geometric request outside the sensor bounds.
    OutOfBounds(String),
}

impl Error {
    /// A human-readable description of the error.  Variants that carry
    /// a message yield it; the others name the failure and its value.
    pub fn message(&self) -> (r: String)
        ensures
            match self {
                Error::Message(m) => r@ == m@,
                Error::InvalidIndex(idx) => r@ == "Invalid index: "@ + spec_decimal_signed(
                    *idx as int,
                ),
                Error::InvalidId(id) => r@ == "Invalid id: "@ + spec_decimal_signed(*id as int),
                Error::InvalidControlType(t) => r@ == "Invalid control type: "@ + t@,
                Error::InvalidPath(p) => r@ == "Invalid path: "@ + p@,
                Error::InvalidFormat(f) => r@ == "Invalid format: "@ + f@,
                Error::InvalidSize(s) => r@ == "Invalid size: "@ + spec_decimal(*s as int),
                Error::InvalidImageType(t) => r@ == "Invalid image type: "@ + t@,
                Error::BufferTooSmall(s) => r@ == "Buffer too small: "@ + spec_decimal(*s as int),
                Error::GeneralError(m) => r@ == m@,
                Error::InvalidMode(m) => r@ == m@,
                Error::ExposureFailed(m) => r@ == m@,
                Error::InvalidValue(m) => r@ == m@,
                Error::OutOfBounds(m) => r@ == m@,
                Error::NoCamerasAvailable => r@ == "No cameras available"@,
                Error::CameraClosed => r@ == "Camera closed"@,
                Error::CameraRemoved => r@ == "Camera removed"@,
                Error::TimedOut => r@ == "Timed out"@,
                Error::InvalidSequence => r@ == "Invalid sequence"@,
                Error::ExposureInProgress => r@ == "Exposure in progress"@,
            },
    {
        match self {
            Error::Message(msg) => msg.clone(),
            Error::InvalidIndex(idx) => {
                let n = decimal_string_signed(*idx as i64);
                String::from_str("Invalid index: ").concat(n.as_str())
            },
            Error::InvalidId(id) => {
                let n = decimal_string_signed(*id as i64);
                String::from_str("Invalid id: ").concat(n.as_str())
            },
            Error::InvalidControlType(t) => String::from_str("Invalid control type: ").concat(
                t.as_str(),
            ),
            Error::NoCamerasAvailable => String::from_str("No cameras available"),
            Error::CameraClosed => String::from_str("Camera closed"),
            Error::CameraRemoved => String::from_str("Camera removed"),
            Error::InvalidPath(p) => String::from_str("Invalid path: ").concat(p.as_str()),
            Error::InvalidFormat(f) => String::from_str("Invalid format: ").concat(f.as_str()),
            Error::InvalidSize(s) => {
                let n = decimal_string(*s as u64);
                String::from_str("Invalid size: ").concat(n.as_str())
            },
            Error::InvalidImageType(t) => String::from_str("Invalid image type: ").concat(
                t.as_str(),
            ),
            Error::TimedOut => String::from_str("Timed out"),
            Error::InvalidSequence => String::from_str("Invalid sequence"),
            Error::BufferTooSmall(s) => {
                let n = decimal_string(*s as u64);
                String::from_str("Buffer too small: ").concat(n.as_str())
            },
            Error::ExposureInProgress => String::from_str("Exposure in progress"),
            Error::GeneralError(msg) => msg.clone(),
            Error::InvalidMode(msg) => msg.clone(),
            Error::ExposureFailed(msg) => msg.clone(),
            Error::InvalidValue(msg) => msg.clone(),
            Error::OutOfBounds(msg) => msg.clone(),
        }
    }
}

} // verus!
