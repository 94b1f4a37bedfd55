//! Slippage-calibration inputs: a predicted slippage is either a real,
//! non-zero figure or explicitly unavailable with a stated reason.
use vstd::prelude::*;
use crate::types::{OrdKey, KEY_ZERO};

verus! {

/// A predicted-slippage figure for calibration.
#[derive(Debug, Clone)]
pub enum CalibrationField {
    /// A predicted slippage (key of a double).
    Real(OrdKey),
    /// No prediction, with the reason why.
    Unavailable(String),
}

/// Unicode `White_Space`, as `char::is_whitespace` tests it.
pub open spec fn is_white_space(c: char) -> bool {
    let u = c as u32;
    (0x09 <= u <= 0x0D) || u == 0x20 || u == 0x85 || u == 0xA0 || u == 0x1680 || (0x2000 <= u
        <= 0x200A) || u == 0x2028 || u == 0x2029 || u == 0x202F || u == 0x205F || u == 0x3000
}

/// Text made only of white space (empty once trimmed).
pub open spec fn is_blank(s: Seq<char>) -> bool {
    forall|i: int| 0 <= i < s.len() ==> is_white_space(#[trigger] s[i])
}

/// Whether `c` is Unicode white space.
pub fn white_space(c: char) -> (b: bool)
    ensures
        b == is_white_space(c),
{
    let u = c as u32;
    (0x09 <= u && u <= 0x0D) || u == 0x20 || u == 0x85 || u == 0xA0 || u == 0x1680 || (0x2000 <= u
        && u <= 0x200A) || u == 0x2028 || u == 0x2029 || u == 0x202F || u == 0x205F || u == 0x3000
}

/// Whether `s` is empty once trimmed.
pub fn blank(s: &str) -> (b: bool)
    ensures
        b == is_blank(s@),
{
    let n = s.unicode_len();
    let mut i: usize = 0;
    while i < n
        invariant
            n == s@.len(),
            i <= n,
            forall|j: int| 0 <= j < i ==> is_white_space(#[trigger] s@[j]),
        decreases n - i,
    {
        if !white_space(s.get_char(i)) {
            return false;
        }
        i = i + 1;
    }
    true
}

/// Message of a zero prediction.
pub open spec fn zero_prediction_msg() -> Seq<char> {
    "predicted_slippage cannot be 0.0 for non-zero expected price"@
}

/// Message of an empty reason.
pub open spec fn empty_reason_msg() -> Seq<char> {
    "Unavailable reason cannot be empty"@
}

impl CalibrationField {
    /// A real prediction; zero is refused.
    pub fn new_real(predicted: OrdKey) -> (r: Result<Self, &'static str>)
        ensures
            predicted.0 == KEY_ZERO ==> (r matches Err(m) && m@ == zero_prediction_msg()),
            predicted.0 != KEY_ZERO ==> (r matches Ok(CalibrationField::Real(p)) && p == predicted),
    {
        if predicted.0 == KEY_ZERO {
            Err("predicted_slippage cannot be 0.0 for non-zero expected price")
        } else {
            Ok(CalibrationField::Real(predicted))
        }
    }

    /// No prediction, for the stated reason; a blank reason is refused.
    pub fn new_unavailable(reason: &str) -> (r: Result<Self, &'static str>)
        ensures
            is_blank(reason@) ==> (r matches Err(m) && m@ == empty_reason_msg()),
            !is_blank(reason@) ==> (r matches Ok(CalibrationField::Unavailable(s)) && s@ == reason@),
    {
        if blank(reason) {
            Err("Unavailable reason cannot be empty")
        } else {
            Ok(CalibrationField::Unavailable(reason.to_owned()))
        }
    }
}

} // verus!
