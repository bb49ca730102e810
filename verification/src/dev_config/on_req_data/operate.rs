//! On-request Data length in OPERATE (M-sequence codes 0, 1, 6, 7 give
//! 1, 2, 8, 32 octets).
use vstd::prelude::*;
use super::is_valid_od_length;

verus! {

/// Configured OPERATE On-request Data length; accepted values are 1, 2, 8, 32.
pub const OP_OD_LEN: u8 = 32;

/// Returns the configured OPERATE On-request Data length in octets.
pub fn od_length() -> (r: u8)
    ensures
        r == OP_OD_LEN,
        is_valid_od_length(r),
{
    if OP_OD_LEN == 1 {
        1
    } else if OP_OD_LEN == 2 {
        2
    } else if OP_OD_LEN == 8 {
        8
    } else {
        32
    }
}

} // verus!
