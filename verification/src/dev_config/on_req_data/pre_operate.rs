//! On-request Data length in PREOPERATE.
//!
//! | PREOPERATE code | On-request Data (octets) | M-sequence type |
//! |-----------------|--------------------------|-----------------|
//! | 0               | 1                        | TYPE_0          |
//! | 1               | 2                        | TYPE_1_2        |
//! | 2               | 8                        | TYPE_1_V        |
//! | 3               | 32                       | TYPE_1_V        |
use vstd::prelude::*;
use super::is_valid_od_length;

verus! {

/// Configured PREOPERATE On-request Data length; accepted values are 1, 2, 8, 32.
pub const PRE_OP_OD_LEN: u8 = 2;

/// Returns the configured PREOPERATE On-request Data length in octets.
pub fn od_length() -> (r: u8)
    ensures
        r == PRE_OP_OD_LEN,
        is_valid_od_length(r),
{
    if PRE_OP_OD_LEN == 1 {
        1
    } else if PRE_OP_OD_LEN == 2 {
        2
    } else if PRE_OP_OD_LEN == 8 {
        8
    } else {
        32
    }
}

} // verus!
