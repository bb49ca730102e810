//! On-request Data lengths of the PREOPERATE and OPERATE M-sequences.
use vstd::prelude::*;

pub mod operate;
pub mod pre_operate;

verus! {

/// The On-request Data lengths (in octets) that an M-sequence may carry.
pub open spec fn is_valid_od_length(n: u8) -> bool {
    n == 1 || n == 2 || n == 8 || n == 32
}

/// The larger of the OPERATE and PREOPERATE On-request Data lengths.
pub open spec fn spec_max_possible_od_length() -> u8 {
    if operate::OP_OD_LEN > pre_operate::PRE_OP_OD_LEN {
        operate::OP_OD_LEN
    } else {
        pre_operate::PRE_OP_OD_LEN
    }
}

/// Returns the maximum On-request Data length (in octets) over all operating modes.
pub fn max_possible_od_length() -> (r: u8)
    ensures
        r == spec_max_possible_od_length(),
        r >= operate::OP_OD_LEN && r >= pre_operate::PRE_OP_OD_LEN,
        is_valid_od_length(r),
{
    let operate_od_length = operate::od_length();
    let pre_operate_od_length = pre_operate::od_length();
    if operate_od_length > pre_operate_od_length {
        operate_od_length
    } else {
        pre_operate_od_length
    }
}

} // verus!
