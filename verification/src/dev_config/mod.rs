//! Device configuration: On-request Data lengths, Process Data lengths and
//! vendor identification.

pub mod on_req_data;
pub mod process_data;
pub mod timings;
pub mod vendor_specifics;
