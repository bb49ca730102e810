//! Process Data lengths (bit- or octet-structured) and their size in octets.
use vstd::prelude::*;
use crate::page1::{ProcessDataIn, ProcessDataOut, MsequenceCapability};

verus! {

/// A Process Data length, in bits (0 to 16) or in octets (0 to 32).
#[derive(Debug, Clone, Copy, PartialEq, Eq, Structural)]
pub enum ProcessDataLength {
    /// Bit-oriented length.
    Bit(u8),
    /// Octet-oriented length.
    Octet(u8),
}

/// The length lies in the permitted range of its kind.
pub open spec fn is_valid_pd_length(l: ProcessDataLength) -> bool {
    match l {
        ProcessDataLength::Bit(n) => n <= 16,
        ProcessDataLength::Octet(n) => n <= 32,
    }
}

/// The number of octets that hold the Process Data: bits rounded up to whole octets.
pub open spec fn pd_length_octets(l: ProcessDataLength) -> int {
    match l {
        ProcessDataLength::Bit(n) => (n + 7) / 8,
        ProcessDataLength::Octet(n) => n as int,
    }
}

/// Returns the number of octets needed for a valid Process Data length.
pub fn length_in_bytes(l: ProcessDataLength) -> (r: u8)
    requires
        is_valid_pd_length(l),
    ensures
        r == pd_length_octets(l),
        r <= 32,
{
    match l {
        ProcessDataLength::Bit(bit_length) => (bit_length + 7) / 8,
        ProcessDataLength::Octet(octet_length) => octet_length,
    }
}

/// Returns the configured Process Data input length.
pub fn config_pd_in_length() -> (r: ProcessDataLength)
    ensures
        r == ProcessDataLength::Octet(3),
        is_valid_pd_length(r),
{
    ProcessDataLength::Octet(3)
}

/// Returns the Process Data input length in octets.
pub fn config_pd_in_length_in_bytes() -> (r: u8)
    ensures
        r == pd_length_octets(ProcessDataLength::Octet(3)),
        r == 3,
{
    length_in_bytes(config_pd_in_length())
}

/// Returns the configured Process Data output length.
pub fn config_pd_out_length() -> (r: ProcessDataLength)
    ensures
        r == ProcessDataLength::Octet(4),
        is_valid_pd_length(r),
{
    ProcessDataLength::Octet(4)
}

/// Returns the Process Data output length in octets.
pub fn config_pd_out_length_in_bytes() -> (r: u8)
    ensures
        r == pd_length_octets(ProcessDataLength::Octet(4)),
        r == 4,
{
    length_in_bytes(config_pd_out_length())
}

/// The (BYTE, length) pair that Table B.6 gives for a Process Data length:
/// bit-structured lengths and 1 or 2 octets with BYTE = 0 and the length in
/// bits, 3 to 32 octets with BYTE = 1 and the length minus one.
pub open spec fn pd_length_code(l: ProcessDataLength) -> (bool, u8) {
    match l {
        ProcessDataLength::Bit(n) => (false, n),
        ProcessDataLength::Octet(n) => if n >= 3 {
            (true, (n - 1) as u8)
        } else {
            (false, (8 * n) as u8)
        },
    }
}

/// Returns the (BYTE, length) pair that encodes a valid Process Data length.
pub fn pd_length_code_of(l: ProcessDataLength) -> (r: (bool, u8))
    requires
        is_valid_pd_length(l),
    ensures
        r == pd_length_code(l),
        r.1 < 32,
{
    match l {
        ProcessDataLength::Bit(n) => (false, n),
        ProcessDataLength::Octet(n) => if n >= 3 {
            (true, n - 1)
        } else {
            (false, 8 * n)
        },
    }
}

/// Returns the ProcessDataIn parameter of the configured input length
/// (no SIO mode).
pub fn pd_in_parameter() -> (r: ProcessDataIn)
    ensures
        r == (ProcessDataIn { byte: true, sio: false, length: 2 }),
        r.wf(),
{
    let (byte, length) = pd_length_code_of(config_pd_in_length());
    ProcessDataIn { byte, sio: false, length }
}

/// Returns the ProcessDataOut parameter of the configured output length.
pub fn pd_out_parameter() -> (r: ProcessDataOut)
    ensures
        r == (ProcessDataOut { byte: true, length: 3 }),
        r.wf(),
{
    let (byte, length) = pd_length_code_of(config_pd_out_length());
    ProcessDataOut { byte, length }
}

/// OPERATE M-sequence code of the configuration: TYPE_2_V with 32 octets
/// of On-request Data.
pub const OPERATE_M_SEQUENCE_CODE: u8 = 7;

/// PREOPERATE M-sequence code of the configuration: TYPE_1_2 with 2 octets
/// of On-request Data.
pub const PREOPERATE_M_SEQUENCE_CODE: u8 = 1;

/// Returns the M-sequenceCapability parameter of the configuration: ISDU
/// supported, with the configured OPERATE and PREOPERATE codes.
pub fn m_sequence_capability_parameter() -> (r: MsequenceCapability)
    ensures
        r == (MsequenceCapability {
            isdu: true,
            operate_m_sequence: OPERATE_M_SEQUENCE_CODE,
            preoperate_m_sequence: PREOPERATE_M_SEQUENCE_CODE,
        }),
        r.wf(),
{
    MsequenceCapability {
        isdu: true,
        operate_m_sequence: OPERATE_M_SEQUENCE_CODE,
        preoperate_m_sequence: PREOPERATE_M_SEQUENCE_CODE,
    }
}

} // verus!
