//! M-sequences (A.1, A.2): the octets of a master message, the checksum
//! that protects every message, and the response that the device compiles
//! in each operating mode.
use vstd::prelude::*;
use crate::errors::IoLinkError;
use crate::protocol::{ComChannel, DeviceOperationMode, PdStatus, RwDirection};
use crate::dev_config::on_req_data::{operate, pre_operate};
use crate::dev_config::process_data::{config_pd_in_length_in_bytes, config_pd_out_length_in_bytes};
use crate::dl::isdu_handler::{xor_of, xor_prefix};

verus! {

/// Octets of On-request Data in a message of each operating mode.
pub open spec fn od_octets(mode: DeviceOperationMode) -> u8 {
    match mode {
        DeviceOperationMode::Startup => 1,
        DeviceOperationMode::PreOperate => pre_operate::PRE_OP_OD_LEN,
        DeviceOperationMode::Operate => operate::OP_OD_LEN,
    }
}

/// Octets of output Process Data in a master message of each mode.
pub open spec fn pd_out_octets(mode: DeviceOperationMode) -> u8 {
    match mode {
        DeviceOperationMode::Operate => 4,
        _ => 0,
    }
}

/// Octets of input Process Data in a device response of each mode.
pub open spec fn pd_in_octets(mode: DeviceOperationMode) -> u8 {
    match mode {
        DeviceOperationMode::Operate => 3,
        _ => 0,
    }
}

/// The M-sequence type of each mode: TYPE_0 in STARTUP, TYPE_1 in
/// PREOPERATE, TYPE_2 in OPERATE.
pub open spec fn mseq_type_of(mode: DeviceOperationMode) -> u8 {
    match mode {
        DeviceOperationMode::Startup => 0,
        DeviceOperationMode::PreOperate => 1,
        DeviceOperationMode::Operate => 2,
    }
}

/// Direction of the M-sequence control octet: bit 7 set for a read.
pub open spec fn mc_direction(mc: u8) -> RwDirection {
    if mc >= 0x80 {
        RwDirection::Read
    } else {
        RwDirection::Write
    }
}

/// Communication channel of the M-sequence control octet: bits 6 and 5.
pub open spec fn mc_channel(mc: u8) -> ComChannel {
    let c = (mc / 32) % 4;
    if c == 0 {
        ComChannel::Process
    } else if c == 1 {
        ComChannel::Page
    } else if c == 2 {
        ComChannel::Diagnosis
    } else {
        ComChannel::Isdu
    }
}

/// Address or flow control of the M-sequence control octet: bits 4 to 0.
pub open spec fn mc_address(mc: u8) -> u8 {
    mc % 32
}

/// Compression of an octet to the six checksum bits (A.1.6): bit 5 is
/// the parity of bits 7, 5, 3, 1; bit 4 of bits 6, 4, 2, 0; bits 3 to 0
/// the parity of the pairs 7-6, 5-4, 3-2 and 1-0.
pub open spec fn compress6(x: u8) -> u8 {
    let b7 = (x / 128) % 2;
    let b6 = (x / 64) % 2;
    let b5 = (x / 32) % 2;
    let b4 = (x / 16) % 2;
    let b3 = (x / 8) % 2;
    let b2 = (x / 4) % 2;
    let b1 = (x / 2) % 2;
    let b0 = x % 2;
    (32 * ((b7 + b5 + b3 + b1) % 2) + 16 * ((b6 + b4 + b2 + b0) % 2) + 8 * ((b7 + b6) % 2) + 4 * ((
    b5 + b4) % 2) + 2 * ((b3 + b2) % 2) + (b1 + b0) % 2) as u8
}

/// The checksum of a message: its octets XORed onto the seed 0x52, that
/// octet compressed to six bits. The checksum bits of the message are
/// zero when it is computed.
pub open spec fn mseq_checksum(s: Seq<u8>) -> u8 {
    compress6(xor_prefix(s, s.len() as int) ^ 0x52u8)
}

/// A master message with the checksum bits of its check/type octet
/// cleared.
pub open spec fn ckt_cleared(rx: Seq<u8>) -> Seq<u8> {
    rx.update(1, ((rx[1] / 64) * 64) as u8)
}

/// The check of a complete master message in a mode: the checksum must
/// match, then the M-sequence type must be that of the mode; a message
/// that passes is a read or a write by its control octet.
pub open spec fn check_request(rx: Seq<u8>, mode: DeviceOperationMode) -> Result<
    RwDirection,
    IoLinkError,
> {
    if rx.len() < 2 {
        Err(IoLinkError::InvalidParameter)
    } else if mseq_checksum(ckt_cleared(rx)) != rx[1] % 64 {
        Err(IoLinkError::ChecksumError)
    } else if rx[1] / 64 != mseq_type_of(mode) {
        Err(IoLinkError::InvalidMseqType)
    } else {
        Ok(mc_direction(rx[0]))
    }
}

/// Octets of a master message with control octet `mc` in a mode: control
/// and check/type octets, the output Process Data, and On-request Data
/// where the master writes.
pub open spec fn expected_request_length(mc: u8, mode: DeviceOperationMode) -> int {
    2 + pd_out_octets(mode) + if mc_direction(mc) is Write {
        od_octets(mode) as int
    } else {
        0int
    }
}

/// The output Process Data of a message of OPERATE: the octets after the
/// check/type octet, none where the message is too short.
pub open spec fn request_pd_out(rx: Seq<u8>) -> Seq<u8> {
    if rx.len() >= 2 + pd_out_octets(DeviceOperationMode::Operate) {
        rx.subrange(2, 2 + pd_out_octets(DeviceOperationMode::Operate))
    } else {
        Seq::empty()
    }
}

/// The On-request Data that a write message of a mode carries, after its
/// Process Data; none for a read or a message too short.
pub open spec fn request_od(rx: Seq<u8>, mode: DeviceOperationMode) -> Seq<u8> {
    let from = 2 + pd_out_octets(mode);
    let to = from + od_octets(mode);
    if rx.len() >= 1 && mc_direction(rx[0]) is Write && rx.len() >= to {
        rx.subrange(from, to)
    } else {
        Seq::empty()
    }
}

/// `s` cut or filled up with zeros to `n` octets.
pub open spec fn fit(s: Seq<u8>, n: nat) -> Seq<u8> {
    if s.len() >= n {
        s.subrange(0, n as int)
    } else {
        s + Seq::new((n - s.len()) as nat, |i: int| 0u8)
    }
}

/// The octets of a response before its check/status octet: On-request Data
/// for a read, then input Process Data in OPERATE.
pub open spec fn response_body(
    mode: DeviceOperationMode,
    rw: RwDirection,
    od: Seq<u8>,
    pd: Seq<u8>,
) -> Seq<u8> {
    (if rw is Read {
        fit(od, od_octets(mode) as nat)
    } else {
        Seq::empty()
    }) + (if mode is Operate {
        fit(pd, pd_in_octets(mode) as nat)
    } else {
        Seq::empty()
    })
}

/// The status bits of the check/status octet: bit 7 the Event flag, bit 6
/// set for invalid input Process Data.
pub open spec fn cks_flags(event_flag: bool, pd_status: PdStatus) -> u8 {
    ((if event_flag {
        128int
    } else {
        0int
    }) + (if pd_status is Invalid {
        64int
    } else {
        0int
    })) as u8
}

/// The response of the device: the body, then the check/status octet with
/// the status bits and the checksum of the whole response.
pub open spec fn device_response(
    mode: DeviceOperationMode,
    rw: RwDirection,
    od: Seq<u8>,
    pd: Seq<u8>,
    event_flag: bool,
    pd_status: PdStatus,
) -> Seq<u8> {
    let body = response_body(mode, rw, od, pd);
    let flags = cks_flags(event_flag, pd_status);
    body.push((flags + mseq_checksum(body.push(flags))) as u8)
}

/// Octets of On-request Data of a mode, from the configuration.
pub fn od_octets_of(mode: DeviceOperationMode) -> (r: u8)
    ensures
        r == od_octets(mode),
        1 <= r <= 32,
{
    match mode {
        DeviceOperationMode::Startup => 1,
        DeviceOperationMode::PreOperate => pre_operate::od_length(),
        DeviceOperationMode::Operate => operate::od_length(),
    }
}

/// Octets of output Process Data of a mode, from the configuration.
pub fn pd_out_octets_of(mode: DeviceOperationMode) -> (r: u8)
    ensures
        r == pd_out_octets(mode),
{
    match mode {
        DeviceOperationMode::Operate => config_pd_out_length_in_bytes(),
        _ => 0,
    }
}

/// Octets of input Process Data of a mode, from the configuration.
pub fn pd_in_octets_of(mode: DeviceOperationMode) -> (r: u8)
    ensures
        r == pd_in_octets(mode),
{
    match mode {
        DeviceOperationMode::Operate => config_pd_in_length_in_bytes(),
        _ => 0,
    }
}

/// Splits an M-sequence control octet into direction, channel and address.
pub fn decode_mc(mc: u8) -> (r: (RwDirection, ComChannel, u8))
    ensures
        r == (mc_direction(mc), mc_channel(mc), mc_address(mc)),
{
    let rw = if mc >= 0x80 {
        RwDirection::Read
    } else {
        RwDirection::Write
    };
    let c = (mc / 32) % 4;
    let channel = if c == 0 {
        ComChannel::Process
    } else if c == 1 {
        ComChannel::Page
    } else if c == 2 {
        ComChannel::Diagnosis
    } else {
        ComChannel::Isdu
    };
    (rw, channel, mc % 32)
}

/// Compresses an octet to six checksum bits.
pub fn compress(x: u8) -> (r: u8)
    ensures
        r == compress6(x),
        r < 64,
{
    let b7 = (x / 128) % 2;
    let b6 = (x / 64) % 2;
    let b5 = (x / 32) % 2;
    let b4 = (x / 16) % 2;
    let b3 = (x / 8) % 2;
    let b2 = (x / 4) % 2;
    let b1 = (x / 2) % 2;
    let b0 = x % 2;
    32 * ((b7 + b5 + b3 + b1) % 2) + 16 * ((b6 + b4 + b2 + b0) % 2) + 8 * ((b7 + b6) % 2) + 4 * ((b5
        + b4) % 2) + 2 * ((b3 + b2) % 2) + (b1 + b0) % 2
}

/// The checksum of a message.
pub fn checksum(s: &[u8]) -> (r: u8)
    ensures
        r == mseq_checksum(s@),
        r < 64,
{
    let x = xor_of(s, s.len());
    compress(x ^ 0x52u8)
}

/// Checks a complete master message in a mode.
pub fn check_master_message(rx: &[u8], mode: DeviceOperationMode) -> (r: Result<RwDirection, IoLinkError>)
    ensures
        r == check_request(rx@, mode),
{
    if rx.len() < 2 {
        return Err(IoLinkError::InvalidParameter);
    }
    let ckt = rx[1];
    let mut cleared = vstd::slice::slice_to_vec(rx);
    cleared.set(1, (ckt / 64) * 64);
    assert(cleared@ =~= ckt_cleared(rx@));
    if checksum(cleared.as_slice()) != ckt % 64 {
        return Err(IoLinkError::ChecksumError);
    }
    let t = ckt / 64;
    let expected: u8 = match mode {
        DeviceOperationMode::Startup => 0,
        DeviceOperationMode::PreOperate => 1,
        DeviceOperationMode::Operate => 2,
    };
    if t != expected {
        return Err(IoLinkError::InvalidMseqType);
    }
    let (rw, _, _) = decode_mc(rx[0]);
    Ok(rw)
}

/// Octets of a master message, known from its control octet and the mode.
pub fn request_length(mc: u8, mode: DeviceOperationMode) -> (r: u8)
    ensures
        r == expected_request_length(mc, mode),
{
    let (rw, _, _) = decode_mc(mc);
    let od = od_octets_of(mode);
    let pd = pd_out_octets_of(mode);
    match rw {
        RwDirection::Write => 2 + pd + od,
        RwDirection::Read => 2 + pd,
    }
}

/// The output Process Data of a message of OPERATE.
pub fn extract_pd_out(rx: &[u8]) -> (r: Vec<u8>)
    ensures
        r@ == request_pd_out(rx@),
{
    let n = pd_out_octets_of(DeviceOperationMode::Operate) as usize;
    if rx.len() >= 2 + n {
        vstd::slice::slice_to_vec(vstd::slice::slice_subrange(rx, 2, 2 + n))
    } else {
        Vec::new()
    }
}

/// The On-request Data that a write message of a mode carries.
pub fn extract_od(rx: &[u8], mode: DeviceOperationMode) -> (r: Vec<u8>)
    ensures
        r@ == request_od(rx@, mode),
{
    let from = 2 + pd_out_octets_of(mode) as usize;
    let to = from + od_octets_of(mode) as usize;
    if rx.len() >= 1 && rx[0] < 0x80 && rx.len() >= to {
        vstd::slice::slice_to_vec(vstd::slice::slice_subrange(rx, from, to))
    } else {
        Vec::new()
    }
}

/// Appends `s` cut or filled up with zeros to `n` octets.
pub(crate) fn push_fit(out: &mut Vec<u8>, s: &[u8], n: usize)
    ensures
        final(out)@ == old(out)@ + fit(s@, n as nat),
{
    let mut i: usize = 0;
    while i < n
        invariant
            i <= n,
            out@ == old(out)@ + fit(s@, n as nat).subrange(0, i as int),
        decreases n - i,
    {
        let x = if i < s.len() {
            s[i]
        } else {
            0u8
        };
        assert(fit(s@, n as nat)[i as int] == x);
        out.push(x);
        i = i + 1;
        assert(fit(s@, n as nat).subrange(0, i as int) =~= fit(s@, n as nat).subrange(
            0,
            (i - 1) as int,
        ).push(x));
    }
    assert(fit(s@, n as nat).subrange(0, n as int) =~= fit(s@, n as nat));
}

/// Compiles the response of the device to a message of a mode.
pub fn compile_response(
    mode: DeviceOperationMode,
    rw: RwDirection,
    od: &[u8],
    pd: &[u8],
    event_flag: bool,
    pd_status: PdStatus,
) -> (r: Vec<u8>)
    ensures
        r@ == device_response(mode, rw, od@, pd@, event_flag, pd_status),
{
    let mut body: Vec<u8> = Vec::new();
    if let RwDirection::Read = rw {
        push_fit(&mut body, od, od_octets_of(mode) as usize);
    }
    if let DeviceOperationMode::Operate = mode {
        push_fit(&mut body, pd, pd_in_octets_of(mode) as usize);
    }
    assert(body@ =~= response_body(mode, rw, od@, pd@));
    let flags: u8 = (if event_flag {
        128u8
    } else {
        0u8
    }) + (if let PdStatus::Invalid = pd_status {
        64u8
    } else {
        0u8
    });
    body.push(flags);
    let c = checksum(body.as_slice());
    let last = body.len() - 1;
    body.set(last, flags + c);
    assert(body@ =~= device_response(mode, rw, od@, pd@, event_flag, pd_status));
    body
}

/// The six checksum bits are below 64.
pub(crate) proof fn lemma_compress6_bound(x: u8)
    ensures
        compress6(x) < 64,
{
}

/// Every response the device compiles passes the master's check: its
/// length is that of the mode and direction, bit 7 of its check/status
/// octet is the Event flag and bit 6 the Process Data status, and its six
/// low bits are the checksum of the response with them cleared.
pub proof fn response_checks(
    mode: DeviceOperationMode,
    rw: RwDirection,
    od: Seq<u8>,
    pd: Seq<u8>,
    event_flag: bool,
    pd_status: PdStatus,
)
    ensures
        ({
            let r = device_response(mode, rw, od, pd, event_flag, pd_status);
            let last = r.len() - 1;
            let c = r[last];
            &&& r.len() == (if rw is Read {
                od_octets(mode) as int
            } else {
                0int
            }) + pd_in_octets(mode) + 1
            &&& (c >= 128) == event_flag
            &&& ((c / 64) % 2 == 1) == (pd_status is Invalid)
            &&& c % 64 == mseq_checksum(r.update(last, ((c / 64) * 64) as u8))
        }),
{
    let body = response_body(mode, rw, od, pd);
    let flags = cks_flags(event_flag, pd_status);
    let k = mseq_checksum(body.push(flags));
    lemma_compress6_bound(xor_prefix(body.push(flags), body.push(flags).len() as int) ^ 0x52u8);
    let r = device_response(mode, rw, od, pd, event_flag, pd_status);
    let c = r[r.len() - 1];
    assert(c == flags + k);
    assert((c / 64) * 64 == flags);
    assert(r.update(r.len() - 1, ((c / 64) * 64) as u8) =~= body.push(flags));
}

/// A complete message carries what its mode needs: a write the mode's
/// On-request Data, and a message of OPERATE the configured output Process
/// Data.
pub proof fn complete_message_fields(rx: Seq<u8>, mode: DeviceOperationMode)
    requires
        rx.len() >= 1,
        rx.len() == expected_request_length(rx[0], mode),
    ensures
        mc_direction(rx[0]) is Write ==> request_od(rx, mode).len() == od_octets(mode),
        mode is Operate ==> request_pd_out(rx).len() == pd_out_octets(mode),
{
}

} // verus!
