//! Messages of the master for driving a device under test: M-sequences of
//! each operating mode on the Page and ISDU channels, ISDU requests, and
//! the checks that a master makes on what the device answers.
use vstd::prelude::*;
use crate::protocol::{ComChannel, DeviceOperationMode, RwDirection, FLOW_CTRL_IDLE_1, FLOW_CTRL_START};
use crate::dl::isdu_handler::{
    chkpdu_closes, isdu_request_data, isdu_request_index, isdu_request_subindex, isdu_request_valid,
    request_direction, with_chkpdu, xor_of, xor_prefix,
};
use crate::dl::mseq::{
    check_request, checksum, ckt_cleared, expected_request_length, fit, lemma_compress6_bound,
    mc_address, mc_channel, mc_direction, mseq_checksum, mseq_type_of, od_octets, od_octets_of,
    pd_out_octets, pd_out_octets_of, push_fit, request_od, request_pd_out,
};

verus! {

/// Code of a communication channel in bits 6 and 5 of the control octet.
pub open spec fn channel_code(channel: ComChannel) -> u8 {
    match channel {
        ComChannel::Process => 0,
        ComChannel::Page => 1,
        ComChannel::Diagnosis => 2,
        ComChannel::Isdu => 3,
    }
}

/// The M-sequence control octet: bit 7 set for a read, the channel in bits
/// 6 and 5, the address or flow control in bits 4 to 0.
pub open spec fn control_octet(rw: RwDirection, channel: ComChannel, address: u8) -> u8 {
    ((if rw is Read {
        128int
    } else {
        0int
    }) + channel_code(channel) * 32 + address % 32) as u8
}

/// A master message: the control octet `mc`, the check/type octet with the
/// M-sequence type `mtype` in bits 7 and 6 and in bits 5 to 0 the checksum
/// of the message with those bits cleared, then the octets `data`.
pub open spec fn master_message(mc: u8, mtype: u8, data: Seq<u8>) -> Seq<u8> {
    let unsigned = seq![mc, (mtype * 64) as u8] + data;
    unsigned.update(1, (mtype * 64 + mseq_checksum(unsigned)) as u8)
}

/// `n` octets of value `x`.
pub open spec fn filler(x: u8, n: nat) -> Seq<u8> {
    Seq::new(n, |i: int| x)
}

/// The control octet of a direction, channel and address.
fn control(rw: RwDirection, channel: ComChannel, address: u8) -> (r: u8)
    requires
        address < 32,
    ensures
        r == control_octet(rw, channel, address),
{
    let d: u8 = match rw {
        RwDirection::Read => 128,
        RwDirection::Write => 0,
    };
    let c: u8 = match channel {
        ComChannel::Process => 0,
        ComChannel::Page => 1,
        ComChannel::Diagnosis => 2,
        ComChannel::Isdu => 3,
    };
    d + c * 32 + address
}

/// The octets of `s` appended to `out`.
fn push_all(out: &mut Vec<u8>, s: &[u8])
    ensures
        final(out)@ == old(out)@ + s@,
{
    let mut i: usize = 0;
    while i < s.len()
        invariant
            i <= s.len(),
            out@ == old(out)@ + s@.subrange(0, i as int),
        decreases s.len() - i,
    {
        out.push(s[i]);
        i = i + 1;
        assert(s@.subrange(0, i as int) =~= s@.subrange(0, i - 1).push(s@[i - 1]));
    }
    assert(s@.subrange(0, s.len() as int) =~= s@);
}

/// `n` octets of value `x` appended to `out`.
fn push_filler(out: &mut Vec<u8>, x: u8, n: usize)
    ensures
        final(out)@ == old(out)@ + filler(x, n as nat),
{
    let mut i: usize = 0;
    while i < n
        invariant
            i <= n,
            out@ == old(out)@ + filler(x, i as nat),
        decreases n - i,
    {
        out.push(x);
        i = i + 1;
        assert(filler(x, i as nat) =~= filler(x, (i - 1) as nat).push(x));
    }
}

/// The master message with control octet `mc` and M-sequence type `mtype`
/// that carries `data`.
fn build_master_message(mc: u8, mtype: u8, data: &[u8]) -> (r: Vec<u8>)
    requires
        mtype < 4,
    ensures
        r@ == master_message(mc, mtype, data@),
{
    let mut v: Vec<u8> = Vec::new();
    v.push(mc);
    v.push(mtype * 64);
    push_all(&mut v, data);
    assert(v@ =~= seq![mc, (mtype * 64) as u8] + data@);
    let c = checksum(v.as_slice());
    v.set(1, mtype * 64 + c);
    v
}

/// The M-sequence type of a mode as an octet.
fn mseq_type(mode: DeviceOperationMode) -> (r: u8)
    ensures
        r == mseq_type_of(mode),
        r < 4,
{
    match mode {
        DeviceOperationMode::Startup => 0,
        DeviceOperationMode::PreOperate => 1,
        DeviceOperationMode::Operate => 2,
    }
}

/// A control octet decodes to the direction, channel and address it was
/// made of.
pub proof fn control_octet_decodes(rw: RwDirection, channel: ComChannel, address: u8)
    requires
        address < 32,
    ensures
        mc_direction(control_octet(rw, channel, address)) == rw,
        mc_channel(control_octet(rw, channel, address)) == channel,
        mc_address(control_octet(rw, channel, address)) == address,
{
}

/// Every master message built for a mode passes the device's check of that
/// mode, as a read or a write by its control octet.
pub proof fn master_message_passes_check(mc: u8, mode: DeviceOperationMode, data: Seq<u8>)
    ensures
        check_request(master_message(mc, mseq_type_of(mode), data), mode) == Ok::<
            RwDirection,
            crate::errors::IoLinkError,
        >(mc_direction(mc)),
{
    let t = mseq_type_of(mode);
    let unsigned = seq![mc, (t * 64) as u8] + data;
    let m = master_message(mc, t, data);
    lemma_compress6_bound(xor_prefix(unsigned, unsigned.len() as int)
        ^ 0x52u8);
    let k = mseq_checksum(unsigned);
    assert(m[1] == t * 64 + k);
    assert(m[1] / 64 == t);
    assert(m[1] % 64 == k);
    assert(ckt_cleared(m) =~= unsigned);
}

/// A master message that carries what its mode asks for hands the device
/// those octets: it has the length the device waits for, its output
/// Process Data are the first octets of `data`, and a write's On-request
/// Data follow them.
pub proof fn master_message_carries_data(mc: u8, mode: DeviceOperationMode, data: Seq<u8>)
    requires
        data.len() == expected_request_length(mc, mode) - 2,
    ensures
        master_message(mc, mseq_type_of(mode), data).len() == expected_request_length(mc, mode),
        mode is Operate ==> request_pd_out(master_message(mc, mseq_type_of(mode), data))
            == data.subrange(0, pd_out_octets(mode) as int),
        mc_direction(mc) is Write ==> request_od(master_message(mc, mseq_type_of(mode), data), mode)
            == data.subrange(
            pd_out_octets(mode) as int,
            pd_out_octets(mode) + od_octets(mode),
        ),
{
    let m = master_message(mc, mseq_type_of(mode), data);
    assert(m[0] == mc);
    if mode is Operate {
        assert(request_pd_out(m) =~= data.subrange(0, pd_out_octets(mode) as int));
    }
    if mc_direction(mc) is Write {
        assert(request_od(m, mode) =~= data.subrange(
            pd_out_octets(mode) as int,
            pd_out_octets(mode) + od_octets(mode),
        ));
    }
}

/// A read of page `address` in STARTUP.
pub fn create_startup_read_request(address: u8) -> (r: Vec<u8>)
    requires
        address < 32,
    ensures
        r@ == master_message(
            control_octet(RwDirection::Read, ComChannel::Page, address),
            mseq_type_of(DeviceOperationMode::Startup),
            Seq::empty(),
        ),
{
    let mc = control(RwDirection::Read, ComChannel::Page, address);
    build_master_message(mc, mseq_type(DeviceOperationMode::Startup), &[])
}

/// A write of `data` to page `address` in STARTUP.
pub fn create_startup_write_request(address: u8, data: u8) -> (r: Vec<u8>)
    requires
        address < 32,
    ensures
        r@ == master_message(
            control_octet(RwDirection::Write, ComChannel::Page, address),
            mseq_type_of(DeviceOperationMode::Startup),
            seq![data],
        ),
{
    let mc = control(RwDirection::Write, ComChannel::Page, address);
    let mut od: Vec<u8> = Vec::new();
    od.push(data);
    assert(od@ =~= seq![data]);
    build_master_message(mc, mseq_type(DeviceOperationMode::Startup), od.as_slice())
}

/// A read of page `address` in PREOPERATE.
pub fn create_preop_read_request(address: u8) -> (r: Vec<u8>)
    requires
        address < 32,
    ensures
        r@ == master_message(
            control_octet(RwDirection::Read, ComChannel::Page, address),
            mseq_type_of(DeviceOperationMode::PreOperate),
            Seq::empty(),
        ),
{
    let mc = control(RwDirection::Read, ComChannel::Page, address);
    build_master_message(mc, mseq_type(DeviceOperationMode::PreOperate), &[])
}

/// A write to page `address` in PREOPERATE: `data` cut or filled up with
/// zeros to the On-request Data of the mode.
pub fn create_preop_write_request(address: u8, data: &[u8]) -> (r: Vec<u8>)
    requires
        address < 32,
    ensures
        r@ == master_message(
            control_octet(RwDirection::Write, ComChannel::Page, address),
            mseq_type_of(DeviceOperationMode::PreOperate),
            fit(data@, od_octets(DeviceOperationMode::PreOperate) as nat),
        ),
{
    let mc = control(RwDirection::Write, ComChannel::Page, address);
    let mut body: Vec<u8> = Vec::new();
    push_fit(&mut body, data, od_octets_of(DeviceOperationMode::PreOperate) as usize);
    assert(body@ =~= fit(data@, od_octets(DeviceOperationMode::PreOperate) as nat));
    build_master_message(mc, mseq_type(DeviceOperationMode::PreOperate), body.as_slice())
}

/// A read of page `address` in OPERATE, with output Process Data of zeros.
pub fn create_op_read_request(address: u8) -> (r: Vec<u8>)
    requires
        address < 32,
    ensures
        r@ == master_message(
            control_octet(RwDirection::Read, ComChannel::Page, address),
            mseq_type_of(DeviceOperationMode::Operate),
            filler(0, pd_out_octets(DeviceOperationMode::Operate) as nat),
        ),
{
    let mc = control(RwDirection::Read, ComChannel::Page, address);
    let mut body: Vec<u8> = Vec::new();
    push_filler(&mut body, 0, pd_out_octets_of(DeviceOperationMode::Operate) as usize);
    assert(body@ =~= filler(0, pd_out_octets(DeviceOperationMode::Operate) as nat));
    build_master_message(mc, mseq_type(DeviceOperationMode::Operate), body.as_slice())
}

/// A write to page `address` in OPERATE: output Process Data of 99s, then
/// `data` cut or filled up with zeros to the On-request Data of the mode.
pub fn create_op_write_request(address: u8, data: &[u8]) -> (r: Vec<u8>)
    requires
        address < 32,
    ensures
        r@ == master_message(
            control_octet(RwDirection::Write, ComChannel::Page, address),
            mseq_type_of(DeviceOperationMode::Operate),
            filler(99, pd_out_octets(DeviceOperationMode::Operate) as nat) + fit(
                data@,
                od_octets(DeviceOperationMode::Operate) as nat,
            ),
        ),
{
    let mc = control(RwDirection::Write, ComChannel::Page, address);
    let mut body: Vec<u8> = Vec::new();
    push_filler(&mut body, 99, pd_out_octets_of(DeviceOperationMode::Operate) as usize);
    push_fit(&mut body, data, od_octets_of(DeviceOperationMode::Operate) as usize);
    assert(body@ =~= filler(99, pd_out_octets(DeviceOperationMode::Operate) as nat) + fit(
        data@,
        od_octets(DeviceOperationMode::Operate) as nat,
    ));
    build_master_message(mc, mseq_type(DeviceOperationMode::Operate), body.as_slice())
}

/// A write of `buffer` on the ISDU channel in PREOPERATE with flow control
/// `flow_control`.
pub fn create_preop_write_isdu_request(flow_control: u8, buffer: &[u8]) -> (r: Vec<u8>)
    requires
        flow_control < 32,
    ensures
        r@ == master_message(
            control_octet(RwDirection::Write, ComChannel::Isdu, flow_control),
            mseq_type_of(DeviceOperationMode::PreOperate),
            buffer@,
        ),
{
    let mc = control(RwDirection::Write, ComChannel::Isdu, flow_control);
    build_master_message(mc, mseq_type(DeviceOperationMode::PreOperate), buffer)
}

/// A write of `buffer` on the ISDU channel in OPERATE with flow control
/// `flow_control`, after output Process Data of 99s.
pub fn create_op_write_isdu_request(flow_control: u8, buffer: &[u8]) -> (r: Vec<u8>)
    requires
        flow_control < 32,
    ensures
        r@ == master_message(
            control_octet(RwDirection::Write, ComChannel::Isdu, flow_control),
            mseq_type_of(DeviceOperationMode::Operate),
            filler(99, pd_out_octets(DeviceOperationMode::Operate) as nat) + buffer@,
        ),
{
    let mc = control(RwDirection::Write, ComChannel::Isdu, flow_control);
    let mut body: Vec<u8> = Vec::new();
    push_filler(&mut body, 99, pd_out_octets_of(DeviceOperationMode::Operate) as usize);
    push_all(&mut body, buffer);
    build_master_message(mc, mseq_type(DeviceOperationMode::Operate), body.as_slice())
}

/// A read on the ISDU channel in PREOPERATE with flow control
/// `flow_control`.
pub fn create_preop_read_isdu_segment(flow_control: u8) -> (r: Vec<u8>)
    requires
        flow_control < 32,
    ensures
        r@ == master_message(
            control_octet(RwDirection::Read, ComChannel::Isdu, flow_control),
            mseq_type_of(DeviceOperationMode::PreOperate),
            Seq::empty(),
        ),
{
    let mc = control(RwDirection::Read, ComChannel::Isdu, flow_control);
    build_master_message(mc, mseq_type(DeviceOperationMode::PreOperate), &[])
}

/// A read on the ISDU channel in OPERATE with flow control `flow_control`,
/// with output Process Data of 99s.
pub fn create_op_read_isdu_segment(flow_control: u8) -> (r: Vec<u8>)
    requires
        flow_control < 32,
    ensures
        r@ == master_message(
            control_octet(RwDirection::Read, ComChannel::Isdu, flow_control),
            mseq_type_of(DeviceOperationMode::Operate),
            filler(99, pd_out_octets(DeviceOperationMode::Operate) as nat),
        ),
{
    let mc = control(RwDirection::Read, ComChannel::Isdu, flow_control);
    let mut body: Vec<u8> = Vec::new();
    push_filler(&mut body, 99, pd_out_octets_of(DeviceOperationMode::Operate) as usize);
    build_master_message(mc, mseq_type(DeviceOperationMode::Operate), body.as_slice())
}

/// The read that starts the transfer of an ISDU response in PREOPERATE.
pub fn create_preop_read_start_isdu_request() -> (r: Vec<u8>)
    ensures
        r@ == master_message(
            control_octet(RwDirection::Read, ComChannel::Isdu, FLOW_CTRL_START),
            mseq_type_of(DeviceOperationMode::PreOperate),
            Seq::empty(),
        ),
{
    create_preop_read_isdu_segment(FLOW_CTRL_START)
}

/// The read that starts the transfer of an ISDU response in OPERATE.
pub fn create_op_read_start_isdu_request() -> (r: Vec<u8>)
    ensures
        r@ == master_message(
            control_octet(RwDirection::Read, ComChannel::Isdu, FLOW_CTRL_START),
            mseq_type_of(DeviceOperationMode::Operate),
            filler(99, pd_out_octets(DeviceOperationMode::Operate) as nat),
        ),
{
    create_op_read_isdu_segment(FLOW_CTRL_START)
}

/// The read with flow control IDLE_1 that ends an ISDU transfer in
/// PREOPERATE.
pub fn create_preop_isdu_idle_request() -> (r: Vec<u8>)
    ensures
        r@ == master_message(
            control_octet(RwDirection::Read, ComChannel::Isdu, FLOW_CTRL_IDLE_1),
            mseq_type_of(DeviceOperationMode::PreOperate),
            Seq::empty(),
        ),
{
    create_preop_read_isdu_segment(FLOW_CTRL_IDLE_1)
}

/// The read with flow control IDLE_1 that ends an ISDU transfer in
/// OPERATE.
pub fn create_op_isdu_idle_request() -> (r: Vec<u8>)
    ensures
        r@ == master_message(
            control_octet(RwDirection::Read, ComChannel::Isdu, FLOW_CTRL_IDLE_1),
            mseq_type_of(DeviceOperationMode::Operate),
            filler(99, pd_out_octets(DeviceOperationMode::Operate) as nat),
        ),
{
    create_op_read_isdu_segment(FLOW_CTRL_IDLE_1)
}

/// The read with flow control START that completes the writing of an ISDU
/// request in PREOPERATE.
pub fn create_preop_write_isdu_complete_request() -> (r: Vec<u8>)
    ensures
        r@ == master_message(
            control_octet(RwDirection::Read, ComChannel::Isdu, FLOW_CTRL_START),
            mseq_type_of(DeviceOperationMode::PreOperate),
            Seq::empty(),
        ),
{
    create_preop_read_isdu_segment(FLOW_CTRL_START)
}

/// The six checksum bits of the second octet of `response` are
/// `expected_checksum`; false for a response shorter than two octets.
pub fn validate_checksum(response: &[u8], expected_checksum: u8) -> (r: bool)
    ensures
        r == (response@.len() >= 2 && response@[1] % 64 == expected_checksum),
{
    if response.len() < 2 {
        return false;
    }
    response[1] % 64 == expected_checksum
}

/// The check/status octet of a frame, the last one, carries in its six low
/// bits the checksum of the frame with those bits cleared.
pub open spec fn frame_checksum_valid(frame: Seq<u8>) -> bool {
    let last = frame.len() - 1;
    mseq_checksum(frame.update(last, ((frame[last] / 64) * 64) as u8)) == frame[last] % 64
}

/// Checks the checksum of a device frame; the checksum bits of its last
/// octet are left cleared.
pub fn validate_device_frame_checksum(data: &mut Vec<u8>) -> (r: bool)
    requires
        old(data)@.len() >= 1,
    ensures
        final(data)@ == old(data)@.update(
            old(data)@.len() - 1,
            ((old(data)@[old(data)@.len() - 1] / 64) * 64) as u8,
        ),
        r == frame_checksum_valid(old(data)@),
{
    let last = data.len() - 1;
    let cks = data[last];
    data.set(last, (cks / 64) * 64);
    checksum(data.as_slice()) == cks % 64
}

/// Every response that the device compiles passes the master's check of
/// its checksum.
pub proof fn device_response_validates(
    mode: DeviceOperationMode,
    rw: RwDirection,
    od: Seq<u8>,
    pd: Seq<u8>,
    event_flag: bool,
    pd_status: crate::protocol::PdStatus,
)
    ensures
        frame_checksum_valid(crate::dl::mseq::device_response(mode, rw, od, pd, event_flag, pd_status)),
{
    crate::dl::mseq::response_checks(mode, rw, od, pd, event_flag, pd_status);
}

/// The ISDU read request of an index and subindex before its CHKPDU:
/// I-Service 9 with an 8-bit index and no subindex, 0xA with an 8-bit index
/// and a subindex, 0xB with a 16-bit index, low octet first, and a
/// subindex; the length nibble is the length of the whole request.
pub open spec fn isdu_read_request_head(index: u16, sub_index: Option<u8>) -> Seq<u8> {
    if index <= 0xFF {
        match sub_index {
            None => seq![0x93u8, index as u8],
            Some(s) => seq![0xA4u8, index as u8, s],
        }
    } else {
        seq![0xB5u8, (index % 256) as u8, (index / 256) as u8, sub_index->0]
    }
}

/// The ISDU read request of an index and subindex, closed by its CHKPDU.
pub open spec fn isdu_read_request(index: u16, sub_index: Option<u8>) -> Seq<u8> {
    with_chkpdu(isdu_read_request_head(index, sub_index))
}

/// The octets that the write request builder lays out before the data:
/// I-Service 1 with an 8-bit index and the length nibble 3; I-Service 2
/// with an 8-bit index and a subindex, whose length nibble is the number of
/// data octets, or 1 with that number in the next octet where there are
/// more than 15; I-Service 3 with a 16-bit index, low octet first, a
/// subindex and the length nibble 5.
pub open spec fn isdu_write_request_head(index: u16, sub_index: Option<u8>, n: nat) -> Seq<u8> {
    if index <= 0xFF {
        match sub_index {
            None => seq![0x13u8, index as u8],
            Some(s) => if n > 15 {
                seq![0x21u8, (n % 256) as u8, index as u8, s]
            } else {
                seq![(0x20 + n) as u8, index as u8, s]
            },
        }
    } else {
        seq![0x35u8, (index % 256) as u8, (index / 256) as u8, sub_index->0]
    }
}

/// The write request that the builder lays out: its head, the data and the
/// CHKPDU.
pub open spec fn isdu_write_request_octets(index: u16, sub_index: Option<u8>, data: Seq<u8>) -> Seq<
    u8,
> {
    with_chkpdu(isdu_write_request_head(index, sub_index, data.len()) + data)
}

/// `s` closed by its CHKPDU.
fn close_with_chkpdu(s: &mut Vec<u8>)
    ensures
        final(s)@ == with_chkpdu(old(s)@),
{
    let c = xor_of(s.as_slice(), s.len());
    s.push(c);
}

/// An ISDU read request of `index` and `sub_index`; a 16-bit index needs a
/// subindex.
pub fn create_isdu_read_request(index: u16, sub_index: Option<u8>) -> (r: Vec<u8>)
    requires
        index <= 0xFF || sub_index is Some,
    ensures
        r@ == isdu_read_request(index, sub_index),
{
    let mut v: Vec<u8> = Vec::new();
    if index <= 0xFF {
        match sub_index {
            None => {
                v.push(0x93);
                v.push(index as u8);
            },
            Some(sub) => {
                v.push(0xA4);
                v.push(index as u8);
                v.push(sub);
            },
        }
    } else {
        let sub = match sub_index {
            Some(sub) => sub,
            None => 0,
        };
        v.push(0xB5);
        v.push((index % 256) as u8);
        v.push((index / 256) as u8);
        v.push(sub);
    }
    assert(v@ =~= isdu_read_request_head(index, sub_index));
    close_with_chkpdu(&mut v);
    v
}

/// An ISDU write request of `data` to `index` and `sub_index` as the
/// builder lays it out; a 16-bit index needs a subindex.
pub fn create_isdu_write_request(index: u16, sub_index: Option<u8>, data: &[u8]) -> (r: Vec<u8>)
    requires
        index <= 0xFF || sub_index is Some,
    ensures
        r@ == isdu_write_request_octets(index, sub_index, data@),
{
    let mut v: Vec<u8> = Vec::new();
    if index <= 0xFF {
        match sub_index {
            None => {
                v.push(0x13);
                v.push(index as u8);
            },
            Some(sub) => {
                if data.len() > 15 {
                    v.push(0x21);
                    v.push((data.len() % 256) as u8);
                } else {
                    v.push(0x20 + data.len() as u8);
                }
                v.push(index as u8);
                v.push(sub);
            },
        }
    } else {
        let sub = match sub_index {
            Some(sub) => sub,
            None => 0,
        };
        v.push(0x35);
        v.push((index % 256) as u8);
        v.push((index / 256) as u8);
        v.push(sub);
    }
    assert(v@ =~= isdu_write_request_head(index, sub_index, data@.len()));
    push_all(&mut v, data);
    close_with_chkpdu(&mut v);
    v
}

/// The XOR of the first `k` octets of `a + b` is that of `a` where `k`
/// stays within `a`.
proof fn lemma_xor_prefix_append(a: Seq<u8>, b: Seq<u8>, k: int)
    requires
        0 <= k <= a.len(),
    ensures
        xor_prefix(a + b, k) == xor_prefix(a, k),
    decreases k,
{
    if k > 0 {
        lemma_xor_prefix_append(a, b, k - 1);
    }
}

/// A read request built for an index and subindex, followed by whatever
/// fills up its last segment, decodes to a read of that index and subindex
/// with no data.
pub proof fn isdu_read_request_decodes(index: u16, sub_index: Option<u8>, pad: Seq<u8>)
    requires
        index <= 0xFF || sub_index is Some,
    ensures
        ({
            let rx = isdu_read_request(index, sub_index) + pad;
            &&& isdu_request_valid(rx)
            &&& request_direction(rx[0] / 16) == Some(RwDirection::Read)
            &&& isdu_request_index(rx) == index
            &&& isdu_request_subindex(rx) == (match sub_index {
                Some(s) => s,
                None => 0u8,
            })
            &&& isdu_request_data(rx) == Seq::<u8>::empty()
        }),
{
    let req = isdu_read_request(index, sub_index);
    let rx = req + pad;
    chkpdu_closes(isdu_read_request_head(index, sub_index));
    lemma_xor_prefix_append(req, pad, req.len() as int);
    assert(isdu_request_data(rx) =~= Seq::<u8>::empty());
}


/// The head of an ISDU write request as the IO-Link ISDU layout has it:
/// the I-Service octet (code 1 for an 8-bit index alone, 2 for an 8-bit
/// index and a subindex, 3 for a 16-bit index and a subindex) with the
/// whole length of the request in its low nibble, or 1 there and the
/// length in an extended length octet where it exceeds 15; then the index
/// (low octet first where it has two) and the subindex where there is one.
pub open spec fn write_request_head(index: u16, sub_index: Option<u8>, n: nat) -> Seq<u8> {
    if index <= 0xFF {
        match sub_index {
            None => if 3 + n <= 15 {
                seq![(0x10 + 3 + n) as u8, index as u8]
            } else {
                seq![0x11u8, (4 + n) as u8, index as u8]
            },
            Some(s) => if 4 + n <= 15 {
                seq![(0x20 + 4 + n) as u8, index as u8, s]
            } else {
                seq![0x21u8, (5 + n) as u8, index as u8, s]
            },
        }
    } else if 5 + n <= 15 {
        seq![(0x30 + 5 + n) as u8, (index % 256) as u8, (index / 256) as u8, sub_index->0]
    } else {
        seq![0x31u8, (6 + n) as u8, (index % 256) as u8, (index / 256) as u8, sub_index->0]
    }
}

/// An ISDU write request, followed by whatever fills up its last segment,
/// decodes to a write of its index, of its subindex (0 where the I-Service
/// carries only an index) and of its data octets: no data octet is taken
/// for a subindex, and no subindex octet for data.
pub proof fn isdu_write_request_decodes(index: u16, sub_index: Option<u8>, data: Seq<u8>, pad: Seq<u8>)
    requires
        data.len() <= 249,
        index > 0xFF ==> sub_index is Some,
    ensures
        ({
            let req = with_chkpdu(write_request_head(index, sub_index, data.len()) + data);
            let rx = req + pad;
            &&& isdu_request_valid(rx)
            &&& request_direction(rx[0] / 16) == Some(RwDirection::Write)
            &&& isdu_request_index(rx) == index
            &&& isdu_request_subindex(rx) == (match sub_index {
                Some(s) => s,
                None => 0u8,
            })
            &&& isdu_request_data(rx) == data
        }),
{
    let head = write_request_head(index, sub_index, data.len());
    let req = with_chkpdu(head + data);
    let rx = req + pad;
    chkpdu_closes(head + data);
    lemma_xor_prefix_append(req, pad, req.len() as int);
    assert(forall|k: int| 0 <= k < head.len() ==> rx[k] == head[k]);
    assert(rx[0] == head[0]);
    assert(rx[1] == head[1]);
    assert(isdu_request_data(rx) =~= data);
}

} // verus!
