//! The master's side of an ISDU transfer, as a step function that a test
//! harness drives: the request is cut into On-request Data sized frames
//! (flow control START, then counting modulo 16); the response is read
//! from a START read, which is repeated while the device answers busy,
//! abandoned where it answers ABORT, and followed by segment reads until
//! the length given by the I-Service octet is complete; an IDLE read ends
//! the transfer.
use vstd::prelude::*;
use crate::protocol::{ComChannel, DeviceOperationMode, RwDirection, FLOW_CTRL_IDLE_1, FLOW_CTRL_START};
use crate::dl::mseq::{mseq_type_of, pd_out_octets};
use crate::dev_config::on_req_data::is_valid_od_length;
use crate::al::od_handler::MAX_ISDU_LENGTH;
use crate::dl::isdu_handler::{
    isdu_head, isdu_read_success, isdu_write_success, read_response_announces_length,
    response_segment, segment_is_part_of_response, xor_prefix,
};
use crate::frame_utils::{
    control_octet, create_op_read_isdu_segment, create_op_write_isdu_request,
    create_preop_read_isdu_segment, create_preop_write_isdu_request, filler, master_message,
};

verus! {

/// Busy answers to the START read that are waited out; the answer after
/// that many ends the transfer.
pub const MAX_BUSY_ANSWERS: u8 = 5;

/// A master write on the ISDU channel with flow control `flow` carrying
/// `chunk`: TYPE_1 of PREOPERATE, or in OPERATE after output Process Data
/// of 99s.
pub open spec fn isdu_write_frame(operate: bool, flow: u8, chunk: Seq<u8>) -> Seq<u8> {
    let mc = control_octet(RwDirection::Write, ComChannel::Isdu, flow);
    if operate {
        master_message(
            mc,
            mseq_type_of(DeviceOperationMode::Operate),
            filler(99, pd_out_octets(DeviceOperationMode::Operate) as nat) + chunk,
        )
    } else {
        master_message(mc, mseq_type_of(DeviceOperationMode::PreOperate), chunk)
    }
}

/// A master read on the ISDU channel with flow control `flow`.
pub open spec fn isdu_read_frame(operate: bool, flow: u8) -> Seq<u8> {
    let mc = control_octet(RwDirection::Read, ComChannel::Isdu, flow);
    if operate {
        master_message(
            mc,
            mseq_type_of(DeviceOperationMode::Operate),
            filler(99, pd_out_octets(DeviceOperationMode::Operate) as nat),
        )
    } else {
        master_message(mc, mseq_type_of(DeviceOperationMode::PreOperate), Seq::empty())
    }
}

/// Flow control of the `k`-th frame of a request: START, then the count
/// modulo 16.
pub open spec fn isdu_flow(k: int) -> u8 {
    if k == 0 {
        FLOW_CTRL_START
    } else {
        (k % 16) as u8
    }
}

/// Chunk `k` of `request` in frames of `n` octets, filled up with zeros.
pub open spec fn isdu_chunk(request: Seq<u8>, n: u8, k: int) -> Seq<u8> {
    Seq::new(
        n as nat,
        |i: int|
            if k * n + i < request.len() {
                request[k * n + i]
            } else {
                0u8
            },
    )
}

/// The total length of a response ISDU is known from its first octets:
/// the length nibble of the I-Service octet, or the extended length
/// octet where the nibble is 1.
pub open spec fn isdu_length_known(isdu: Seq<u8>) -> bool {
    isdu.len() >= 1 && (isdu[0] % 16 != 1 || isdu.len() >= 2)
}

/// The total length of a response ISDU.
pub open spec fn isdu_total_length(isdu: Seq<u8>) -> int {
    if isdu[0] % 16 == 1 {
        isdu[1] as int
    } else {
        (isdu[0] % 16) as int
    }
}

/// The octets of a response ISDU before its data: the I-Service octet,
/// and the extended length octet where there is one.
pub open spec fn isdu_header_length(isdu: Seq<u8>) -> int {
    if isdu[0] % 16 == 1 {
        2
    } else {
        1
    }
}

/// Where the phase of a read is and what it has gathered.
#[derive(Debug)]
pub enum IsduReadPhase {
    /// The START read was sent; `busy` busy answers came so far.
    AwaitingStart { busy: u8 },
    /// The octets `isdu` of the response ISDU came so far; segment
    /// `segment` was asked for last.
    Receiving { isdu: Vec<u8>, segment: u8 },
    /// The transfer is over.
    Done,
}

/// A read of an ISDU response with `od_len` octets of On-request Data per
/// frame, in OPERATE or PREOPERATE.
#[derive(Debug)]
pub struct IsduReadState {
    pub od_len: u8,
    pub operate: bool,
    pub phase: IsduReadPhase,
}

/// What the master does after an answer.
#[derive(Debug)]
pub enum IsduReadAction {
    /// Send this frame next.
    Send(Vec<u8>),
    /// The response is complete: its I-Service octet, its data, and the
    /// IDLE read that ends the transfer.
    Finish { iservice: u8, data: Vec<u8>, idle: Vec<u8> },
    /// The device aborted the transfer.
    Aborted,
    /// The answer cannot continue the transfer.
    Failed,
}

/// What the gathered octets `isdu` of a response give, where segment
/// `segment` is asked for next: a length that leaves no room for the
/// checksum fails; a complete response finishes with its data (after the
/// header, up to the checksum); otherwise the next segment is read.
pub open spec fn isdu_received(
    st: IsduReadState,
    act: IsduReadAction,
    operate: bool,
    isdu: Seq<u8>,
    segment: u8,
) -> bool {
    if isdu_length_known(isdu) && isdu_total_length(isdu) <= isdu_header_length(isdu) {
        st.phase is Done && act is Failed
    } else if isdu_length_known(isdu) && isdu.len() >= isdu_total_length(isdu) {
        &&& st.phase is Done
        &&& act matches IsduReadAction::Finish { iservice, data, idle }
        &&& iservice == isdu[0]
        &&& data@ == isdu.subrange(isdu_header_length(isdu), isdu_total_length(isdu) - 1)
        &&& idle@ == isdu_read_frame(operate, FLOW_CTRL_IDLE_1)
    } else {
        &&& st.phase matches IsduReadPhase::Receiving { isdu: got, segment: s }
        &&& got@ == isdu
        &&& s == segment
        &&& act matches IsduReadAction::Send(f)
        &&& f@ == isdu_read_frame(operate, (segment % 16) as u8)
    }
}

/// A master read on the ISDU channel.
fn read_frame(operate: bool, flow: u8) -> (r: Vec<u8>)
    requires
        flow < 32,
    ensures
        r@ == isdu_read_frame(operate, flow),
{
    if operate {
        create_op_read_isdu_segment(flow)
    } else {
        create_preop_read_isdu_segment(flow)
    }
}

/// The frames that write `request` to the device, `od_len` octets each:
/// one frame per started chunk, the first with flow control START and
/// frame `k` after it with the count `k` modulo 16, each carrying chunk
/// `k` filled up with zeros.
pub fn isdu_request_frames(request: &[u8], od_len: u8, operate: bool) -> (r: Vec<Vec<u8>>)
    requires
        is_valid_od_length(od_len),
    ensures
        r@.len() * od_len >= request@.len(),
        r@.len() > 0 ==> (r@.len() - 1) * od_len < request@.len(),
        forall|k: int|
            0 <= k < r@.len() ==> (#[trigger] r@[k])@ == isdu_write_frame(
                operate,
                isdu_flow(k),
                isdu_chunk(request@, od_len, k),
            ),
{
    let len = request.len();
    let n = od_len as usize;
    let mut frames: Vec<Vec<u8>> = Vec::new();
    let mut off: usize = 0;
    let mut k: usize = 0;
    while off < len
        invariant
            n == od_len,
            1 <= n <= 32,
            len == request@.len(),
            off <= len,
            k == 0 ==> off == 0,
            off < len ==> off == k * n,
            off == len && k > 0 ==> k * n >= len,
            k > 0 ==> (k - 1) * n < len,
            frames@.len() == k,
            forall|j: int|
                0 <= j < k ==> (#[trigger] frames@[j])@ == isdu_write_frame(
                    operate,
                    isdu_flow(j),
                    isdu_chunk(request@, od_len, j),
                ),
        decreases len - off,
    {
        let mut chunk: Vec<u8> = Vec::new();
        let mut i: usize = 0;
        while i < n
            invariant
                off < len,
                len == request@.len(),
                i <= n,
                chunk@.len() == i,
                forall|j: int|
                    0 <= j < i ==> #[trigger] chunk@[j] == if off + j < len {
                        request@[off + j]
                    } else {
                        0u8
                    },
            decreases n - i,
        {
            let x = if i < len - off {
                request[off + i]
            } else {
                0u8
            };
            chunk.push(x);
            i = i + 1;
        }
        assert(chunk@ =~= isdu_chunk(request@, od_len, k as int));
        let flow: u8 = if k == 0 {
            FLOW_CTRL_START
        } else {
            (k % 16) as u8
        };
        let frame = if operate {
            create_op_write_isdu_request(flow, chunk.as_slice())
        } else {
            create_preop_write_isdu_request(flow, chunk.as_slice())
        };
        frames.push(frame);
        assert((k + 1) * n == k * n + n) by (nonlinear_arith);
        assert(k <= k * n) by (nonlinear_arith)
            requires
                n >= 1,
        ;
        k = k + 1;
        if len - off > n {
            off = off + n;
        } else {
            off = len;
        }
    }
    frames
}

/// The read that starts the transfer of the response, and the state that
/// awaits its answer.
pub fn isdu_read_begin(od_len: u8, operate: bool) -> (r: (IsduReadState, Vec<u8>))
    ensures
        r.0.od_len == od_len,
        r.0.operate == operate,
        r.0.phase matches IsduReadPhase::AwaitingStart { busy } && busy == 0,
        r.1@ == isdu_read_frame(operate, FLOW_CTRL_START),
{
    (
        IsduReadState { od_len, operate, phase: IsduReadPhase::AwaitingStart { busy: 0 } },
        read_frame(operate, FLOW_CTRL_START),
    )
}

/// The next state and action after the answer `response` (the device's
/// frame, On-request Data first). An answer shorter than the On-request
/// Data fails. To the START read, 0x00 is ABORT; after
/// `MAX_BUSY_ANSWERS` busy answers any answer fails; 0x01 is busy and the
/// START read is repeated; anything else is the first segment of the
/// response. Each later answer adds a segment. Once the transfer is over,
/// every answer fails.
pub fn isdu_read_step(st: IsduReadState, response: &[u8]) -> (r: (IsduReadState, IsduReadAction))
    ensures
        r.0.od_len == st.od_len,
        r.0.operate == st.operate,
        ({
            let n = st.od_len as int;
            let rsp = response@;
            match st.phase {
                IsduReadPhase::Done => r.0.phase is Done && r.1 is Failed,
                IsduReadPhase::AwaitingStart { busy } => if rsp.len() < n || rsp.len() == 0 {
                    r.0.phase is Done && r.1 is Failed
                } else if rsp[0] == 0 {
                    r.0.phase is Done && r.1 is Aborted
                } else if busy >= MAX_BUSY_ANSWERS {
                    r.0.phase is Done && r.1 is Failed
                } else if rsp[0] == 1 {
                    &&& r.0.phase matches IsduReadPhase::AwaitingStart { busy: b } && b == busy + 1
                    &&& r.1 matches IsduReadAction::Send(f) && f@ == isdu_read_frame(
                        st.operate,
                        FLOW_CTRL_START,
                    )
                } else {
                    isdu_received(r.0, r.1, st.operate, rsp.subrange(0, n), 1)
                },
                IsduReadPhase::Receiving { isdu, segment } => if rsp.len() < n || segment
                    >= 255 {
                    r.0.phase is Done && r.1 is Failed
                } else {
                    isdu_received(
                        r.0,
                        r.1,
                        st.operate,
                        isdu@ + rsp.subrange(0, n),
                        (segment + 1) as u8,
                    )
                },
            }
        }),
{
    let n = st.od_len as usize;
    let operate = st.operate;
    let od_len = st.od_len;
    let done = IsduReadState { od_len, operate, phase: IsduReadPhase::Done };
    match st.phase {
        IsduReadPhase::Done => (done, IsduReadAction::Failed),
        IsduReadPhase::AwaitingStart { busy } => {
            if response.len() < n || response.len() == 0 {
                (done, IsduReadAction::Failed)
            } else if response[0] == 0 {
                (done, IsduReadAction::Aborted)
            } else if busy >= MAX_BUSY_ANSWERS {
                (done, IsduReadAction::Failed)
            } else if response[0] == 1 {
                (
                    IsduReadState {
                        od_len,
                        operate,
                        phase: IsduReadPhase::AwaitingStart { busy: busy + 1 },
                    },
                    IsduReadAction::Send(read_frame(operate, FLOW_CTRL_START)),
                )
            } else {
                let mut isdu: Vec<u8> = Vec::new();
                append_prefix(&mut isdu, response, n);
                assert(isdu@ =~= response@.subrange(0, n as int));
                receive(od_len, operate, isdu, 1)
            }
        },
        IsduReadPhase::Receiving { isdu, segment } => {
            if response.len() < n || segment >= 255 {
                (done, IsduReadAction::Failed)
            } else {
                let mut isdu = isdu;
                append_prefix(&mut isdu, response, n);
                receive(od_len, operate, isdu, segment + 1)
            }
        },
    }
}

/// Appends the first `n` octets of `s`.
fn append_prefix(out: &mut Vec<u8>, s: &[u8], n: usize)
    requires
        n <= s@.len(),
    ensures
        final(out)@ == old(out)@ + s@.subrange(0, n as int),
{
    let mut i: usize = 0;
    while i < n
        invariant
            i <= n,
            n <= s@.len(),
            out@ == old(out)@ + s@.subrange(0, i as int),
        decreases n - i,
    {
        out.push(s[i]);
        i = i + 1;
        assert(out@ =~= old(out)@ + s@.subrange(0, i as int));
    }
}

/// The decision on the gathered octets `isdu`, with segment `segment` to
/// be asked for next.
fn receive(od_len: u8, operate: bool, isdu: Vec<u8>, segment: u8) -> (r: (IsduReadState, IsduReadAction))
    ensures
        r.0.od_len == od_len,
        r.0.operate == operate,
        isdu_received(r.0, r.1, operate, isdu@, segment),
{
    let done = IsduReadState { od_len, operate, phase: IsduReadPhase::Done };
    let known = isdu.len() >= 1 && (isdu[0] % 16 != 1 || isdu.len() >= 2);
    if known {
        let extended = isdu[0] % 16 == 1;
        let total: usize = if extended {
            isdu[1] as usize
        } else {
            (isdu[0] % 16) as usize
        };
        let header: usize = if extended {
            2
        } else {
            1
        };
        if total <= header {
            return (done, IsduReadAction::Failed);
        }
        if isdu.len() >= total {
            let mut data: Vec<u8> = Vec::new();
            let mut i: usize = header;
            while i < total - 1
                invariant
                    header <= i <= total - 1,
                    total <= isdu@.len(),
                    data@ == isdu@.subrange(header as int, i as int),
                decreases total - 1 - i,
            {
                data.push(isdu[i]);
                i = i + 1;
                assert(data@ =~= isdu@.subrange(header as int, i as int));
            }
            let iservice = isdu[0];
            return (
                done,
                IsduReadAction::Finish { iservice, data, idle: read_frame(operate, FLOW_CTRL_IDLE_1) },
            );
        }
    }
    let frame = read_frame(operate, segment % 16);
    (
        IsduReadState { od_len, operate, phase: IsduReadPhase::Receiving { isdu, segment } },
        IsduReadAction::Send(frame),
    )
}


/// A response ISDU that announces its own length: at least the I-Service
/// octet and the checksum, an I-Service octet that is neither "no service"
/// nor "busy", and a length nibble that gives the whole length, or is 1
/// with the whole length in the next octet.
pub open spec fn announces_length(tx: Seq<u8>) -> bool {
    &&& 2 <= tx.len() <= 255
    &&& tx[0] != 0 && tx[0] != 1
    &&& if tx.len() <= 15 {
        tx[0] % 16 == tx.len()
    } else {
        tx[0] % 16 == 1 && tx[1] == tx.len()
    }
}

/// The octets that the master has gathered after `k` segments of `n`
/// octets of the response `tx`: the response filled up with zeros, up to
/// the end of segment `k - 1`.
pub open spec fn gathered(tx: Seq<u8>, n: int, k: int) -> Seq<u8> {
    (tx + Seq::new(n as nat, |i: int| 0u8)).subrange(0, n * k)
}

/// The master reads back what the device sends. Where the device answers
/// the reads of a transfer with the segments of a response that announces
/// its length (segment `j` being `response_segment(tx, j, n)`), the octets
/// gathered grow by one segment per read; while the response is not
/// complete the master asks for the next segment; once the segments cover
/// it, the transfer finishes with the response's I-Service octet and its
/// data, the octets between its header and its checksum.
pub proof fn master_reads_device_response(tx: Seq<u8>, n: int, k: int)
    requires
        announces_length(tx),
        1 <= n,
        1 <= k,
        n * (k - 1) < tx.len(),
    ensures
        gathered(tx, n, k) == gathered(tx, n, k - 1) + response_segment(tx, k - 1, n),
        gathered(tx, n, k)[0] != 0 && gathered(tx, n, k)[0] != 1,
        tx.len() > n * k ==> !(isdu_length_known(gathered(tx, n, k)) && (isdu_total_length(
            gathered(tx, n, k),
        ) <= isdu_header_length(gathered(tx, n, k)) || gathered(tx, n, k).len()
            >= isdu_total_length(gathered(tx, n, k)))),
        tx.len() <= n * k ==> ({
            let g = gathered(tx, n, k);
            &&& isdu_length_known(g)
            &&& isdu_total_length(g) == tx.len()
            &&& isdu_header_length(g) < isdu_total_length(g)
            &&& g.len() >= isdu_total_length(g)
            &&& g[0] == tx[0]
            &&& g.subrange(isdu_header_length(g), isdu_total_length(g) - 1) == tx.subrange(
                isdu_header_length(g),
                tx.len() - 1,
            )
        }),
{
    let padded = tx + Seq::new(n as nat, |i: int| 0u8);
    assert(n * k == n * (k - 1) + n) by (nonlinear_arith);
    assert(n * (k - 1) >= 0) by (nonlinear_arith)
        requires
            n >= 1,
            k >= 1,
    ;
    segment_is_part_of_response(tx, k - 1, n);
    assert(gathered(tx, n, k) =~= gathered(tx, n, k - 1) + response_segment(tx, k - 1, n));
    let g = gathered(tx, n, k);
    assert(g[0] == tx[0]);
    if tx.len() <= n * k {
        assert(g[1] == tx[1]);
        assert(g.subrange(isdu_header_length(g), isdu_total_length(g) - 1) =~= tx.subrange(
            isdu_header_length(g),
            tx.len() - 1,
        ));
    } else {
        if g.len() >= 2 {
            assert(g[1] == tx[1]);
        }
    }
}

/// A read response (+) announces its length, and the data between its
/// header and its checksum are the data it carries.
pub proof fn read_success_announces_length(data: Seq<u8>)
    requires
        data.len() <= MAX_ISDU_LENGTH,
    ensures
        announces_length(isdu_read_success(data)),
        ({
            let tx = isdu_read_success(data);
            tx.subrange(isdu_header_length(tx), tx.len() - 1) == data
        }),
{
    read_response_announces_length(data);
    let tx = isdu_read_success(data);
    let h = isdu_head(0xD, data.len());
    assert(tx =~= (h + data).push(xor_prefix(h + data, (h + data).len() as int)));
    assert(tx[0] == h[0]);
    assert(isdu_header_length(tx) == h.len());
    assert(tx.subrange(h.len() as int, tx.len() - 1) =~= data);
}

/// A write response (+) announces its length and carries no data.
pub proof fn write_success_announces_length()
    ensures
        announces_length(isdu_write_success()),
        isdu_write_success().subrange(isdu_header_length(isdu_write_success()), 1) == Seq::<
            u8,
        >::empty(),
{
    let tx = isdu_write_success();
    assert(xor_prefix(seq![0x52u8], 1) == 0x52u8) by {
        assert(xor_prefix(seq![0x52u8], 0) == 0u8);
        assert(0u8 ^ 0x52u8 == 0x52u8) by (bit_vector);
    }
    assert(tx =~= seq![0x52u8, 0x52u8]);
}


/// The chunks `0..k` of `request`, one after another.
pub open spec fn chunks_joined(request: Seq<u8>, n: u8, k: int) -> Seq<u8>
    decreases k,
{
    if k <= 0 {
        Seq::empty()
    } else {
        chunks_joined(request, n, k - 1) + isdu_chunk(request, n, k - 1)
    }
}

/// What the device gathers from the frames of a request: the chunks that
/// the frames carry (the first starting the request, each later one
/// appended) join up to the request, filled up with zeros to whole frames.
pub proof fn request_chunks_rebuild(request: Seq<u8>, n: u8, k: int)
    requires
        0 <= k,
    ensures
        chunks_joined(request, n, k) == Seq::new(
            (n * k) as nat,
            |i: int|
                if i < request.len() {
                    request[i]
                } else {
                    0u8
                },
        ),
    decreases k,
{
    assert(n * k >= 0) by (nonlinear_arith)
        requires
            k >= 0,
    ;
    if k > 0 {
        request_chunks_rebuild(request, n, k - 1);
        assert(n * k == n * (k - 1) + n) by (nonlinear_arith);
        assert((k - 1) * n == n * (k - 1)) by (nonlinear_arith);
        assert(chunks_joined(request, n, k) =~= Seq::new(
            (n * k) as nat,
            |i: int|
                if i < request.len() {
                    request[i]
                } else {
                    0u8
                },
        ));
    } else {
        assert(n * k == 0) by (nonlinear_arith)
            requires
                k == 0,
        ;
        assert(chunks_joined(request, n, k) =~= Seq::new(
            (n * k) as nat,
            |i: int|
                if i < request.len() {
                    request[i]
                } else {
                    0u8
                },
        ));
    }
}

} // verus!
