//! Direct Parameter page 1 values and their one-octet encodings
//! (MinCycleTime, M-sequenceCapability, RevisionID, ProcessDataIn,
//! ProcessDataOut) and the identification and communication parameter sets.
use vstd::prelude::*;
use crate::protocol::{SioMode, TransmissionRate};

verus! {

/// MinCycleTime: bits 0-5 hold the multiplier, bits 6-7 the time base
/// (0b00 = 0.1 ms, 0b01 = 0.4 ms, 0b10 = 1.6 ms, 0b11 reserved).
#[derive(Debug, Clone, Copy, PartialEq, Eq, Structural)]
pub struct CycleTime {
    /// Bits 0-5: multiplier.
    pub multiplier: u8,
    /// Bits 6-7: time base.
    pub time_base: u8,
}

/// The octet that encodes a cycle time; out-of-range fields are masked.
pub open spec fn cycle_time_to_byte(c: CycleTime) -> u8 {
    ((c.time_base & 3u8) << 6u8) | (c.multiplier & 0x3fu8)
}

/// The cycle time that an octet encodes.
pub open spec fn cycle_time_from_byte(b: u8) -> CycleTime {
    CycleTime { multiplier: b & 0x3fu8, time_base: b >> 6u8 }
}

impl CycleTime {
    /// Both fields fit their bit widths.
    pub open spec fn wf(&self) -> bool {
        self.multiplier < 64 && self.time_base < 4
    }

    /// A cycle time with multiplier and time base 0.
    pub fn new() -> (r: CycleTime)
        ensures
            r.multiplier == 0 && r.time_base == 0,
    {
        CycleTime { multiplier: 0, time_base: 0 }
    }

    /// Encodes the cycle time as one octet.
    pub fn into_bits(&self) -> (r: u8)
        ensures
            r == cycle_time_to_byte(*self),
    {
        ((self.time_base & 3) << 6) | (self.multiplier & 0x3f)
    }

    /// Decodes a cycle time from one octet.
    pub fn from_bits(b: u8) -> (r: CycleTime)
        ensures
            r == cycle_time_from_byte(b),
            r.wf(),
    {
        assert((b & 0x3fu8) < 64 && (b >> 6u8) < 4) by (bit_vector);
        CycleTime { multiplier: b & 0x3f, time_base: b >> 6 }
    }
}

/// Encoding an octet's cycle time gives the octet back.
pub proof fn cycle_time_byte_round_trip(b: u8)
    ensures
        cycle_time_to_byte(cycle_time_from_byte(b)) == b,
{
    assert((((b >> 6u8) & 3u8) << 6u8) | ((b & 0x3fu8) & 0x3fu8) == b) by (bit_vector);
}

/// Decoding the encoding of a well-formed cycle time gives it back.
pub proof fn cycle_time_value_round_trip(c: CycleTime)
    requires
        c.wf(),
    ensures
        cycle_time_from_byte(cycle_time_to_byte(c)) == c,
{
    let m = c.multiplier;
    let t = c.time_base;
    assert(((((t & 3u8) << 6u8) | (m & 0x3fu8)) & 0x3fu8) == m
        && ((((t & 3u8) << 6u8) | (m & 0x3fu8)) >> 6u8) == t) by (bit_vector)
        requires
            m < 64u8,
            t < 4u8,
    ;
}

/// M-sequenceCapability: bit 0 ISDU support, bits 1-3 the OPERATE
/// M-sequence code, bits 4-5 the PREOPERATE M-sequence code, bits 6-7
/// reserved.
#[derive(Debug, Clone, Copy, PartialEq, Eq, Structural)]
pub struct MsequenceCapability {
    /// Bit 0: ISDU supported.
    pub isdu: bool,
    /// Bits 1-3: OPERATE M-sequence code.
    pub operate_m_sequence: u8,
    /// Bits 4-5: PREOPERATE M-sequence code.
    pub preoperate_m_sequence: u8,
}

/// The octet that encodes an M-sequence capability; reserved bits are 0.
pub open spec fn msequence_capability_to_byte(m: MsequenceCapability) -> u8 {
    ((m.preoperate_m_sequence & 3u8) << 4u8) | ((m.operate_m_sequence & 7u8) << 1u8) | (
    if m.isdu {
        1u8
    } else {
        0u8
    })
}

/// The M-sequence capability that an octet encodes; reserved bits are ignored.
pub open spec fn msequence_capability_from_byte(b: u8) -> MsequenceCapability {
    MsequenceCapability {
        isdu: (b & 1u8) == 1u8,
        operate_m_sequence: (b >> 1u8) & 7u8,
        preoperate_m_sequence: (b >> 4u8) & 3u8,
    }
}

impl MsequenceCapability {
    /// Both codes fit their bit widths.
    pub open spec fn wf(&self) -> bool {
        self.operate_m_sequence < 8 && self.preoperate_m_sequence < 4
    }

    /// A capability with no ISDU and both codes 0.
    pub fn new() -> (r: MsequenceCapability)
        ensures
            !r.isdu && r.operate_m_sequence == 0 && r.preoperate_m_sequence == 0,
    {
        MsequenceCapability { isdu: false, operate_m_sequence: 0, preoperate_m_sequence: 0 }
    }

    /// Encodes the capability as one octet.
    pub fn into_bits(&self) -> (r: u8)
        ensures
            r == msequence_capability_to_byte(*self),
    {
        let i: u8 = if self.isdu {
            1
        } else {
            0
        };
        ((self.preoperate_m_sequence & 3) << 4) | ((self.operate_m_sequence & 7) << 1) | i
    }

    /// Decodes a capability from one octet.
    pub fn from_bits(b: u8) -> (r: MsequenceCapability)
        ensures
            r == msequence_capability_from_byte(b),
            r.wf(),
    {
        assert(((b >> 1u8) & 7u8) < 8 && ((b >> 4u8) & 3u8) < 4) by (bit_vector);
        MsequenceCapability {
            isdu: (b & 1) == 1,
            operate_m_sequence: (b >> 1) & 7,
            preoperate_m_sequence: (b >> 4) & 3,
        }
    }
}

/// Encoding an octet's capability gives the octet with its reserved bits cleared.
pub proof fn msequence_capability_byte_round_trip(b: u8)
    ensures
        msequence_capability_to_byte(msequence_capability_from_byte(b)) == b & 0x3fu8,
{
    if (b & 1u8) == 1u8 {
        assert((b & 1u8) == 1u8 ==> ((((b >> 4u8) & 3u8) & 3u8) << 4u8) | ((((b >> 1u8) & 7u8)
            & 7u8) << 1u8) | 1u8 == b & 0x3fu8) by (bit_vector);
    } else {
        assert((b & 1u8) != 1u8 ==> ((((b >> 4u8) & 3u8) & 3u8) << 4u8) | ((((b >> 1u8) & 7u8)
            & 7u8) << 1u8) | 0u8 == b & 0x3fu8) by (bit_vector);
    }
}

/// Decoding the encoding of a well-formed capability gives it back.
pub proof fn msequence_capability_value_round_trip(m: MsequenceCapability)
    requires
        m.wf(),
    ensures
        msequence_capability_from_byte(msequence_capability_to_byte(m)) == m,
{
    let o = m.operate_m_sequence;
    let p = m.preoperate_m_sequence;
    let i: u8 = if m.isdu {
        1
    } else {
        0
    };
    assert({
        let x = ((p & 3u8) << 4u8) | ((o & 7u8) << 1u8) | i;
        &&& ((x & 1u8) == 1u8) == (i == 1u8)
        &&& ((x >> 1u8) & 7u8) == o
        &&& ((x >> 4u8) & 3u8) == p
    }) by (bit_vector)
        requires
            o < 8u8,
            p < 4u8,
            i == 0u8 || i == 1u8,
    ;
}

/// RevisionID: bits 0-3 the minor revision, bits 4-7 the major revision.
#[derive(Debug, Clone, Copy, PartialEq, Eq, Structural)]
pub struct RevisionId {
    /// Bits 0-3: minor revision.
    pub minor_rev: u8,
    /// Bits 4-7: major revision.
    pub major_rev: u8,
}

/// The octet that encodes a revision identifier.
pub open spec fn revision_id_to_byte(r: RevisionId) -> u8 {
    ((r.major_rev & 0xfu8) << 4u8) | (r.minor_rev & 0xfu8)
}

/// The revision identifier that an octet encodes.
pub open spec fn revision_id_from_byte(b: u8) -> RevisionId {
    RevisionId { minor_rev: b & 0xfu8, major_rev: b >> 4u8 }
}

impl RevisionId {
    /// Both digits fit four bits.
    pub open spec fn wf(&self) -> bool {
        self.minor_rev < 16 && self.major_rev < 16
    }

    /// Revision 0.0.
    pub fn new() -> (r: RevisionId)
        ensures
            r.minor_rev == 0 && r.major_rev == 0,
    {
        RevisionId { minor_rev: 0, major_rev: 0 }
    }

    /// Encodes the revision identifier as one octet.
    pub fn into_bits(&self) -> (r: u8)
        ensures
            r == revision_id_to_byte(*self),
    {
        ((self.major_rev & 0xf) << 4) | (self.minor_rev & 0xf)
    }

    /// Decodes a revision identifier from one octet.
    pub fn from_bits(b: u8) -> (r: RevisionId)
        ensures
            r == revision_id_from_byte(b),
            r.wf(),
    {
        assert((b & 0xfu8) < 16 && (b >> 4u8) < 16) by (bit_vector);
        RevisionId { minor_rev: b & 0xf, major_rev: b >> 4 }
    }
}

/// Encoding an octet's revision identifier gives the octet back.
pub proof fn revision_id_byte_round_trip(b: u8)
    ensures
        revision_id_to_byte(revision_id_from_byte(b)) == b,
{
    assert((((b >> 4u8) & 0xfu8) << 4u8) | ((b & 0xfu8) & 0xfu8) == b) by (bit_vector);
}

/// Decoding the encoding of a well-formed revision identifier gives it back.
pub proof fn revision_id_value_round_trip(r: RevisionId)
    requires
        r.wf(),
    ensures
        revision_id_from_byte(revision_id_to_byte(r)) == r,
{
    let mi = r.minor_rev;
    let ma = r.major_rev;
    assert(((((ma & 0xfu8) << 4u8) | (mi & 0xfu8)) & 0xfu8) == mi && ((((ma & 0xfu8) << 4u8) | (
    mi & 0xfu8)) >> 4u8) == ma) by (bit_vector)
        requires
            mi < 16u8,
            ma < 16u8,
    ;
}

/// ProcessDataIn: bits 0-4 the length, bit 5 reserved, bit 6 SIO support,
/// bit 7 BYTE (length in octets rather than bits).
#[derive(Debug, Clone, Copy, PartialEq, Eq, Structural)]
pub struct ProcessDataIn {
    /// Bit 7: BYTE.
    pub byte: bool,
    /// Bit 6: SIO.
    pub sio: bool,
    /// Bits 0-4: length.
    pub length: u8,
}

/// The octet that encodes a ProcessDataIn value; the reserved bit is 0.
pub open spec fn process_data_in_to_byte(p: ProcessDataIn) -> u8 {
    (if p.byte {
        0x80u8
    } else {
        0u8
    }) | (if p.sio {
        0x40u8
    } else {
        0u8
    }) | (p.length & 0x1fu8)
}

/// The ProcessDataIn value that an octet encodes; the reserved bit is ignored.
pub open spec fn process_data_in_from_byte(b: u8) -> ProcessDataIn {
    ProcessDataIn { byte: (b & 0x80u8) != 0u8, sio: (b & 0x40u8) != 0u8, length: b & 0x1fu8 }
}

impl ProcessDataIn {
    /// The length fits five bits.
    pub open spec fn wf(&self) -> bool {
        self.length < 32
    }

    /// No process data, no SIO, bit-structured.
    pub fn new() -> (r: ProcessDataIn)
        ensures
            !r.byte && !r.sio && r.length == 0,
    {
        ProcessDataIn { byte: false, sio: false, length: 0 }
    }

    /// Encodes the value as one octet.
    pub fn into_bits(&self) -> (r: u8)
        ensures
            r == process_data_in_to_byte(*self),
    {
        let b: u8 = if self.byte {
            0x80
        } else {
            0
        };
        let s: u8 = if self.sio {
            0x40
        } else {
            0
        };
        b | s | (self.length & 0x1f)
    }

    /// Decodes a value from one octet.
    pub fn from_bits(b: u8) -> (r: ProcessDataIn)
        ensures
            r == process_data_in_from_byte(b),
            r.wf(),
    {
        assert((b & 0x1fu8) < 32) by (bit_vector);
        ProcessDataIn { byte: (b & 0x80) != 0, sio: (b & 0x40) != 0, length: b & 0x1f }
    }
}

/// Encoding an octet's ProcessDataIn value gives the octet with bit 5 cleared.
pub proof fn process_data_in_byte_round_trip(b: u8)
    ensures
        process_data_in_to_byte(process_data_in_from_byte(b)) == b & 0xdfu8,
{
    assert(((if (b & 0x80u8) != 0u8 {
        0x80u8
    } else {
        0u8
    }) | (if (b & 0x40u8) != 0u8 {
        0x40u8
    } else {
        0u8
    }) | ((b & 0x1fu8) & 0x1fu8)) == b & 0xdfu8) by (bit_vector);
}

/// Decoding the encoding of a well-formed ProcessDataIn value gives it back.
pub proof fn process_data_in_value_round_trip(p: ProcessDataIn)
    requires
        p.wf(),
    ensures
        process_data_in_from_byte(process_data_in_to_byte(p)) == p,
{
    let l = p.length;
    let bb: u8 = if p.byte {
        0x80
    } else {
        0
    };
    let ss: u8 = if p.sio {
        0x40
    } else {
        0
    };
    assert({
        let x = bb | ss | (l & 0x1fu8);
        &&& ((x & 0x80u8) != 0u8) == (bb == 0x80u8)
        &&& ((x & 0x40u8) != 0u8) == (ss == 0x40u8)
        &&& (x & 0x1fu8) == l
    }) by (bit_vector)
        requires
            l < 32u8,
            bb == 0u8 || bb == 0x80u8,
            ss == 0u8 || ss == 0x40u8,
    ;
}

/// ProcessDataOut: bits 0-4 the length, bits 5-6 reserved, bit 7 BYTE.
#[derive(Debug, Clone, Copy, PartialEq, Eq, Structural)]
pub struct ProcessDataOut {
    /// Bits 0-4: length.
    pub length: u8,
    /// Bit 7: BYTE.
    pub byte: bool,
}

/// The octet that encodes a ProcessDataOut value; reserved bits are 0.
pub open spec fn process_data_out_to_byte(p: ProcessDataOut) -> u8 {
    (if p.byte {
        0x80u8
    } else {
        0u8
    }) | (p.length & 0x1fu8)
}

/// The ProcessDataOut value that an octet encodes; reserved bits are ignored.
pub open spec fn process_data_out_from_byte(b: u8) -> ProcessDataOut {
    ProcessDataOut { length: b & 0x1fu8, byte: (b & 0x80u8) != 0u8 }
}

impl ProcessDataOut {
    /// The length fits five bits.
    pub open spec fn wf(&self) -> bool {
        self.length < 32
    }

    /// No process data, bit-structured.
    pub fn new() -> (r: ProcessDataOut)
        ensures
            !r.byte && r.length == 0,
    {
        ProcessDataOut { length: 0, byte: false }
    }

    /// Encodes the value as one octet.
    pub fn into_bits(&self) -> (r: u8)
        ensures
            r == process_data_out_to_byte(*self),
    {
        let b: u8 = if self.byte {
            0x80
        } else {
            0
        };
        b | (self.length & 0x1f)
    }

    /// Decodes a value from one octet.
    pub fn from_bits(b: u8) -> (r: ProcessDataOut)
        ensures
            r == process_data_out_from_byte(b),
            r.wf(),
    {
        assert((b & 0x1fu8) < 32) by (bit_vector);
        ProcessDataOut { length: b & 0x1f, byte: (b & 0x80) != 0 }
    }
}

/// Encoding an octet's ProcessDataOut value gives the octet with bits 5-6 cleared.
pub proof fn process_data_out_byte_round_trip(b: u8)
    ensures
        process_data_out_to_byte(process_data_out_from_byte(b)) == b & 0x9fu8,
{
    assert(((if (b & 0x80u8) != 0u8 {
        0x80u8
    } else {
        0u8
    }) | ((b & 0x1fu8) & 0x1fu8)) == b & 0x9fu8) by (bit_vector);
}

/// Decoding the encoding of a well-formed ProcessDataOut value gives it back.
pub proof fn process_data_out_value_round_trip(p: ProcessDataOut)
    requires
        p.wf(),
    ensures
        process_data_out_from_byte(process_data_out_to_byte(p)) == p,
{
    let l = p.length;
    let bb: u8 = if p.byte {
        0x80
    } else {
        0
    };
    assert({
        let x = bb | (l & 0x1fu8);
        &&& ((x & 0x80u8) != 0u8) == (bb == 0x80u8)
        &&& (x & 0x1fu8) == l
    }) by (bit_vector)
        requires
            l < 32u8,
            bb == 0u8 || bb == 0x80u8,
    ;
}

/// Identification of a device: VendorID, DeviceID, FunctionID.
#[derive(Debug, Clone, Copy)]
pub struct DeviceIdent {
    /// VendorID, two octets.
    pub vendor_id: [u8; 2],
    /// DeviceID, three octets.
    pub device_id: [u8; 3],
    /// FunctionID, two octets.
    pub function_id: [u8; 2],
}

impl DeviceIdent {
    /// An identification with every octet 0.
    pub fn new() -> (r: DeviceIdent)
        ensures
            r.vendor_id@ == seq![0u8, 0u8],
            r.device_id@ == seq![0u8, 0u8, 0u8],
            r.function_id@ == seq![0u8, 0u8],
    {
        DeviceIdent { vendor_id: [0, 0], device_id: [0, 0, 0], function_id: [0, 0] }
    }
}

/// The communication parameters of a new device: SIO inactive, COM1, and
/// every encoded field 0.
pub open spec fn default_device_com() -> DeviceCom {
    DeviceCom {
        suppported_sio_mode: SioMode::Inactive,
        transmission_rate: TransmissionRate::Com1,
        min_cycle_time: CycleTime { multiplier: 0, time_base: 0 },
        msequence_capability: MsequenceCapability {
            isdu: false,
            operate_m_sequence: 0,
            preoperate_m_sequence: 0,
        },
        revision_id: RevisionId { minor_rev: 0, major_rev: 0 },
        process_data_in: ProcessDataIn { byte: false, sio: false, length: 0 },
        process_data_out: ProcessDataOut { length: 0, byte: false },
    }
}

/// Communication parameters of a device (SM_SetDeviceCom).
#[derive(Debug, Clone, Copy, PartialEq, Eq, Structural)]
pub struct DeviceCom {
    /// Supported SIO mode.
    pub suppported_sio_mode: SioMode,
    /// Transmission rate.
    pub transmission_rate: TransmissionRate,
    /// Minimum cycle time.
    pub min_cycle_time: CycleTime,
    /// M-sequence capability.
    pub msequence_capability: MsequenceCapability,
    /// Protocol revision.
    pub revision_id: RevisionId,
    /// Process data input description.
    pub process_data_in: ProcessDataIn,
    /// Process data output description.
    pub process_data_out: ProcessDataOut,
}

impl DeviceCom {
    /// SIO inactive, COM1, and every encoded field 0.
    pub fn new() -> (r: DeviceCom)
        ensures
            r == default_device_com(),
            r.suppported_sio_mode == SioMode::Inactive,
            r.transmission_rate == TransmissionRate::Com1,
            r.min_cycle_time == (CycleTime { multiplier: 0, time_base: 0 }),
            r.msequence_capability == (MsequenceCapability {
                isdu: false,
                operate_m_sequence: 0,
                preoperate_m_sequence: 0,
            }),
            r.revision_id == (RevisionId { minor_rev: 0, major_rev: 0 }),
            r.process_data_in == (ProcessDataIn { byte: false, sio: false, length: 0 }),
            r.process_data_out == (ProcessDataOut { length: 0, byte: false }),
    {
        DeviceCom {
            suppported_sio_mode: SioMode::Inactive,
            transmission_rate: TransmissionRate::Com1,
            min_cycle_time: CycleTime::new(),
            msequence_capability: MsequenceCapability::new(),
            revision_id: RevisionId::new(),
            process_data_in: ProcessDataIn::new(),
            process_data_out: ProcessDataOut::new(),
        }
    }
}

} // verus!
