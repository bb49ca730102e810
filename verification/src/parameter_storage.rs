//! Parameter storage of the device (Annex B.1, B.8): Direct Parameter page 1,
//! SystemCommand, the Data Storage index and the identification strings,
//! each addressed by index and subindex, with its length and access right.
use vstd::prelude::*;
use crate::bounded::{index_memory_bytes, index_memory_extend, index_memory_new};
use crate::dev_config::process_data::{
    m_sequence_capability_parameter, pd_in_parameter, pd_out_parameter,
};
use crate::dev_config::timings::{min_cycle_time_parameter, spec_min_cycle_time_parameter};
use crate::dev_config::vendor_specifics::{
    device_id_1, device_id_2, device_id_3, function_id_1, function_id_2, product_name_bytes,
    revision_id, spec_product_name_bytes, spec_revision_id, spec_vendor_name_bytes,
    vendor_id_1, vendor_id_2, vendor_name_bytes, DEVICE_ID_1, DEVICE_ID_2, DEVICE_ID_3,
    FUNCTION_ID_1, FUNCTION_ID_2, VENDOR_ID_1, VENDOR_ID_2,
};
use crate::page1::{
    cycle_time_to_byte, msequence_capability_to_byte, process_data_in_to_byte,
    process_data_out_to_byte, MsequenceCapability, ProcessDataIn, ProcessDataOut,
};
use crate::dev_config::process_data::{OPERATE_M_SEQUENCE_CODE, PREOPERATE_M_SEQUENCE_CODE};

verus! {

/// Access rights of a parameter.
#[derive(Debug, Clone, Copy, PartialEq, Eq, Structural)]
pub enum AccessRight {
    /// The parameter can only be read.
    ReadOnly,
    /// The parameter can only be written.
    WriteOnly,
    /// The parameter can be read and written.
    ReadWrite,
}

/// Errors of parameter access.
#[derive(Debug, Clone, Copy, PartialEq, Eq, Structural)]
pub enum ParameterError {
    /// The index is not available.
    IndexNotAvailable,
    /// The subindex is not available.
    SubindexNotAvailable,
    /// The service is not available.
    ServiceNotAvailable,
    /// The service is not available because of local control.
    ServiceNotAvailableLocalControl,
    /// The service is not available because of device control.
    ServiceNotAvailableDeviceControl,
    /// The access right does not allow the access.
    AccessDenied,
    /// The value is out of range.
    ValueOutOfRange,
    /// The value is above its limit.
    ValueAboveLimit,
    /// The value is below its limit.
    ValueBelowLimit,
    /// The data is longer than the parameter.
    LengthOverrun,
    /// The data is shorter than the parameter.
    LengthUnderrun,
    /// The function is not available.
    FunctionNotAvailable,
    /// The function is temporarily unavailable.
    FunctionTemporarilyUnavailable,
    /// The parameter set is invalid.
    InvalidParameterSet,
    /// The parameter set is inconsistent.
    InconsistentParameterSet,
    /// The application is not ready.
    ApplicationNotReady,
}

/// Description of one parameter of the storage.
#[derive(Debug, Clone)]
pub struct ParameterInfo {
    /// Index of the parameter.
    pub index: u16,
    /// Subindex of the parameter.
    pub subindex: u8,
    /// Length of the value in octets.
    pub length: usize,
    /// Range of the octet positions of the value.
    pub range: Option<core::ops::Range<u8>>,
    /// Access right of the parameter.
    pub access: AccessRight,
    /// Name of the data type of the value.
    pub data_type: &'static str,
}

/// Number of parameters in the storage.
pub const PARAMETER_COUNT: usize = 23;

/// Length of the longest parameter.
pub const MAX_PARAMETER_LENGTH: usize = 30;

/// Total length of the longest index, and capacity of a read of a whole
/// index.
pub const MAX_INDEX_MEMORY_LENGTH: usize = 34;

/// The error for an index and subindex that address no entry: the index
/// has entries, but none with that subindex, or it has none at all.
pub open spec fn missing_entry_error(index: u16) -> ParameterError {
    if index_span(index).0 < index_span(index).1 {
        ParameterError::SubindexNotAvailable
    } else {
        ParameterError::IndexNotAvailable
    }
}

/// Index and subindex of each entry of the storage, in storage order.
pub open spec fn slot_key(i: int) -> (u16, u8) {
    if 0 <= i <= 13 {
        (0x0000, i as u8)
    } else if i == 14 {
        (0x0000, 0x0F)
    } else if i == 15 {
        (0x0002, 0x00)
    } else if 16 <= i <= 20 {
        (0x0003, (i - 15) as u8)
    } else if i == 21 {
        (0x0010, 0x00)
    } else {
        (0x0012, 0x00)
    }
}

/// The entry that an index and subindex address, if there is one.
pub open spec fn slot_of(index: u16, subindex: u8) -> Option<int> {
    if index == 0x0000 && subindex <= 13 {
        Some(subindex as int)
    } else if index == 0x0000 && subindex == 0x0F {
        Some(14)
    } else if index == 0x0002 && subindex == 0 {
        Some(15)
    } else if index == 0x0003 && 1 <= subindex <= 5 {
        Some(subindex + 15)
    } else if index == 0x0010 && subindex == 0 {
        Some(21)
    } else if index == 0x0012 && subindex == 0 {
        Some(22)
    } else {
        None
    }
}

/// Length in octets of each entry.
pub open spec fn slot_length(i: int) -> nat {
    if i == 20 {
        30
    } else if i == 21 {
        7
    } else if i == 22 {
        13
    } else {
        1
    }
}

/// Access right of each entry: MasterCommand and SystemCommand can only be
/// written; MasterCycleTime, DeviceID and the Data Storage index can be read
/// and written; the others can only be read.
pub open spec fn slot_access(i: int) -> AccessRight {
    if i == 0 || i == 14 || i == 15 {
        AccessRight::WriteOnly
    } else if i == 1 || (9 <= i <= 11) || (16 <= i <= 20) {
        AccessRight::ReadWrite
    } else {
        AccessRight::ReadOnly
    }
}

/// The access right allows reads.
pub open spec fn is_readable(a: AccessRight) -> bool {
    a is ReadOnly || a is ReadWrite
}

/// The access right allows writes.
pub open spec fn is_writable(a: AccessRight) -> bool {
    a is WriteOnly || a is ReadWrite
}

/// The first entry of an index and the entry after its last one; an index
/// with no entry gives an empty span.
pub open spec fn index_span(index: u16) -> (int, int) {
    if index == 0x0000 {
        (0, 15)
    } else if index == 0x0002 {
        (15, 16)
    } else if index == 0x0003 {
        (16, 21)
    } else if index == 0x0010 {
        (21, 22)
    } else if index == 0x0012 {
        (22, 23)
    } else {
        (0, 0)
    }
}

/// Default value of each entry: the configured Direct Parameter page 1
/// values, the vendor and product names, and zeros elsewhere.
pub open spec fn default_value(i: int) -> Seq<u8> {
    if i == 2 {
        seq![cycle_time_to_byte(spec_min_cycle_time_parameter())]
    } else if i == 3 {
        seq![
            msequence_capability_to_byte(
                MsequenceCapability {
                    isdu: true,
                    operate_m_sequence: OPERATE_M_SEQUENCE_CODE,
                    preoperate_m_sequence: PREOPERATE_M_SEQUENCE_CODE,
                },
            ),
        ]
    } else if i == 4 {
        seq![spec_revision_id()]
    } else if i == 5 {
        seq![process_data_in_to_byte(ProcessDataIn { byte: true, sio: false, length: 2 })]
    } else if i == 6 {
        seq![process_data_out_to_byte(ProcessDataOut { byte: true, length: 3 })]
    } else if i == 7 {
        seq![VENDOR_ID_1]
    } else if i == 8 {
        seq![VENDOR_ID_2]
    } else if i == 9 {
        seq![DEVICE_ID_1]
    } else if i == 10 {
        seq![DEVICE_ID_2]
    } else if i == 11 {
        seq![DEVICE_ID_3]
    } else if i == 12 {
        seq![FUNCTION_ID_1]
    } else if i == 13 {
        seq![FUNCTION_ID_2]
    } else if i == 20 {
        Seq::new(30, |j: int| 0u8)
    } else if i == 21 {
        spec_vendor_name_bytes()
    } else if i == 22 {
        spec_product_name_bytes()
    } else {
        seq![0u8]
    }
}

/// The values of all entries after construction or after `clear`.
pub open spec fn default_values() -> Seq<Seq<u8>> {
    Seq::new(PARAMETER_COUNT as nat, |i: int| default_value(i))
}

/// A sequence of values fits the storage: one value per entry, each of the
/// entry's length.
pub open spec fn values_wf(v: Seq<Seq<u8>>) -> bool {
    &&& v.len() == PARAMETER_COUNT
    &&& forall|i: int| 0 <= i < PARAMETER_COUNT ==> #[trigger] v[i].len() == slot_length(i)
}

/// What reading one parameter gives: its length and value where the entry
/// exists and can be read.
pub open spec fn spec_get_parameter(v: Seq<Seq<u8>>, index: u16, subindex: u8) -> Result<
    (u8, Seq<u8>),
    ParameterError,
> {
    match slot_of(index, subindex) {
        None => Err(missing_entry_error(index)),
        Some(i) => if !is_readable(slot_access(i)) {
            Err(ParameterError::AccessDenied)
        } else {
            Ok((v[i].len() as u8, v[i]))
        },
    }
}

/// What writing one parameter gives: the values with the entry replaced,
/// where the entry exists, can be written and the data has its length.
pub open spec fn spec_set_parameter(
    v: Seq<Seq<u8>>,
    index: u16,
    subindex: u8,
    data: Seq<u8>,
) -> Result<Seq<Seq<u8>>, ParameterError> {
    match slot_of(index, subindex) {
        None => Err(missing_entry_error(index)),
        Some(i) => if !is_writable(slot_access(i)) {
            Err(ParameterError::AccessDenied)
        } else if data.len() > slot_length(i) {
            Err(ParameterError::LengthOverrun)
        } else if data.len() < slot_length(i) {
            Err(ParameterError::LengthUnderrun)
        } else {
            Ok(v.update(i, data))
        },
    }
}

/// Reading the entries `k..hi` one after another onto `acc`: the first one
/// that cannot be read, or that does not fit the buffer of
/// `MAX_INDEX_MEMORY_LENGTH` octets, ends the read with an error.
pub open spec fn read_scan(v: Seq<Seq<u8>>, k: int, hi: int, acc: Seq<u8>) -> Result<
    Seq<u8>,
    ParameterError,
>
    decreases hi - k,
{
    if k >= hi {
        Ok(acc)
    } else if !is_readable(slot_access(k)) {
        Err(ParameterError::AccessDenied)
    } else if acc.len() + v[k].len() > MAX_INDEX_MEMORY_LENGTH {
        Err(ParameterError::LengthOverrun)
    } else {
        read_scan(v, k + 1, hi, acc + v[k])
    }
}

/// What reading all subindexes of an index gives: their values one after
/// another, in subindex order.
pub open spec fn spec_read_index_memory(v: Seq<Seq<u8>>, index: u16) -> Result<
    Seq<u8>,
    ParameterError,
> {
    let (lo, hi) = index_span(index);
    if lo >= hi {
        Err(ParameterError::IndexNotAvailable)
    } else {
        read_scan(v, lo, hi, Seq::empty())
    }
}

/// Total length of the entries `lo..hi`.
pub open spec fn span_length(lo: int, hi: int) -> nat
    decreases hi - lo,
{
    if hi <= lo {
        0
    } else {
        span_length(lo, hi - 1) + slot_length(hi - 1)
    }
}

/// Every entry of `lo..hi` can be written.
pub open spec fn all_writable(lo: int, hi: int) -> bool {
    forall|k: int| lo <= k < hi ==> #[trigger] is_writable(slot_access(k))
}

/// What writing all subindexes of an index gives: the data cut into the
/// entries' values in subindex order, where every entry can be written and
/// the data has their total length.
pub open spec fn spec_write_index_memory(v: Seq<Seq<u8>>, index: u16, data: Seq<u8>) -> Result<
    Seq<Seq<u8>>,
    ParameterError,
> {
    let (lo, hi) = index_span(index);
    if lo >= hi {
        Err(ParameterError::IndexNotAvailable)
    } else if !all_writable(lo, hi) {
        Err(ParameterError::AccessDenied)
    } else if data.len() > span_length(lo, hi) {
        Err(ParameterError::LengthOverrun)
    } else if data.len() < span_length(lo, hi) {
        Err(ParameterError::LengthUnderrun)
    } else {
        Ok(
            Seq::new(
                v.len(),
                |k: int|
                    if lo <= k < hi {
                        data.subrange(
                            span_length(lo, k) as int,
                            (span_length(lo, k) + slot_length(k)) as int,
                        )
                    } else {
                        v[k]
                    },
            ),
        )
    }
}

/// The description of an entry.
pub open spec fn info_matches(info: ParameterInfo, i: int) -> bool {
    &&& info.index == slot_key(i).0
    &&& info.subindex == slot_key(i).1
    &&& info.length == slot_length(i)
    &&& info.access == slot_access(i)
    &&& info.range matches Some(r) && r.start == 0 && r.end == slot_length(i) - 1
    &&& info.data_type@ == "u8"@
}

/// Values of all parameters of the device.
pub struct ParameterStorage {
    values: Vec<Vec<u8>>,
}

impl View for ParameterStorage {
    type V = Seq<Seq<u8>>;

    closed spec fn view(&self) -> Seq<Seq<u8>> {
        Seq::new(self.values@.len(), |i: int| self.values@[i]@)
    }
}

/// Returns the entry that an index and subindex address.
fn find_slot(index: u16, subindex: u8) -> (r: Option<usize>)
    ensures
        match slot_of(index, subindex) {
            Some(i) => r == Some(i as usize),
            None => r is None,
        },
{
    if index == 0x0000 && subindex <= 13 {
        Some(subindex as usize)
    } else if index == 0x0000 && subindex == 0x0F {
        Some(14)
    } else if index == 0x0002 && subindex == 0 {
        Some(15)
    } else if index == 0x0003 && 1 <= subindex && subindex <= 5 {
        Some(subindex as usize + 15)
    } else if index == 0x0010 && subindex == 0 {
        Some(21)
    } else if index == 0x0012 && subindex == 0 {
        Some(22)
    } else {
        None
    }
}

/// The error for an index and subindex that address no entry.
fn missing_error_of(index: u16) -> (r: ParameterError)
    ensures
        r == missing_entry_error(index),
{
    let (lo, hi) = find_span(index);
    if lo < hi {
        ParameterError::SubindexNotAvailable
    } else {
        ParameterError::IndexNotAvailable
    }
}

/// Returns the span of entries of an index.
fn find_span(index: u16) -> (r: (usize, usize))
    ensures
        r.0 == index_span(index).0,
        r.1 == index_span(index).1,
{
    if index == 0x0000 {
        (0, 15)
    } else if index == 0x0002 {
        (15, 16)
    } else if index == 0x0003 {
        (16, 21)
    } else if index == 0x0010 {
        (21, 22)
    } else if index == 0x0012 {
        (22, 23)
    } else {
        (0, 0)
    }
}

/// Returns the description of an entry.
fn info_at(i: usize) -> (r: ParameterInfo)
    requires
        i < PARAMETER_COUNT,
    ensures
        info_matches(r, i as int),
{
    proof {
        reveal_strlit("u8");
    }
    let (index, subindex): (u16, u8) = if i <= 13 {
        (0x0000, i as u8)
    } else if i == 14 {
        (0x0000, 0x0F)
    } else if i == 15 {
        (0x0002, 0x00)
    } else if i <= 20 {
        (0x0003, (i - 15) as u8)
    } else if i == 21 {
        (0x0010, 0x00)
    } else {
        (0x0012, 0x00)
    };
    let length: usize = if i == 20 {
        30
    } else if i == 21 {
        7
    } else if i == 22 {
        13
    } else {
        1
    };
    let access = if i == 0 || i == 14 || i == 15 {
        AccessRight::WriteOnly
    } else if i == 1 || (9 <= i && i <= 11) || (16 <= i && i <= 20) {
        AccessRight::ReadWrite
    } else {
        AccessRight::ReadOnly
    };
    let end: u8 = (length - 1) as u8;
    ParameterInfo { index, subindex, length, range: Some(0..end), access, data_type: "u8" }
}

/// Whether an access right allows reads.
fn readable(a: AccessRight) -> (r: bool)
    ensures
        r == is_readable(a),
{
    match a {
        AccessRight::ReadOnly | AccessRight::ReadWrite => true,
        AccessRight::WriteOnly => false,
    }
}

/// Whether an access right allows writes.
fn writable(a: AccessRight) -> (r: bool)
    ensures
        r == is_writable(a),
{
    match a {
        AccessRight::WriteOnly | AccessRight::ReadWrite => true,
        AccessRight::ReadOnly => false,
    }
}

/// Length of an entry.
fn length_at(i: usize) -> (r: usize)
    requires
        i < PARAMETER_COUNT,
    ensures
        r == slot_length(i as int),
{
    if i == 20 {
        30
    } else if i == 21 {
        7
    } else if i == 22 {
        13
    } else {
        1
    }
}

/// Access right of an entry.
fn access_at(i: usize) -> (r: AccessRight)
    requires
        i < PARAMETER_COUNT,
    ensures
        r == slot_access(i as int),
{
    if i == 0 || i == 14 || i == 15 {
        AccessRight::WriteOnly
    } else if i == 1 || (9 <= i && i <= 11) || (16 <= i && i <= 20) {
        AccessRight::ReadWrite
    } else {
        AccessRight::ReadOnly
    }
}

/// The span length grows by each entry's length.
proof fn lemma_span_length_monotone(lo: int, k: int, hi: int)
    requires
        lo <= k <= hi,
    ensures
        span_length(lo, k) <= span_length(lo, hi),
    decreases hi - k,
{
    if k < hi {
        lemma_span_length_monotone(lo, k, hi - 1);
    }
}

impl ParameterStorage {
    /// One value per entry, each of the entry's length.
    pub closed spec fn wf(&self) -> bool {
        values_wf(self@)
    }

    /// The values of a well-formed storage fit its layout.
    pub proof fn lemma_values_wf(&self)
        requires
            self.wf(),
        ensures
            values_wf(self@),
    {
    }

    /// Builds the default value of every entry.
    fn default_storage() -> (r: Vec<Vec<u8>>)
        ensures
            r@.len() == PARAMETER_COUNT,
            forall|i: int| 0 <= i < PARAMETER_COUNT ==> #[trigger] r@[i]@ == default_value(i),
    {
        let mut v: Vec<Vec<u8>> = Vec::new();
        v.push(vec![0u8]);
        v.push(vec![0u8]);
        v.push(vec![min_cycle_time_parameter().into_bits()]);
        v.push(vec![m_sequence_capability_parameter().into_bits()]);
        v.push(vec![revision_id()]);
        v.push(vec![pd_in_parameter().into_bits()]);
        v.push(vec![pd_out_parameter().into_bits()]);
        v.push(vec![vendor_id_1()]);
        v.push(vec![vendor_id_2()]);
        v.push(vec![device_id_1()]);
        v.push(vec![device_id_2()]);
        v.push(vec![device_id_3()]);
        v.push(vec![function_id_1()]);
        v.push(vec![function_id_2()]);
        v.push(vec![0u8]);
        v.push(vec![0u8]);
        v.push(vec![0u8]);
        v.push(vec![0u8]);
        v.push(vec![0u8]);
        v.push(vec![0u8]);
        let zeros: Vec<u8> = vec![0u8; 30];
        v.push(zeros);
        v.push(vendor_name_bytes());
        v.push(product_name_bytes());
        assert(zeros@ =~= Seq::new(30, |j: int| 0u8));
        assert forall|i: int| 0 <= i < PARAMETER_COUNT implies #[trigger] v@[i]@
            == default_value(i) by {
            if i == 20 {
                assert(v@[i]@ =~= default_value(i));
            }
        }
        v
    }

    /// A storage with every parameter at its default value.
    pub fn new() -> (r: ParameterStorage)
        ensures
            r@ == default_values(),
            values_wf(r@),
            r.wf(),
    {
        let values = Self::default_storage();
        let r = ParameterStorage { values };
        assert(r@ =~= default_values());
        r
    }

    /// Sets every parameter back to its default value.
    pub fn clear(&mut self)
        ensures
            final(self)@ == default_values(),
            values_wf(final(self)@),
            final(self).wf(),
    {
        *self = Self::new();
    }

    /// Returns the description of the parameter at an index and subindex.
    pub fn get_parameter_info(&self, index: u16, subindex: u8) -> (r: Result<
        ParameterInfo,
        ParameterError,
    >)
        requires
            self.wf(),
        ensures
            match slot_of(index, subindex) {
                Some(i) => r matches Ok(info) && info_matches(info, i),
                None => r == Err::<ParameterInfo, ParameterError>(missing_entry_error(index)),
            },
    {
        match find_slot(index, subindex) {
            Some(i) => Ok(info_at(i)),
            None => Err(missing_error_of(index)),
        }
    }

    /// Reads a parameter: its length and its value.
    pub fn get_parameter<'a>(&'a self, index: u16, subindex: u8) -> (r: Result<
        (u8, &'a [u8]),
        ParameterError,
    >)
        requires
            self.wf(),
        ensures
            match spec_get_parameter(self@, index, subindex) {
                Ok((n, d)) => r matches Ok((m, s)) && m == n && s@ == d,
                Err(e) => r matches Err(e2) && e2 == e,
            },
    {
        match find_slot(index, subindex) {
            None => Err(missing_error_of(index)),
            Some(i) => {
                if !readable(access_at(i)) {
                    Err(ParameterError::AccessDenied)
                } else {
                    let s = self.values[i].as_slice();
                    let n: u8 = self.values[i].len() as u8;
                    Ok((n, s))
                }
            },
        }
    }

    /// Writes a parameter; the data must have the parameter's length.
    pub fn set_parameter(&mut self, index: u16, subindex: u8, data: &[u8]) -> (r: Result<
        (),
        ParameterError,
    >)
        requires
            old(self).wf(),
        ensures
            match spec_set_parameter(old(self)@, index, subindex, data@) {
                Ok(v) => r is Ok && final(self)@ == v,
                Err(e) => r == Err::<(), ParameterError>(e) && final(self)@ == old(self)@,
            },
            values_wf(final(self)@),
            final(self).wf(),
    {
        match find_slot(index, subindex) {
            None => Err(missing_error_of(index)),
            Some(i) => {
                let length = length_at(i);
                if !writable(access_at(i)) {
                    Err(ParameterError::AccessDenied)
                } else if data.len() > length {
                    Err(ParameterError::LengthOverrun)
                } else if data.len() < length {
                    Err(ParameterError::LengthUnderrun)
                } else {
                    self.store(i, data);
                    Ok(())
                }
            },
        }
    }

    /// Replaces the value of an entry by data of its length.
    fn store(&mut self, i: usize, data: &[u8])
        requires
            old(self).wf(),
            i < PARAMETER_COUNT,
            data@.len() == slot_length(i as int),
        ensures
            final(self)@ == old(self)@.update(i as int, data@),
            final(self).wf(),
    {
        let d = vstd::slice::slice_to_vec(data);
        self.values.set(i, d);
        assert(self@ =~= old(self)@.update(i as int, data@));
    }

    /// Reads all subindexes of an index, their values one after another.
    pub fn read_index_memory(&self, index: u16) -> (r: Result<
        heapless::Vec<u8, 34>,
        ParameterError,
    >)
        requires
            self.wf(),
        ensures
            match spec_read_index_memory(self@, index) {
                Ok(d) => r matches Ok(m) && index_memory_bytes(m) == d,
                Err(e) => r matches Err(e2) && e2 == e,
            },
    {
        let (lo, hi) = find_span(index);
        if lo >= hi {
            return Err(ParameterError::IndexNotAvailable);
        }
        let mut memory = index_memory_new();
        let mut k = lo;
        while k < hi
            invariant
                lo <= k <= hi <= PARAMETER_COUNT,
                (lo as int, hi as int) == index_span(index),
                self.wf(),
                index_memory_bytes(memory).len() <= MAX_INDEX_MEMORY_LENGTH,
                read_scan(self@, lo as int, hi as int, Seq::empty()) == read_scan(
                    self@,
                    k as int,
                    hi as int,
                    index_memory_bytes(memory),
                ),
            decreases hi - k,
        {
            if !readable(access_at(k)) {
                return Err(ParameterError::AccessDenied);
            }
            let data = self.values[k].as_slice();
            match index_memory_extend(&mut memory, data) {
                Ok(()) => {},
                Err(()) => {
                    return Err(ParameterError::LengthOverrun);
                },
            }
            k = k + 1;
        }
        Ok(memory)
    }

    /// Writes all subindexes of an index from data holding their values one
    /// after another.
    pub fn write_index_memory(&mut self, index: u16, data: &[u8]) -> (r: Result<
        (),
        ParameterError,
    >)
        requires
            old(self).wf(),
        ensures
            match spec_write_index_memory(old(self)@, index, data@) {
                Ok(v) => r is Ok && final(self)@ == v,
                Err(e) => r == Err::<(), ParameterError>(e) && final(self)@ == old(self)@,
            },
            values_wf(final(self)@),
            final(self).wf(),
    {
        let (lo, hi) = find_span(index);
        if lo >= hi {
            return Err(ParameterError::IndexNotAvailable);
        }
        let mut total: usize = 0;
        let mut k = lo;
        while k < hi
            invariant
                lo <= k <= hi <= PARAMETER_COUNT,
                (lo as int, hi as int) == index_span(index),
                all_writable(lo as int, k as int),
                self.wf(),
                self@ == old(self)@,
                total == span_length(lo as int, k as int),
                total <= 30 * (k - lo),
            decreases hi - k,
        {
            if !writable(access_at(k)) {
                assert(!all_writable(lo as int, hi as int));
                return Err(ParameterError::AccessDenied);
            }
            total = total + length_at(k);
            k = k + 1;
        }
        if data.len() > total {
            return Err(ParameterError::LengthOverrun);
        }
        if data.len() < total {
            return Err(ParameterError::LengthUnderrun);
        }
        let ghost old_v = self@;
        let ghost target = spec_write_index_memory(old_v, index, data@)->Ok_0;
        let mut offset: usize = 0;
        let mut k = lo;
        while k < hi
            invariant
                lo <= k <= hi <= PARAMETER_COUNT,
                (lo as int, hi as int) == index_span(index),
                data@.len() == span_length(lo as int, hi as int),
                data@.len() == total,
                old_v.len() == PARAMETER_COUNT,
                offset == span_length(lo as int, k as int),
                target == spec_write_index_memory(old_v, index, data@)->Ok_0,
                spec_write_index_memory(old_v, index, data@) is Ok,
                self.wf(),
                forall|j: int| 0 <= j < PARAMETER_COUNT ==> #[trigger] self@[j] == (if lo <= j < k {
                    target[j]
                } else {
                    old_v[j]
                }),
            decreases hi - k,
        {
            proof {
                lemma_span_length_monotone(lo as int, k as int + 1, hi as int);
                assert(span_length(lo as int, k as int + 1) == span_length(lo as int, k as int)
                    + slot_length(k as int));
            }
            let len = length_at(k);
            let part = vstd::slice::slice_subrange(data, offset, offset + len);
            assert(target[k as int] == data@.subrange(offset as int, offset + len));
            let ghost before = self@;
            self.store(k, part);
            assert(self@ == before.update(k as int, part@));
            offset = offset + len;
            k = k + 1;
        }
        assert(self@ =~= target);
        Ok(())
    }

    /// Returns the descriptions of all parameters, in storage order.
    pub fn get_all_parameters(&self) -> (r: Vec<ParameterInfo>)
        ensures
            r@.len() == PARAMETER_COUNT,
            forall|i: int| 0 <= i < PARAMETER_COUNT ==> #[trigger] info_matches(r@[i], i),
    {
        let mut r: Vec<ParameterInfo> = Vec::new();
        let mut i: usize = 0;
        while i < PARAMETER_COUNT
            invariant
                i <= PARAMETER_COUNT,
                r@.len() == i,
                forall|j: int| 0 <= j < i ==> #[trigger] info_matches(r@[j], j),
            decreases PARAMETER_COUNT - i,
        {
            r.push(info_at(i));
            i = i + 1;
        }
        r
    }

    /// Checks that index 0 and index 1 use only subindexes 0x00 to 0x0F.
    pub fn validate_constraints(&self) -> (r: Result<(), ParameterError>)
        ensures
            r is Ok <==> forall|i: int|
                0 <= i < PARAMETER_COUNT ==> !((#[trigger] slot_key(i).0 == 0x0000 || slot_key(
                    i,
                ).0 == 0x0001) && slot_key(i).1 > 0x0F),
            r is Err ==> r == Err::<(), ParameterError>(ParameterError::InvalidParameterSet),
    {
        let all = self.get_all_parameters();
        let mut i: usize = 0;
        while i < PARAMETER_COUNT
            invariant
                i <= PARAMETER_COUNT,
                all@.len() == PARAMETER_COUNT,
                forall|j: int| 0 <= j < PARAMETER_COUNT ==> #[trigger] info_matches(all@[j], j),
                forall|j: int|
                    0 <= j < i ==> !((#[trigger] slot_key(j).0 == 0x0000 || slot_key(j).0
                        == 0x0001) && slot_key(j).1 > 0x0F),
            decreases PARAMETER_COUNT - i,
        {
            let info = &all[i];
            assert(info_matches(all@[i as int], i as int));
            if (info.index == 0x0000 || info.index == 0x0001) && info.subindex > 0x0F {
                return Err(ParameterError::InvalidParameterSet);
            }
            i = i + 1;
        }
        Ok(())
    }
}

/// Every entry is found again by its own index and subindex, and an index
/// and subindex that find an entry are that entry's.
pub proof fn slot_key_round_trip(i: int, index: u16, subindex: u8)
    ensures
        0 <= i < PARAMETER_COUNT ==> slot_of(slot_key(i).0, slot_key(i).1) == Some(i),
        slot_of(index, subindex) matches Some(j) ==> 0 <= j < PARAMETER_COUNT && slot_key(j) == (
        index, subindex),
{
}

/// The span of an index holds exactly the entries of that index.
pub proof fn index_span_holds_its_entries(index: u16, k: int)
    requires
        0 <= k < PARAMETER_COUNT,
    ensures
        (index_span(index).0 <= k < index_span(index).1) <==> slot_key(k).0 == index,
{
}

/// Index 0 and index 1 of the storage use only subindexes 0x00 to 0x0F.
pub proof fn page_subindexes_in_range(i: int)
    requires
        0 <= i < PARAMETER_COUNT,
    ensures
        !((slot_key(i).0 == 0x0000 || slot_key(i).0 == 0x0001) && slot_key(i).1 > 0x0F),
{
}

/// A parameter that was written and can be read gives back what was written.
pub proof fn set_then_get(v: Seq<Seq<u8>>, index: u16, subindex: u8, data: Seq<u8>)
    requires
        values_wf(v),
        spec_set_parameter(v, index, subindex, data) is Ok,
        slot_of(index, subindex) matches Some(i) && is_readable(slot_access(i)),
    ensures
        spec_get_parameter(spec_set_parameter(v, index, subindex, data)->Ok_0, index, subindex)
            == Ok::<(u8, Seq<u8>), ParameterError>((data.len() as u8, data)),
{
}

/// Writing one parameter leaves every other parameter as it was, and the
/// values still fit the layout.
pub proof fn set_keeps_others(
    v: Seq<Seq<u8>>,
    index: u16,
    subindex: u8,
    data: Seq<u8>,
    other_index: u16,
    other_subindex: u8,
)
    requires
        values_wf(v),
        spec_set_parameter(v, index, subindex, data) is Ok,
        (other_index, other_subindex) != (index, subindex),
    ensures
        values_wf(spec_set_parameter(v, index, subindex, data)->Ok_0),
        spec_get_parameter(
            spec_set_parameter(v, index, subindex, data)->Ok_0,
            other_index,
            other_subindex,
        ) == spec_get_parameter(v, other_index, other_subindex),
{
    let i = slot_of(index, subindex)->Some_0;
    let w = spec_set_parameter(v, index, subindex, data)->Ok_0;
    assert(w == v.update(i, data));
    match slot_of(other_index, other_subindex) {
        Some(j) => {
            slot_key_round_trip(i, index, subindex);
            slot_key_round_trip(j, other_index, other_subindex);
            assert(j != i);
        },
        None => {},
    }
}

/// After a write of a whole index, each of its subindexes holds its part of
/// the data, and the values still fit the layout.
pub proof fn write_index_then_get(v: Seq<Seq<u8>>, index: u16, data: Seq<u8>, k: int)
    requires
        values_wf(v),
        spec_write_index_memory(v, index, data) is Ok,
        index_span(index).0 <= k < index_span(index).1,
    ensures
        values_wf(spec_write_index_memory(v, index, data)->Ok_0),
        spec_write_index_memory(v, index, data)->Ok_0[k] == data.subrange(
            span_length(index_span(index).0, k) as int,
            (span_length(index_span(index).0, k) + slot_length(k)) as int,
        ),
{
    let (lo, hi) = index_span(index);
    let w = spec_write_index_memory(v, index, data)->Ok_0;
    assert forall|j: int| 0 <= j < PARAMETER_COUNT implies #[trigger] w[j].len() == slot_length(
        j,
    ) by {
        if lo <= j < hi {
            lemma_span_length_monotone(lo, j + 1, hi);
        }
    }
}

/// The default values fit the layout of the storage.
pub proof fn default_values_fit()
    ensures
        values_wf(default_values()),
{
    assert forall|i: int| 0 <= i < PARAMETER_COUNT implies #[trigger] default_values()[i].len()
        == slot_length(i) by {
        if i == 21 {
        } else if i == 22 {
        }
    }
}


/// Reading the entries `k..hi` of values written from `data` onto the part
/// of `data` before entry `k` gives `data` back.
proof fn lemma_read_scan_of_written(w: Seq<Seq<u8>>, lo: int, k: int, hi: int, data: Seq<u8>)
    requires
        0 <= lo <= k <= hi <= PARAMETER_COUNT,
        data.len() == span_length(lo, hi),
        data.len() <= MAX_INDEX_MEMORY_LENGTH,
        forall|j: int| lo <= j < hi ==> #[trigger] is_readable(slot_access(j)),
        forall|j: int|
            lo <= j < hi ==> #[trigger] w[j] == data.subrange(
                span_length(lo, j) as int,
                (span_length(lo, j) + slot_length(j)) as int,
            ),
    ensures
        read_scan(w, k, hi, data.subrange(0, span_length(lo, k) as int))
            == Ok::<Seq<u8>, ParameterError>(data),
    decreases hi - k,
{
    lemma_span_length_monotone(lo, k, hi);
    if k >= hi {
        assert(data.subrange(0, span_length(lo, k) as int) =~= data);
    } else {
        lemma_span_length_monotone(lo, k + 1, hi);
        assert(span_length(lo, k + 1) == span_length(lo, k) + slot_length(k));
        let acc = data.subrange(0, span_length(lo, k) as int);
        assert(acc + w[k] =~= data.subrange(0, span_length(lo, k + 1) as int));
        lemma_read_scan_of_written(w, lo, k + 1, hi, data);
    }
}

/// The total length of the entries of every index fits the buffer of a
/// whole-index read.
proof fn lemma_index_spans_fit(index: u16)
    ensures
        span_length(index_span(index).0, index_span(index).1) <= MAX_INDEX_MEMORY_LENGTH,
{
    reveal_with_fuel(span_length, 16);
    if index == 0x0003 {
        assert(span_length(16, 21) == 34);
    } else if index == 0x0000 {
        assert(span_length(0, 15) == 15);
    }
}

/// A whole-index write followed by a whole-index read gives back the
/// written data: the read returns the values of all subindexes of the
/// index, in subindex order, and they are the data as written. The index's
/// entries can all be read.
pub proof fn write_index_then_read(v: Seq<Seq<u8>>, index: u16, data: Seq<u8>)
    requires
        values_wf(v),
        spec_write_index_memory(v, index, data) is Ok,
        forall|k: int|
            index_span(index).0 <= k < index_span(index).1 ==> #[trigger] is_readable(
                slot_access(k),
            ),
    ensures
        spec_read_index_memory(spec_write_index_memory(v, index, data)->Ok_0, index)
            == Ok::<Seq<u8>, ParameterError>(data),
{
    let (lo, hi) = index_span(index);
    let w = spec_write_index_memory(v, index, data)->Ok_0;
    lemma_index_spans_fit(index);
    assert(span_length(lo, lo) == 0);
    assert(data.subrange(0, 0) =~= Seq::<u8>::empty());
    lemma_read_scan_of_written(w, lo, lo, hi, data);
}

} // verus!
