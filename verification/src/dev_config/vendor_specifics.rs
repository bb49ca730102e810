//! Vendor identification of the device: protocol revision, VendorID,
//! DeviceID, FunctionID, vendor name and product name.
use vstd::prelude::*;
use crate::page1::{RevisionId, revision_id_from_byte};

verus! {

/// Configured major protocol revision.
pub const MAJOR_REVISION_ID: u8 = 0x09;
/// Configured minor protocol revision.
pub const MINOR_REVISION_ID: u8 = 0x04;
/// VendorID, most significant octet.
pub const VENDOR_ID_1: u8 = 0x01;
/// VendorID, least significant octet.
pub const VENDOR_ID_2: u8 = 0x02;
/// DeviceID, octet 2 (most significant).
pub const DEVICE_ID_1: u8 = 0x01;
/// DeviceID, octet 1.
pub const DEVICE_ID_2: u8 = 0x02;
/// DeviceID, octet 0 (least significant).
pub const DEVICE_ID_3: u8 = 0x03;
/// FunctionID, most significant octet.
pub const FUNCTION_ID_1: u8 = 0x01;
/// FunctionID, least significant octet.
pub const FUNCTION_ID_2: u8 = 0x01;

/// Packs a major and a minor revision digit into a RevisionID octet.
pub fn revision_id_byte(major_revision_id: u8, minor_revision_id: u8) -> (r: u8)
    requires
        major_revision_id < 16,
        minor_revision_id < 16,
    ensures
        r == major_revision_id * 16 + minor_revision_id,
{
    assert((major_revision_id << 4u8) | minor_revision_id == major_revision_id * 16
        + minor_revision_id) by (bit_vector)
        requires
            major_revision_id < 16u8,
            minor_revision_id < 16u8,
    ;
    (major_revision_id << 4) | minor_revision_id
}

/// The configured RevisionID octet.
pub open spec fn spec_revision_id() -> u8 {
    (MAJOR_REVISION_ID * 16 + MINOR_REVISION_ID) as u8
}

/// Returns the configured RevisionID octet.
pub fn revision_id() -> (r: u8)
    ensures
        r == spec_revision_id(),
{
    revision_id_byte(MAJOR_REVISION_ID, MINOR_REVISION_ID)
}

/// Returns the configured protocol revision as a RevisionID value.
pub fn revision_id_parameter() -> (r: RevisionId)
    ensures
        r == revision_id_from_byte(spec_revision_id()),
        r.major_rev == MAJOR_REVISION_ID && r.minor_rev == MINOR_REVISION_ID,
{
    let b = revision_id();
    let r = RevisionId::from_bits(b);
    assert(b == 0x94u8);
    assert((0x94u8 & 0xfu8) == 4u8 && (0x94u8 >> 4u8) == 9u8) by (bit_vector);
    r
}

/// Returns VendorID octet 1.
pub fn vendor_id_1() -> (r: u8)
    ensures
        r == VENDOR_ID_1,
{
    VENDOR_ID_1
}

/// Returns VendorID octet 2.
pub fn vendor_id_2() -> (r: u8)
    ensures
        r == VENDOR_ID_2,
{
    VENDOR_ID_2
}

/// Returns DeviceID octet 1.
pub fn device_id_1() -> (r: u8)
    ensures
        r == DEVICE_ID_1,
{
    DEVICE_ID_1
}

/// Returns DeviceID octet 2.
pub fn device_id_2() -> (r: u8)
    ensures
        r == DEVICE_ID_2,
{
    DEVICE_ID_2
}

/// Returns DeviceID octet 3.
pub fn device_id_3() -> (r: u8)
    ensures
        r == DEVICE_ID_3,
{
    DEVICE_ID_3
}

/// Returns FunctionID octet 1.
pub fn function_id_1() -> (r: u8)
    ensures
        r == FUNCTION_ID_1,
{
    FUNCTION_ID_1
}

/// Returns FunctionID octet 2.
pub fn function_id_2() -> (r: u8)
    ensures
        r == FUNCTION_ID_2,
{
    FUNCTION_ID_2
}

/// The vendor name "IOLinke" as ASCII octets.
pub open spec fn spec_vendor_name_bytes() -> Seq<u8> {
    seq![0x49u8, 0x4Fu8, 0x4Cu8, 0x69u8, 0x6Eu8, 0x6Bu8, 0x65u8]
}

/// The product name "IOLinke Stack" as ASCII octets.
pub open spec fn spec_product_name_bytes() -> Seq<u8> {
    seq![
        0x49u8, 0x4Fu8, 0x4Cu8, 0x69u8, 0x6Eu8, 0x6Bu8, 0x65u8, 0x20u8, 0x53u8, 0x74u8, 0x61u8,
        0x63u8, 0x6Bu8,
    ]
}

/// Returns the vendor name.
pub fn vendor_name() -> (r: &'static str)
    ensures
        r@ == "IOLinke"@,
{
    "IOLinke"
}

/// Returns the product name.
pub fn product_name() -> (r: &'static str)
    ensures
        r@ == "IOLinke Stack"@,
{
    "IOLinke Stack"
}

/// Returns the vendor name as octets.
pub fn vendor_name_bytes() -> (r: Vec<u8>)
    ensures
        r@ == spec_vendor_name_bytes(),
{
    let r = vec![0x49u8, 0x4Fu8, 0x4Cu8, 0x69u8, 0x6Eu8, 0x6Bu8, 0x65u8];
    assert(r@ =~= spec_vendor_name_bytes());
    r
}

/// Returns the product name as octets.
pub fn product_name_bytes() -> (r: Vec<u8>)
    ensures
        r@ == spec_product_name_bytes(),
{
    let r = vec![
        0x49u8, 0x4Fu8, 0x4Cu8, 0x69u8, 0x6Eu8, 0x6Bu8, 0x65u8, 0x20u8, 0x53u8, 0x74u8, 0x61u8,
        0x63u8, 0x6Bu8,
    ];
    assert(r@ =~= spec_product_name_bytes());
    r
}

} // verus!
