//! Index assignment of the device's data objects and the sub-indices of the
//! Direct Parameter pages and of the Data Storage index.
use vstd::prelude::*;

verus! {

/// Data objects addressed by an ISDU index.
#[derive(Debug, Clone, Copy, PartialEq, Eq, Structural)]
pub enum DeviceParametersIndex {
    DirectParameterPage1,
    DirectParameterPage2,
    SystemCommand,
    DataStorageIndex,
    DeviceAccessLocks,
    ProfileCharacteristic,
    PDInputDescriptor,
    PDOutputDescriptor,
    VendorName,
    VendorText,
    ProductName,
    ProductID,
    ProductText,
    SerialNumber,
    HardwareRevision,
    FirmwareRevision,
    ApplicationSpecificTag,
    FunctionTag,
    LocationTag,
    ProductURI,
    ErrorCount,
    DeviceStatus,
    DetailedDeviceStatus,
    ProcessDataInput,
    ProcessDataOutput,
    OffsetTime,
    ProfileSpecific(u16),
    PreferredIndex(u16),
    ExtendedIndex(u16),
    DeviceProfileIndex(u16),
    SafetySpecificIndex(u16),
    SecondaryDeviceProfileIndex(u16),
    WirelessSpecificIndex(u16),
}

/// Category of an index.
#[derive(Debug, Clone, Copy, PartialEq, Eq, Structural)]
pub enum IndexCategory {
    Standard,
    ProfileSpecific,
    PreferredIndex,
    ExtendedIndex,
    DeviceProfile,
    SafetySpecific,
    WirelessSpecific,
}

/// The data object that an index designates, if the index is assigned.
pub open spec fn spec_from_index(index: u16) -> Option<DeviceParametersIndex> {
    if index == 0x0000 {
        Some(DeviceParametersIndex::DirectParameterPage1)
    } else if index == 0x0001 {
        Some(DeviceParametersIndex::DirectParameterPage2)
    } else if index == 0x0002 {
        Some(DeviceParametersIndex::SystemCommand)
    } else if index == 0x0003 {
        Some(DeviceParametersIndex::DataStorageIndex)
    } else if index == 0x000C {
        Some(DeviceParametersIndex::DeviceAccessLocks)
    } else if index == 0x000D {
        Some(DeviceParametersIndex::ProfileCharacteristic)
    } else if index == 0x000E {
        Some(DeviceParametersIndex::PDInputDescriptor)
    } else if index == 0x000F {
        Some(DeviceParametersIndex::PDOutputDescriptor)
    } else if index == 0x0010 {
        Some(DeviceParametersIndex::VendorName)
    } else if index == 0x0011 {
        Some(DeviceParametersIndex::VendorText)
    } else if index == 0x0012 {
        Some(DeviceParametersIndex::ProductName)
    } else if index == 0x0013 {
        Some(DeviceParametersIndex::ProductID)
    } else if index == 0x0014 {
        Some(DeviceParametersIndex::ProductText)
    } else if index == 0x0015 {
        Some(DeviceParametersIndex::SerialNumber)
    } else if index == 0x0016 {
        Some(DeviceParametersIndex::HardwareRevision)
    } else if index == 0x0017 {
        Some(DeviceParametersIndex::FirmwareRevision)
    } else if index == 0x0018 {
        Some(DeviceParametersIndex::ApplicationSpecificTag)
    } else if index == 0x0019 {
        Some(DeviceParametersIndex::FunctionTag)
    } else if index == 0x001A {
        Some(DeviceParametersIndex::LocationTag)
    } else if index == 0x001B {
        Some(DeviceParametersIndex::ProductURI)
    } else if index == 0x0020 {
        Some(DeviceParametersIndex::ErrorCount)
    } else if index == 0x0024 {
        Some(DeviceParametersIndex::DeviceStatus)
    } else if index == 0x0025 {
        Some(DeviceParametersIndex::DetailedDeviceStatus)
    } else if index == 0x0028 {
        Some(DeviceParametersIndex::ProcessDataInput)
    } else if index == 0x0029 {
        Some(DeviceParametersIndex::ProcessDataOutput)
    } else if index == 0x0030 {
        Some(DeviceParametersIndex::OffsetTime)
    } else if 0x0031 <= index <= 0x003F {
        Some(DeviceParametersIndex::ProfileSpecific(index))
    } else if 0x0040 <= index <= 0x00FE {
        Some(DeviceParametersIndex::PreferredIndex(index))
    } else if 0x0100 <= index <= 0x3FFF {
        Some(DeviceParametersIndex::ExtendedIndex(index))
    } else if 0x4000 <= index <= 0x41FF {
        Some(DeviceParametersIndex::DeviceProfileIndex(index))
    } else if 0x4200 <= index <= 0x42FF {
        Some(DeviceParametersIndex::SafetySpecificIndex(index))
    } else if 0x4300 <= index <= 0x4FFF {
        Some(DeviceParametersIndex::SecondaryDeviceProfileIndex(index))
    } else if 0x5000 <= index <= 0x50FF {
        Some(DeviceParametersIndex::WirelessSpecificIndex(index))
    } else {
        None
    }
}

/// The index of a data object.
pub open spec fn spec_index(p: DeviceParametersIndex) -> u16 {
    match p {
        DeviceParametersIndex::DirectParameterPage1 => 0x0000,
        DeviceParametersIndex::DirectParameterPage2 => 0x0001,
        DeviceParametersIndex::SystemCommand => 0x0002,
        DeviceParametersIndex::DataStorageIndex => 0x0003,
        DeviceParametersIndex::DeviceAccessLocks => 0x000C,
        DeviceParametersIndex::ProfileCharacteristic => 0x000D,
        DeviceParametersIndex::PDInputDescriptor => 0x000E,
        DeviceParametersIndex::PDOutputDescriptor => 0x000F,
        DeviceParametersIndex::VendorName => 0x0010,
        DeviceParametersIndex::VendorText => 0x0011,
        DeviceParametersIndex::ProductName => 0x0012,
        DeviceParametersIndex::ProductID => 0x0013,
        DeviceParametersIndex::ProductText => 0x0014,
        DeviceParametersIndex::SerialNumber => 0x0015,
        DeviceParametersIndex::HardwareRevision => 0x0016,
        DeviceParametersIndex::FirmwareRevision => 0x0017,
        DeviceParametersIndex::ApplicationSpecificTag => 0x0018,
        DeviceParametersIndex::FunctionTag => 0x0019,
        DeviceParametersIndex::LocationTag => 0x001A,
        DeviceParametersIndex::ProductURI => 0x001B,
        DeviceParametersIndex::ErrorCount => 0x0020,
        DeviceParametersIndex::DeviceStatus => 0x0024,
        DeviceParametersIndex::DetailedDeviceStatus => 0x0025,
        DeviceParametersIndex::ProcessDataInput => 0x0028,
        DeviceParametersIndex::ProcessDataOutput => 0x0029,
        DeviceParametersIndex::OffsetTime => 0x0030,
        DeviceParametersIndex::ProfileSpecific(x) => x,
        DeviceParametersIndex::PreferredIndex(x) => x,
        DeviceParametersIndex::ExtendedIndex(x) => x,
        DeviceParametersIndex::DeviceProfileIndex(x) => x,
        DeviceParametersIndex::SafetySpecificIndex(x) => x,
        DeviceParametersIndex::SecondaryDeviceProfileIndex(x) => x,
        DeviceParametersIndex::WirelessSpecificIndex(x) => x,
    }
}

/// A range variant carries an index of its own range.
pub open spec fn index_in_range(p: DeviceParametersIndex) -> bool {
    match p {
        DeviceParametersIndex::ProfileSpecific(x) => 0x0031 <= x <= 0x003F,
        DeviceParametersIndex::PreferredIndex(x) => 0x0040 <= x <= 0x00FE,
        DeviceParametersIndex::ExtendedIndex(x) => 0x0100 <= x <= 0x3FFF,
        DeviceParametersIndex::DeviceProfileIndex(x) => 0x4000 <= x <= 0x41FF,
        DeviceParametersIndex::SafetySpecificIndex(x) => 0x4200 <= x <= 0x42FF,
        DeviceParametersIndex::SecondaryDeviceProfileIndex(x) => 0x4300 <= x <= 0x4FFF,
        DeviceParametersIndex::WirelessSpecificIndex(x) => 0x5000 <= x <= 0x50FF,
        _ => true,
    }
}

/// The category of a data object.
pub open spec fn spec_category(p: DeviceParametersIndex) -> IndexCategory {
    match p {
        DeviceParametersIndex::ProfileSpecific(_) => IndexCategory::ProfileSpecific,
        DeviceParametersIndex::PreferredIndex(_) => IndexCategory::PreferredIndex,
        DeviceParametersIndex::ExtendedIndex(_) => IndexCategory::ExtendedIndex,
        DeviceParametersIndex::DeviceProfileIndex(_) => IndexCategory::DeviceProfile,
        DeviceParametersIndex::SafetySpecificIndex(_) => IndexCategory::SafetySpecific,
        DeviceParametersIndex::SecondaryDeviceProfileIndex(_) => IndexCategory::DeviceProfile,
        DeviceParametersIndex::WirelessSpecificIndex(_) => IndexCategory::WirelessSpecific,
        _ => IndexCategory::Standard,
    }
}

impl DeviceParametersIndex {
    /// Returns the data object that `index` designates, or `None` for a
    /// reserved index.
    pub fn from_index(index: u16) -> (r: Option<DeviceParametersIndex>)
        ensures
            r == spec_from_index(index),
    {
        if index == 0x0000 {
            Some(DeviceParametersIndex::DirectParameterPage1)
        } else if index == 0x0001 {
            Some(DeviceParametersIndex::DirectParameterPage2)
        } else if index == 0x0002 {
            Some(DeviceParametersIndex::SystemCommand)
        } else if index == 0x0003 {
            Some(DeviceParametersIndex::DataStorageIndex)
        } else if index == 0x000C {
            Some(DeviceParametersIndex::DeviceAccessLocks)
        } else if index == 0x000D {
            Some(DeviceParametersIndex::ProfileCharacteristic)
        } else if index == 0x000E {
            Some(DeviceParametersIndex::PDInputDescriptor)
        } else if index == 0x000F {
            Some(DeviceParametersIndex::PDOutputDescriptor)
        } else if index == 0x0010 {
            Some(DeviceParametersIndex::VendorName)
        } else if index == 0x0011 {
            Some(DeviceParametersIndex::VendorText)
        } else if index == 0x0012 {
            Some(DeviceParametersIndex::ProductName)
        } else if index == 0x0013 {
            Some(DeviceParametersIndex::ProductID)
        } else if index == 0x0014 {
            Some(DeviceParametersIndex::ProductText)
        } else if index == 0x0015 {
            Some(DeviceParametersIndex::SerialNumber)
        } else if index == 0x0016 {
            Some(DeviceParametersIndex::HardwareRevision)
        } else if index == 0x0017 {
            Some(DeviceParametersIndex::FirmwareRevision)
        } else if index == 0x0018 {
            Some(DeviceParametersIndex::ApplicationSpecificTag)
        } else if index == 0x0019 {
            Some(DeviceParametersIndex::FunctionTag)
        } else if index == 0x001A {
            Some(DeviceParametersIndex::LocationTag)
        } else if index == 0x001B {
            Some(DeviceParametersIndex::ProductURI)
        } else if index == 0x0020 {
            Some(DeviceParametersIndex::ErrorCount)
        } else if index == 0x0024 {
            Some(DeviceParametersIndex::DeviceStatus)
        } else if index == 0x0025 {
            Some(DeviceParametersIndex::DetailedDeviceStatus)
        } else if index == 0x0028 {
            Some(DeviceParametersIndex::ProcessDataInput)
        } else if index == 0x0029 {
            Some(DeviceParametersIndex::ProcessDataOutput)
        } else if index == 0x0030 {
            Some(DeviceParametersIndex::OffsetTime)
        } else if 0x0031 <= index && index <= 0x003F {
            Some(DeviceParametersIndex::ProfileSpecific(index))
        } else if 0x0040 <= index && index <= 0x00FE {
            Some(DeviceParametersIndex::PreferredIndex(index))
        } else if 0x0100 <= index && index <= 0x3FFF {
            Some(DeviceParametersIndex::ExtendedIndex(index))
        } else if 0x4000 <= index && index <= 0x41FF {
            Some(DeviceParametersIndex::DeviceProfileIndex(index))
        } else if 0x4200 <= index && index <= 0x42FF {
            Some(DeviceParametersIndex::SafetySpecificIndex(index))
        } else if 0x4300 <= index && index <= 0x4FFF {
            Some(DeviceParametersIndex::SecondaryDeviceProfileIndex(index))
        } else if 0x5000 <= index && index <= 0x50FF {
            Some(DeviceParametersIndex::WirelessSpecificIndex(index))
        } else {
            None
        }
    }

    /// Returns the index of the data object.
    pub fn index(&self) -> (r: u16)
        ensures
            r == spec_index(*self),
    {
        match *self {
            DeviceParametersIndex::DirectParameterPage1 => 0x0000,
            DeviceParametersIndex::DirectParameterPage2 => 0x0001,
            DeviceParametersIndex::SystemCommand => 0x0002,
            DeviceParametersIndex::DataStorageIndex => 0x0003,
            DeviceParametersIndex::DeviceAccessLocks => 0x000C,
            DeviceParametersIndex::ProfileCharacteristic => 0x000D,
            DeviceParametersIndex::PDInputDescriptor => 0x000E,
            DeviceParametersIndex::PDOutputDescriptor => 0x000F,
            DeviceParametersIndex::VendorName => 0x0010,
            DeviceParametersIndex::VendorText => 0x0011,
            DeviceParametersIndex::ProductName => 0x0012,
            DeviceParametersIndex::ProductID => 0x0013,
            DeviceParametersIndex::ProductText => 0x0014,
            DeviceParametersIndex::SerialNumber => 0x0015,
            DeviceParametersIndex::HardwareRevision => 0x0016,
            DeviceParametersIndex::FirmwareRevision => 0x0017,
            DeviceParametersIndex::ApplicationSpecificTag => 0x0018,
            DeviceParametersIndex::FunctionTag => 0x0019,
            DeviceParametersIndex::LocationTag => 0x001A,
            DeviceParametersIndex::ProductURI => 0x001B,
            DeviceParametersIndex::ErrorCount => 0x0020,
            DeviceParametersIndex::DeviceStatus => 0x0024,
            DeviceParametersIndex::DetailedDeviceStatus => 0x0025,
            DeviceParametersIndex::ProcessDataInput => 0x0028,
            DeviceParametersIndex::ProcessDataOutput => 0x0029,
            DeviceParametersIndex::OffsetTime => 0x0030,
            DeviceParametersIndex::ProfileSpecific(x) => x,
            DeviceParametersIndex::PreferredIndex(x) => x,
            DeviceParametersIndex::ExtendedIndex(x) => x,
            DeviceParametersIndex::DeviceProfileIndex(x) => x,
            DeviceParametersIndex::SafetySpecificIndex(x) => x,
            DeviceParametersIndex::SecondaryDeviceProfileIndex(x) => x,
            DeviceParametersIndex::WirelessSpecificIndex(x) => x,
        }
    }

    /// Returns the name of the data object.
    pub fn name(&self) -> (r: &'static str)
        ensures
            r@ == (match *self {
                DeviceParametersIndex::DirectParameterPage1 => "Direct Parameter Page 1"@,
                DeviceParametersIndex::DirectParameterPage2 => "Direct Parameter Page 2"@,
                DeviceParametersIndex::SystemCommand => "System-Command"@,
                DeviceParametersIndex::DataStorageIndex => "Data-Storage-Index"@,
                DeviceParametersIndex::DeviceAccessLocks => "Device-Access-Locks"@,
                DeviceParametersIndex::ProfileCharacteristic => "Profile-Characteristic"@,
                DeviceParametersIndex::PDInputDescriptor => "PDInput-Descriptor"@,
                DeviceParametersIndex::PDOutputDescriptor => "PDOutput-Descriptor"@,
                DeviceParametersIndex::VendorName => "Vendor-Name"@,
                DeviceParametersIndex::VendorText => "Vendor-Text"@,
                DeviceParametersIndex::ProductName => "Product-Name"@,
                DeviceParametersIndex::ProductID => "ProductID"@,
                DeviceParametersIndex::ProductText => "Product-Text"@,
                DeviceParametersIndex::SerialNumber => "Serial-Number"@,
                DeviceParametersIndex::HardwareRevision => "Hardware-Revision"@,
                DeviceParametersIndex::FirmwareRevision => "Firmware-Revision"@,
                DeviceParametersIndex::ApplicationSpecificTag => "Application-Specific-Tag"@,
                DeviceParametersIndex::FunctionTag => "Function-Tag"@,
                DeviceParametersIndex::LocationTag => "Location-Tag"@,
                DeviceParametersIndex::ProductURI => "Product-URI"@,
                DeviceParametersIndex::ErrorCount => "ErrorCount"@,
                DeviceParametersIndex::DeviceStatus => "Device-Status"@,
                DeviceParametersIndex::DetailedDeviceStatus => "Detailed-Device-Status"@,
                DeviceParametersIndex::ProcessDataInput => "Process-DataInput"@,
                DeviceParametersIndex::ProcessDataOutput => "Process-DataOutput"@,
                DeviceParametersIndex::OffsetTime => "Offset-Time"@,
                DeviceParametersIndex::ProfileSpecific(_) => "Profile-Specific"@,
                DeviceParametersIndex::PreferredIndex(_) => "Preferred-Index"@,
                DeviceParametersIndex::ExtendedIndex(_) => "Extended-Index"@,
                DeviceParametersIndex::DeviceProfileIndex(_) => "Device-Profile-Index"@,
                DeviceParametersIndex::SafetySpecificIndex(_) => "Safety-Specific-Index"@,
                DeviceParametersIndex::SecondaryDeviceProfileIndex(_) => "Secondary-Device-Profile-Index"@,
                DeviceParametersIndex::WirelessSpecificIndex(_) => "Wireless-Specific-Index"@,
            }),
    {
        match *self {
            DeviceParametersIndex::DirectParameterPage1 => "Direct Parameter Page 1",
            DeviceParametersIndex::DirectParameterPage2 => "Direct Parameter Page 2",
            DeviceParametersIndex::SystemCommand => "System-Command",
            DeviceParametersIndex::DataStorageIndex => "Data-Storage-Index",
            DeviceParametersIndex::DeviceAccessLocks => "Device-Access-Locks",
            DeviceParametersIndex::ProfileCharacteristic => "Profile-Characteristic",
            DeviceParametersIndex::PDInputDescriptor => "PDInput-Descriptor",
            DeviceParametersIndex::PDOutputDescriptor => "PDOutput-Descriptor",
            DeviceParametersIndex::VendorName => "Vendor-Name",
            DeviceParametersIndex::VendorText => "Vendor-Text",
            DeviceParametersIndex::ProductName => "Product-Name",
            DeviceParametersIndex::ProductID => "ProductID",
            DeviceParametersIndex::ProductText => "Product-Text",
            DeviceParametersIndex::SerialNumber => "Serial-Number",
            DeviceParametersIndex::HardwareRevision => "Hardware-Revision",
            DeviceParametersIndex::FirmwareRevision => "Firmware-Revision",
            DeviceParametersIndex::ApplicationSpecificTag => "Application-Specific-Tag",
            DeviceParametersIndex::FunctionTag => "Function-Tag",
            DeviceParametersIndex::LocationTag => "Location-Tag",
            DeviceParametersIndex::ProductURI => "Product-URI",
            DeviceParametersIndex::ErrorCount => "ErrorCount",
            DeviceParametersIndex::DeviceStatus => "Device-Status",
            DeviceParametersIndex::DetailedDeviceStatus => "Detailed-Device-Status",
            DeviceParametersIndex::ProcessDataInput => "Process-DataInput",
            DeviceParametersIndex::ProcessDataOutput => "Process-DataOutput",
            DeviceParametersIndex::OffsetTime => "Offset-Time",
            DeviceParametersIndex::ProfileSpecific(_) => "Profile-Specific",
            DeviceParametersIndex::PreferredIndex(_) => "Preferred-Index",
            DeviceParametersIndex::ExtendedIndex(_) => "Extended-Index",
            DeviceParametersIndex::DeviceProfileIndex(_) => "Device-Profile-Index",
            DeviceParametersIndex::SafetySpecificIndex(_) => "Safety-Specific-Index",
            DeviceParametersIndex::SecondaryDeviceProfileIndex(_) => "Secondary-Device-Profile-Index",
            DeviceParametersIndex::WirelessSpecificIndex(_) => "Wireless-Specific-Index",
        }
    }

    /// Returns the category of the data object.
    pub fn category(&self) -> (r: IndexCategory)
        ensures
            r == spec_category(*self),
    {
        match *self {
            DeviceParametersIndex::ProfileSpecific(_) => IndexCategory::ProfileSpecific,
            DeviceParametersIndex::PreferredIndex(_) => IndexCategory::PreferredIndex,
            DeviceParametersIndex::ExtendedIndex(_) => IndexCategory::ExtendedIndex,
            DeviceParametersIndex::DeviceProfileIndex(_) => IndexCategory::DeviceProfile,
            DeviceParametersIndex::SafetySpecificIndex(_) => IndexCategory::SafetySpecific,
            DeviceParametersIndex::SecondaryDeviceProfileIndex(_) => IndexCategory::DeviceProfile,
            DeviceParametersIndex::WirelessSpecificIndex(_) => IndexCategory::WirelessSpecific,
            _ => IndexCategory::Standard,
        }
    }
}

/// The data object found for an index has that index.
pub proof fn from_index_gives_index(index: u16)
    ensures
        spec_from_index(index) matches Some(p) ==> spec_index(p) == index && index_in_range(p),
{
}

/// Every data object, its range variants carrying an index of their own
/// range, is found again from its index.
pub proof fn index_gives_from_index(p: DeviceParametersIndex)
    requires
        index_in_range(p),
    ensures
        spec_from_index(spec_index(p)) == Some(p),
{
}

/// Sub-indices of Direct Parameter page 1.
#[derive(Debug, Clone, Copy, PartialEq, Eq, Structural)]
pub enum DirectParameterPage1SubIndex {
    MasterCommand,
    MasterCycleTime,
    MinCycleTime,
    MSequenceCapability,
    RevisionID,
    ProcessDataIn,
    ProcessDataOut,
    VendorID1,
    VendorID2,
    DeviceID1,
    DeviceID2,
    DeviceID3,
    FunctionID1,
    FunctionID2,
    Reserved0E,
    SystemCommand,
}

/// Sub-indices of the Data Storage index.
#[derive(Debug, Clone, Copy, PartialEq, Eq, Structural)]
pub enum DataStorageIndexSubIndex {
    DsCommand,
    StateProperty,
    DataStorageSize,
    ParameterChecksum,
    IndexList,
}

/// A sub-index of one of the structured data objects; Direct Parameter
/// page 2 sub-indices are given by their number 0x10 to 0x1F.
#[derive(Debug, Clone, Copy, PartialEq, Eq, Structural)]
pub enum SubIndex {
    DpPage1(DirectParameterPage1SubIndex),
    DpPage2(u8),
    DataStorageIndex(DataStorageIndexSubIndex),
    VendorName,
}

/// The number of a Direct Parameter page 1 sub-index.
pub open spec fn spec_page1_subindex(s: DirectParameterPage1SubIndex) -> u8 {
    match s {
        DirectParameterPage1SubIndex::MasterCommand => 0x00,
        DirectParameterPage1SubIndex::MasterCycleTime => 0x01,
        DirectParameterPage1SubIndex::MinCycleTime => 0x02,
        DirectParameterPage1SubIndex::MSequenceCapability => 0x03,
        DirectParameterPage1SubIndex::RevisionID => 0x04,
        DirectParameterPage1SubIndex::ProcessDataIn => 0x05,
        DirectParameterPage1SubIndex::ProcessDataOut => 0x06,
        DirectParameterPage1SubIndex::VendorID1 => 0x07,
        DirectParameterPage1SubIndex::VendorID2 => 0x08,
        DirectParameterPage1SubIndex::DeviceID1 => 0x09,
        DirectParameterPage1SubIndex::DeviceID2 => 0x0A,
        DirectParameterPage1SubIndex::DeviceID3 => 0x0B,
        DirectParameterPage1SubIndex::FunctionID1 => 0x0C,
        DirectParameterPage1SubIndex::FunctionID2 => 0x0D,
        DirectParameterPage1SubIndex::Reserved0E => 0x0E,
        DirectParameterPage1SubIndex::SystemCommand => 0x0F,
    }
}

/// The number of a Data Storage sub-index.
pub open spec fn spec_ds_subindex(s: DataStorageIndexSubIndex) -> u8 {
    match s {
        DataStorageIndexSubIndex::DsCommand => 0x01,
        DataStorageIndexSubIndex::StateProperty => 0x02,
        DataStorageIndexSubIndex::DataStorageSize => 0x03,
        DataStorageIndexSubIndex::ParameterChecksum => 0x04,
        DataStorageIndexSubIndex::IndexList => 0x05,
    }
}

/// The sub-index belongs to the data object.
pub open spec fn subindex_belongs(p: DeviceParametersIndex, s: SubIndex) -> bool {
    match (p, s) {
        (DeviceParametersIndex::DirectParameterPage1, SubIndex::DpPage1(_)) => true,
        (DeviceParametersIndex::DirectParameterPage2, SubIndex::DpPage2(n)) => 0x10 <= n <= 0x1F,
        (DeviceParametersIndex::DataStorageIndex, SubIndex::DataStorageIndex(_)) => true,
        (DeviceParametersIndex::VendorName, SubIndex::VendorName) => true,
        _ => false,
    }
}

/// The number of a sub-index.
pub open spec fn spec_subindex(s: SubIndex) -> u8 {
    match s {
        SubIndex::DpPage1(x) => spec_page1_subindex(x),
        SubIndex::DpPage2(n) => n,
        SubIndex::DataStorageIndex(x) => spec_ds_subindex(x),
        SubIndex::VendorName => 0x00,
    }
}

impl DeviceParametersIndex {
    /// Returns the number of a sub-index of this data object.
    pub fn subindex(&self, subindex: SubIndex) -> (r: u8)
        requires
            subindex_belongs(*self, subindex),
        ensures
            r == spec_subindex(subindex),
    {
        match subindex {
            SubIndex::DpPage1(x) => match x {
                DirectParameterPage1SubIndex::MasterCommand => 0x00,
                DirectParameterPage1SubIndex::MasterCycleTime => 0x01,
                DirectParameterPage1SubIndex::MinCycleTime => 0x02,
                DirectParameterPage1SubIndex::MSequenceCapability => 0x03,
                DirectParameterPage1SubIndex::RevisionID => 0x04,
                DirectParameterPage1SubIndex::ProcessDataIn => 0x05,
                DirectParameterPage1SubIndex::ProcessDataOut => 0x06,
                DirectParameterPage1SubIndex::VendorID1 => 0x07,
                DirectParameterPage1SubIndex::VendorID2 => 0x08,
                DirectParameterPage1SubIndex::DeviceID1 => 0x09,
                DirectParameterPage1SubIndex::DeviceID2 => 0x0A,
                DirectParameterPage1SubIndex::DeviceID3 => 0x0B,
                DirectParameterPage1SubIndex::FunctionID1 => 0x0C,
                DirectParameterPage1SubIndex::FunctionID2 => 0x0D,
                DirectParameterPage1SubIndex::Reserved0E => 0x0E,
                DirectParameterPage1SubIndex::SystemCommand => 0x0F,
            },
            SubIndex::DpPage2(n) => n,
            SubIndex::DataStorageIndex(x) => match x {
                DataStorageIndexSubIndex::DsCommand => 0x01,
                DataStorageIndexSubIndex::StateProperty => 0x02,
                DataStorageIndexSubIndex::DataStorageSize => 0x03,
                DataStorageIndexSubIndex::ParameterChecksum => 0x04,
                DataStorageIndexSubIndex::IndexList => 0x05,
            },
            SubIndex::VendorName => 0x00,
        }
    }
}

} // verus!
