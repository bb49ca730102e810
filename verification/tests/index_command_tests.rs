use iolinke::parameter_index::{
    DataStorageIndexSubIndex, DeviceParametersIndex, IndexCategory, SubIndex,
};
use iolinke::system_command::{CommandRequirement, DsCommand, SystemCommand};
use iolinke::errors::IoLinkError;

#[test]
fn indexes_of_data_objects() {
    assert_eq!(DeviceParametersIndex::from_index(0x0002), Some(DeviceParametersIndex::SystemCommand));
    assert_eq!(DeviceParametersIndex::from_index(0x0012), Some(DeviceParametersIndex::ProductName));
    assert_eq!(DeviceParametersIndex::SystemCommand.index(), 0x0002);
    assert_eq!(DeviceParametersIndex::VendorName.index(), 0x0010);
    assert_eq!(DeviceParametersIndex::DataStorageIndex.category(), IndexCategory::Standard);
    assert_eq!(
        DeviceParametersIndex::DataStorageIndex
            .subindex(SubIndex::DataStorageIndex(DataStorageIndexSubIndex::StateProperty)),
        0x02
    );
    assert_eq!(
        DeviceParametersIndex::DataStorageIndex
            .subindex(SubIndex::DataStorageIndex(DataStorageIndexSubIndex::IndexList)),
        0x05
    );
}

#[test]
fn system_command_values() {
    assert_eq!(SystemCommand::from_u8(0x05), Some(SystemCommand::ParamDownloadStore));
    assert_eq!(SystemCommand::from_u8(0x80), Some(SystemCommand::DeviceReset));
    assert_eq!(SystemCommand::from_u8(0xA5), Some(SystemCommand::VendorSpecific(0xA5)));
    assert_eq!(SystemCommand::from_u8(0x07), None);
    assert_eq!(SystemCommand::ParamBreak.as_u8(), 0x06);
    assert_eq!(SystemCommand::BackToBox.as_u8(), 0x83);
    for c in 0..=255u8 {
        if let Some(cmd) = SystemCommand::from_u8(c) {
            assert_eq!(cmd.as_u8(), c);
        }
    }
    assert_eq!(SystemCommand::VendorSpecific(0xB0).requirement(), CommandRequirement::VendorSpecific);
}

#[test]
fn ds_command_values() {
    assert_eq!(DsCommand::try_from_u8(1), Ok(DsCommand::UploadStart));
    assert_eq!(DsCommand::try_from_u8(5), Ok(DsCommand::Break));
    assert_eq!(DsCommand::try_from_u8(0), Err(IoLinkError::InvalidData));
}

#[test]
fn parameter_index_names() {
    assert_eq!(DeviceParametersIndex::VendorName.name(), "Vendor-Name");
    assert_eq!(DeviceParametersIndex::DirectParameterPage1.name(), "Direct Parameter Page 1");
    assert_eq!(DeviceParametersIndex::ProcessDataInput.name(), "Process-DataInput");
    assert_eq!(DeviceParametersIndex::PreferredIndex(0x0100).name(), "Preferred-Index");
}
