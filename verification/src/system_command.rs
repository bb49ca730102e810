//! SystemCommand values (index 0x0002) and Data Storage commands.
use vstd::prelude::*;
use crate::errors::{IoLinkError, IoLinkResult};

verus! {

/// System commands written by the master.
#[derive(Debug, Clone, Copy, PartialEq, Eq, Structural)]
pub enum SystemCommand {
    /// 0x01: start parameter upload.
    ParamUploadStart,
    /// 0x02: stop parameter upload.
    ParamUploadEnd,
    /// 0x03: start parameter download.
    ParamDownloadStart,
    /// 0x04: stop parameter download.
    ParamDownloadEnd,
    /// 0x05: finalize parameterization and start Data Storage.
    ParamDownloadStore,
    /// 0x06: cancel all Param commands.
    ParamBreak,
    /// 0x80: device reset.
    DeviceReset,
    /// 0x81: application reset.
    ApplicationReset,
    /// 0x82: restore factory settings.
    RestoreFactorySettings,
    /// 0x83: back to box.
    BackToBox,
    /// 0xA0 to 0xFF: vendor specific.
    VendorSpecific(u8),
}

/// Requirement level of a system command.
#[derive(Debug, Clone, Copy, PartialEq, Eq, Structural)]
pub enum CommandRequirement {
    HighlyRecommended,
    Optional,
    Conditional,
    VendorSpecific,
}

/// The command that a raw value designates, if any.
pub open spec fn spec_system_command_from_u8(c: u8) -> Option<SystemCommand> {
    if c == 0x01 {
        Some(SystemCommand::ParamUploadStart)
    } else if c == 0x02 {
        Some(SystemCommand::ParamUploadEnd)
    } else if c == 0x03 {
        Some(SystemCommand::ParamDownloadStart)
    } else if c == 0x04 {
        Some(SystemCommand::ParamDownloadEnd)
    } else if c == 0x05 {
        Some(SystemCommand::ParamDownloadStore)
    } else if c == 0x06 {
        Some(SystemCommand::ParamBreak)
    } else if c == 0x80 {
        Some(SystemCommand::DeviceReset)
    } else if c == 0x81 {
        Some(SystemCommand::ApplicationReset)
    } else if c == 0x82 {
        Some(SystemCommand::RestoreFactorySettings)
    } else if c == 0x83 {
        Some(SystemCommand::BackToBox)
    } else if c >= 0xA0 {
        Some(SystemCommand::VendorSpecific(c))
    } else {
        None
    }
}

/// The raw value of a command.
pub open spec fn spec_system_command_as_u8(c: SystemCommand) -> u8 {
    match c {
        SystemCommand::ParamUploadStart => 0x01,
        SystemCommand::ParamUploadEnd => 0x02,
        SystemCommand::ParamDownloadStart => 0x03,
        SystemCommand::ParamDownloadEnd => 0x04,
        SystemCommand::ParamDownloadStore => 0x05,
        SystemCommand::ParamBreak => 0x06,
        SystemCommand::DeviceReset => 0x80,
        SystemCommand::ApplicationReset => 0x81,
        SystemCommand::RestoreFactorySettings => 0x82,
        SystemCommand::BackToBox => 0x83,
        SystemCommand::VendorSpecific(x) => x,
    }
}

/// The requirement level of a command.
pub open spec fn spec_requirement(c: SystemCommand) -> CommandRequirement {
    match c {
        SystemCommand::DeviceReset | SystemCommand::RestoreFactorySettings => CommandRequirement::Optional,
        SystemCommand::ApplicationReset => CommandRequirement::HighlyRecommended,
        SystemCommand::VendorSpecific(_) => CommandRequirement::VendorSpecific,
        _ => CommandRequirement::Conditional,
    }
}

/// A vendor-specific command carries a value of the vendor range.
pub open spec fn system_command_wf(c: SystemCommand) -> bool {
    c matches SystemCommand::VendorSpecific(x) ==> x >= 0xA0
}

impl SystemCommand {
    /// Returns the command that a raw value designates, or `None` for a
    /// reserved value.
    pub fn from_u8(command: u8) -> (r: Option<SystemCommand>)
        ensures
            r == spec_system_command_from_u8(command),
    {
        if command == 0x01 {
            Some(SystemCommand::ParamUploadStart)
        } else if command == 0x02 {
            Some(SystemCommand::ParamUploadEnd)
        } else if command == 0x03 {
            Some(SystemCommand::ParamDownloadStart)
        } else if command == 0x04 {
            Some(SystemCommand::ParamDownloadEnd)
        } else if command == 0x05 {
            Some(SystemCommand::ParamDownloadStore)
        } else if command == 0x06 {
            Some(SystemCommand::ParamBreak)
        } else if command == 0x80 {
            Some(SystemCommand::DeviceReset)
        } else if command == 0x81 {
            Some(SystemCommand::ApplicationReset)
        } else if command == 0x82 {
            Some(SystemCommand::RestoreFactorySettings)
        } else if command == 0x83 {
            Some(SystemCommand::BackToBox)
        } else if command >= 0xA0 {
            Some(SystemCommand::VendorSpecific(command))
        } else {
            None
        }
    }

    /// Returns the raw value of the command.
    pub fn as_u8(&self) -> (r: u8)
        ensures
            r == spec_system_command_as_u8(*self),
    {
        match *self {
            SystemCommand::ParamUploadStart => 0x01,
            SystemCommand::ParamUploadEnd => 0x02,
            SystemCommand::ParamDownloadStart => 0x03,
            SystemCommand::ParamDownloadEnd => 0x04,
            SystemCommand::ParamDownloadStore => 0x05,
            SystemCommand::ParamBreak => 0x06,
            SystemCommand::DeviceReset => 0x80,
            SystemCommand::ApplicationReset => 0x81,
            SystemCommand::RestoreFactorySettings => 0x82,
            SystemCommand::BackToBox => 0x83,
            SystemCommand::VendorSpecific(x) => x,
        }
    }

    /// Returns the name of the command.
    pub fn name(&self) -> (r: &'static str)
        ensures
            r@ == (match *self {
                SystemCommand::ParamUploadStart => "ParamUploadStart"@,
                SystemCommand::ParamUploadEnd => "ParamUploadEnd"@,
                SystemCommand::ParamDownloadStart => "ParamDownloadStart"@,
                SystemCommand::ParamDownloadEnd => "ParamDownloadEnd"@,
                SystemCommand::ParamDownloadStore => "ParamDownloadStore"@,
                SystemCommand::ParamBreak => "ParamBreak"@,
                SystemCommand::DeviceReset => "DeviceReset"@,
                SystemCommand::ApplicationReset => "ApplicationReset"@,
                SystemCommand::RestoreFactorySettings => "RestoreFactorySettings"@,
                SystemCommand::BackToBox => "BackToBox"@,
                SystemCommand::VendorSpecific(_) => "VendorSpecific"@,
            }),
    {
        match *self {
            SystemCommand::ParamUploadStart => "ParamUploadStart",
            SystemCommand::ParamUploadEnd => "ParamUploadEnd",
            SystemCommand::ParamDownloadStart => "ParamDownloadStart",
            SystemCommand::ParamDownloadEnd => "ParamDownloadEnd",
            SystemCommand::ParamDownloadStore => "ParamDownloadStore",
            SystemCommand::ParamBreak => "ParamBreak",
            SystemCommand::DeviceReset => "DeviceReset",
            SystemCommand::ApplicationReset => "ApplicationReset",
            SystemCommand::RestoreFactorySettings => "RestoreFactorySettings",
            SystemCommand::BackToBox => "BackToBox",
            SystemCommand::VendorSpecific(_) => "VendorSpecific",
        }
    }

    /// Returns the requirement level of the command.
    pub fn requirement(&self) -> (r: CommandRequirement)
        ensures
            r == spec_requirement(*self),
    {
        match *self {
            SystemCommand::DeviceReset | SystemCommand::RestoreFactorySettings => CommandRequirement::Optional,
            SystemCommand::ApplicationReset => CommandRequirement::HighlyRecommended,
            SystemCommand::VendorSpecific(_) => CommandRequirement::VendorSpecific,
            _ => CommandRequirement::Conditional,
        }
    }
}

/// Decoding a command's raw value gives the command back.
pub proof fn system_command_round_trip(c: SystemCommand)
    requires
        system_command_wf(c),
    ensures
        spec_system_command_from_u8(spec_system_command_as_u8(c)) == Some(c),
{
}

/// A decoded command has the decoded raw value.
pub proof fn system_command_value_round_trip(v: u8)
    ensures
        spec_system_command_from_u8(v) matches Some(c) ==> spec_system_command_as_u8(c) == v
            && system_command_wf(c),
{
}

/// Data Storage commands (sub-index 0x01 of the Data Storage index).
#[derive(Debug, Clone, Copy, PartialEq, Eq, Structural)]
pub enum DsCommand {
    UploadStart,
    UploadEnd,
    DownloadStart,
    DownloadEnd,
    Break,
}

/// The Data Storage command that a raw value designates.
pub open spec fn spec_ds_command_from_u8(v: u8) -> Option<DsCommand> {
    if v == 0x01 {
        Some(DsCommand::UploadStart)
    } else if v == 0x02 {
        Some(DsCommand::UploadEnd)
    } else if v == 0x03 {
        Some(DsCommand::DownloadStart)
    } else if v == 0x04 {
        Some(DsCommand::DownloadEnd)
    } else if v == 0x05 {
        Some(DsCommand::Break)
    } else {
        None
    }
}

impl DsCommand {
    /// Decodes a Data Storage command; other values are `InvalidData`.
    pub fn try_from_u8(v: u8) -> (r: IoLinkResult<DsCommand>)
        ensures
            spec_ds_command_from_u8(v) matches Some(c) ==> r == Ok::<DsCommand, IoLinkError>(c),
            spec_ds_command_from_u8(v) is None ==> r == Err::<DsCommand, IoLinkError>(IoLinkError::InvalidData),
    {
        if v == 0x01 {
            Ok(DsCommand::UploadStart)
        } else if v == 0x02 {
            Ok(DsCommand::UploadEnd)
        } else if v == 0x03 {
            Ok(DsCommand::DownloadStart)
        } else if v == 0x04 {
            Ok(DsCommand::DownloadEnd)
        } else if v == 0x05 {
            Ok(DsCommand::Break)
        } else {
            Err(IoLinkError::InvalidData)
        }
    }
}

} // verus!
