//! IO-Link device stack: protocol data types, configuration, parameter
//! storage and the state machines of the data link and application layers,
//! with their behaviour stated in contracts.

pub mod errors;
pub mod protocol;
pub mod page1;
pub mod dev_config;
pub mod parameter_index;
pub mod system_command;
pub mod bounded;
pub mod parameter_storage;
pub mod system_management;
pub mod event;
pub mod storage;
pub mod al;
pub mod dl;
pub mod bindings;
pub mod testing;
pub mod frame_utils;
pub mod isdu_sequences;
