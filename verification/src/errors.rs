use vstd::prelude::*;

verus! {

/// Errors reported by the IO-Link device stack.
#[derive(Debug, Clone, Copy, PartialEq, Eq, Structural)]
pub enum IoLinkError {
    /// The requested feature has no implementation.
    NoImplFound,
    /// A parameter value is not valid.
    InvalidParameter,
    /// The function is not available.
    FuncNotAvailable,
    /// The event is not accepted in the current state.
    InvalidEvent,
    /// A length does not fit.
    InvalidLength,
    /// Data could not be interpreted.
    InvalidData,
    /// A checksum did not match.
    ChecksumError,
    /// The M-sequence type is not valid.
    InvalidMseqType,
    /// An index or segment number is not the expected one.
    InvalidIndex,
    /// An address is out of range.
    InvalidAddress,
    /// The memory is frozen and cannot be changed.
    ReadOnlyError,
    /// The event memory has no room left.
    EventMemoryFull,
    /// A parameter could not be read from the parameter storage.
    FailedToGetParameter,
    /// A parameter could not be written to the parameter storage.
    FailedToSetParameter,
    /// The service is not available in the current state.
    StateConflict,
}

/// Result type of the IO-Link device stack.
pub type IoLinkResult<T> = Result<T, IoLinkError>;

/// Errors of the System Management services.
#[derive(Debug, Clone, Copy, PartialEq, Eq, Structural)]
pub enum SmError {
    /// The service is not available in the current state.
    StateConflict,
    /// The consistency of the parameter set is violated.
    ParameterConflict,
}

/// Result type of the System Management services.
pub type SmResult<T> = Result<T, SmError>;

} // verus!
