//! What can go wrong between the library and a keyboard.

use vstd::prelude::*;

verus! {

/// Why an operation on a keyboard did not go through.
#[derive(Debug, Clone, Copy, PartialEq, Eq, Structural)]
pub enum ProtocolError {
    /// No device on the bus has the identity of the board.
    DeviceNotFound,
    /// The firmware answers with a version that the library does not know.
    UnknownFirmwareVersion,
    /// The keyboard did not acknowledge a command.
    UpdateCommandFailed,
    /// Writing to the device or reading from it failed.
    TransportError,
    /// The picture or animation does not have a size that its slot takes.
    PayloadTooLarge,
}

/// The error of an operation on a Zoom65 v3.
pub type Zoom65Error = ProtocolError;

/// The result of an operation on a Zoom65 v3.
pub type Zoom65Result<T> = Result<T, ProtocolError>;

/// The error of an operation on a Zoom TKL Dyna.
pub type ZoomTklDynaError = ProtocolError;

/// The result of an operation on a Zoom TKL Dyna.
pub type ZoomTklDynaResult<T> = Result<T, ProtocolError>;

impl ProtocolError {
    /// What to tell the user.
    pub open spec fn text(self) -> Seq<char> {
        match self {
            ProtocolError::DeviceNotFound => "failed to find device"@,
            ProtocolError::UnknownFirmwareVersion => "firmware version is unknown. open an issue for support"@,
            ProtocolError::UpdateCommandFailed => "keyboard responded with error while updating"@,
            ProtocolError::TransportError => "failed to talk to the device"@,
            ProtocolError::PayloadTooLarge => "media does not fit its slot on the screen"@,
        }
    }

    /// What to tell the user.
    pub fn message(&self) -> (message: &'static str)
        ensures
            message@ == self.text(),
    {
        match self {
            ProtocolError::DeviceNotFound => "failed to find device",
            ProtocolError::UnknownFirmwareVersion => "firmware version is unknown. open an issue for support",
            ProtocolError::UpdateCommandFailed => "keyboard responded with error while updating",
            ProtocolError::TransportError => "failed to talk to the device",
            ProtocolError::PayloadTooLarge => "media does not fit its slot on the screen",
        }
    }

    /// Whether opening the device again and starting over can help. An unknown
    /// firmware and a payload of the wrong size stay as they are.
    pub fn is_retryable(&self) -> (retryable: bool)
        ensures
            retryable == !(self == ProtocolError::UnknownFirmwareVersion || self
                == ProtocolError::PayloadTooLarge),
    {
        match self {
            ProtocolError::UnknownFirmwareVersion | ProtocolError::PayloadTooLarge => false,
            _ => true,
        }
    }
}

} // verus!
