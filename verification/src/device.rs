//! Finding the keyboard among the devices on the bus, and knowing its firmware.

use crate::board::BoardInfo;
use crate::error::ProtocolError;
use vstd::prelude::*;

verus! {

/// How a device on the bus names itself.
#[derive(Debug, Clone, Copy, PartialEq, Eq, Structural)]
pub struct DeviceDescriptor {
    pub vendor_id: u16,
    pub product_id: u16,
    pub usage_page: u16,
    pub usage: u16,
}

impl DeviceDescriptor {
    /// Whether the device is a board of the given kind: vendor, product, usage
    /// page and usage are all what the board says of itself. A board that leaves
    /// one of them open is never found.
    pub open spec fn is_board(self, info: BoardInfo) -> bool {
        &&& info.vendor_id == Some(self.vendor_id)
        &&& info.product_id == Some(self.product_id)
        &&& info.usage_page == Some(self.usage_page)
        &&& info.usage == Some(self.usage)
    }

    /// Whether the device is a board of the given kind.
    pub fn matches(&self, info: &BoardInfo) -> (same: bool)
        ensures
            same == self.is_board(*info),
    {
        match (info.vendor_id, info.product_id, info.usage_page, info.usage) {
            (Some(vendor_id), Some(product_id), Some(usage_page), Some(usage)) => {
                self.vendor_id == vendor_id && self.product_id == product_id && self.usage_page
                    == usage_page && self.usage == usage
            },
            _ => false,
        }
    }
}

/// Whether `index` is the place of the first device in `devices` that is a board
/// of the given kind.
pub open spec fn is_first_match(
    devices: Seq<DeviceDescriptor>,
    info: BoardInfo,
    index: int,
) -> bool {
    &&& 0 <= index < devices.len()
    &&& devices[index].is_board(info)
    &&& forall|j: int| 0 <= j < index ==> !devices[j].is_board(info)
}

/// Whether no device in `devices` is a board of the given kind.
pub open spec fn no_match(devices: Seq<DeviceDescriptor>, info: BoardInfo) -> bool {
    forall|j: int| 0 <= j < devices.len() ==> !devices[j].is_board(info)
}

/// Finds the first device that is a board of the given kind.
pub fn find_device(devices: &[DeviceDescriptor], info: &BoardInfo) -> (found: Result<
    usize,
    ProtocolError,
>)
    ensures
        match found {
            Ok(index) => is_first_match(devices@, *info, index as int),
            Err(error) => error == ProtocolError::DeviceNotFound && no_match(devices@, *info),
        },
{
    let mut index: usize = 0;
    while index < devices.len()
        invariant
            index <= devices@.len(),
            forall|j: int| 0 <= j < index ==> !devices@[j].is_board(*info),
        decreases devices@.len() - index,
    {
        if devices[index].matches(info) {
            return Ok(index);
        }
        index += 1;
    }
    Err(ProtocolError::DeviceNotFound)
}

/// Reads the firmware version out of the answer to the version frame: the answer
/// echoes the opcode `1`, and the version is its third byte.
pub open spec fn version_in(response: Seq<u8>) -> Option<u8> {
    if response.len() >= 3 && response[0] == 1 {
        Some(response[2])
    } else {
        None
    }
}

/// Reads the firmware version out of the answer to the version frame. An answer
/// that is too short or does not echo the opcode is no answer to that frame.
pub fn version_from_response(response: &[u8]) -> (version: Result<u8, ProtocolError>)
    ensures
        match version {
            Ok(v) => version_in(response@) == Some(v),
            Err(error) => error == ProtocolError::UpdateCommandFailed && version_in(response@)
                is None,
        },
{
    if response.len() >= 3 && response[0] == 1 {
        Ok(response[2])
    } else {
        Err(ProtocolError::UpdateCommandFailed)
    }
}

/// Accepts a firmware version that is on the list of known ones.
pub fn check_version(version: u8, approved: &[u8]) -> (result: Result<(), ProtocolError>)
    ensures
        result is Ok <==> approved@.contains(version),
        result is Err ==> result == Err::<(), ProtocolError>(
            ProtocolError::UnknownFirmwareVersion,
        ),
{
    let mut i: usize = 0;
    while i < approved.len()
        invariant
            i <= approved@.len(),
            forall|j: int| 0 <= j < i ==> approved@[j] != version,
        decreases approved@.len() - i,
    {
        if approved[i] == version {
            return Ok(());
        }
        i += 1;
    }
    Err(ProtocolError::UnknownFirmwareVersion)
}

} // verus!
