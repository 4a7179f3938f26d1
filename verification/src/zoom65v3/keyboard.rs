//! What can be asked of a Zoom65 v3, each request as the frames that carry it.

use crate::board::{Board, BoardInfo, Capabilities};
use crate::device::{
    check_version, find_device, is_first_match, no_match, version_from_response, version_in,
    DeviceDescriptor,
};
use crate::error::ProtocolError;
use crate::float::{be16, DumbFloat16, MAX_HUNDREDTHS};
use crate::transport::{frames_of, Dialect, Progress, Transfer};
use crate::zoom65v3::abi;
use crate::zoom65v3::abi::command_frame;
use crate::zoom65v3::types::{Icon, ScreenPosition, UploadChannel};
use crate::zoom65v3::upload::{upload_frames, upload_script, GIF_LIMIT, IMAGE_LEN};
use vstd::prelude::*;

verus! {

/// The vendor id under which the keyboard shows up on the bus.
pub const ZOOM65_VENDOR_ID: u16 = 0x5542;

/// The product id under which the keyboard shows up on the bus.
pub const ZOOM65_PRODUCT_ID: u16 = 0xC987;

/// The usage page of the interface that takes the commands.
pub const ZOOM65_USAGE_PAGE: u16 = 65376;

/// The usage of the interface that takes the commands.
pub const ZOOM65_USAGE: u16 = 97;

/// What is known of the Zoom65 v3 before any device is opened.
pub open spec fn zoom65v3_info() -> BoardInfo {
    BoardInfo {
        name: "Zoom65 v3",
        cli_name: "zoom65v3",
        vendor_id: Some(ZOOM65_VENDOR_ID),
        product_id: Some(ZOOM65_PRODUCT_ID),
        usage_page: Some(ZOOM65_USAGE_PAGE),
        usage: Some(ZOOM65_USAGE),
        capabilities: Capabilities {
            time: true,
            weather: true,
            system_info: true,
            screen_pos: true,
            screen_nav: true,
            image: true,
            gif: true,
            theme: true,
        },
    }
}

/// An operation that has not started, with the given frames.
pub open spec fn fresh(script: Seq<Seq<u8>>) -> Progress {
    Progress { script, acknowledged: 0, failure: None }
}

/// `n` times the same frame.
pub open spec fn repeated(frame: Seq<u8>, n: nat) -> Seq<Seq<u8>> {
    Seq::new(n, |i: int| frame)
}

/// The frames that lead to a screen: one reset, which brings up the logo
/// whatever was shown before; a step up or down for every row between the logo
/// and the screen; a switch for every screen to the left of it in its row.
pub open spec fn set_screen_script(position: ScreenPosition) -> Seq<Seq<u8>> {
    let rows = position.vertical_delta();
    let none = Seq::<u8>::empty();
    seq![command_frame(abi::RESET_SCREEN@, none)] + (if rows < 0 {
        repeated(command_frame(abi::SCREEN_UP@, none), (-rows) as nat)
    } else {
        repeated(command_frame(abi::SCREEN_DOWN@, none), rows as nat)
    }) + repeated(command_frame(abi::SCREEN_SWITCH@, none), position.horizontal_offset())
}

/// The way to a screen is one reset, then only steps: as many steps up or down
/// as rows lie between the logo and the screen, then as many switches as screens
/// lie to the left of it. No frame after the first is a reset, and nothing but
/// the screen asked for goes into the frames.
pub proof fn lemma_set_screen_shape(position: ScreenPosition)
    ensures
        ({
            let script = set_screen_script(position);
            let none = Seq::<u8>::empty();
            let rows = position.vertical_delta();
            let steps = if rows < 0 {
                -rows
            } else {
                rows
            };
            let step = if rows < 0 {
                command_frame(abi::SCREEN_UP@, none)
            } else {
                command_frame(abi::SCREEN_DOWN@, none)
            };
            &&& script.len() == 1 + steps + position.horizontal_offset()
            &&& script[0] == command_frame(abi::RESET_SCREEN@, none)
            &&& forall|i: int| 1 <= i < 1 + steps ==> script[i] == step
            &&& forall|i: int|
                1 + steps <= i < script.len() ==> script[i] == command_frame(
                    abi::SCREEN_SWITCH@,
                    none,
                )
            &&& forall|i: int|
                1 <= i < script.len() ==> script[i] != command_frame(abi::RESET_SCREEN@, none)
        }),
{
    let none = Seq::<u8>::empty();
    let reset = command_frame(abi::RESET_SCREEN@, none);
    let up = command_frame(abi::SCREEN_UP@, none);
    let down = command_frame(abi::SCREEN_DOWN@, none);
    let switch = command_frame(abi::SCREEN_SWITCH@, none);
    assert(reset[4] == 1 && up[4] == 0 && down[4] == 0 && switch[4] == 0);
}

/// Appends `n` times the same frame to a list of frames.
fn push_repeated(frames: &mut Vec<[u8; 33]>, frame: [u8; 33], n: usize)
    ensures
        frames_of(final(frames)@) == frames_of(old(frames)@) + repeated(frame@, n as nat),
{
    let ghost before = frames_of(frames@);
    let mut i: usize = 0;
    while i < n
        invariant
            i <= n,
            frames_of(frames@) == before + repeated(frame@, i as nat),
        decreases n - i,
    {
        let ghost so_far = frames_of(frames@);
        frames.push(frame);
        assert(frames_of(frames@) =~= so_far.push(frame@));
        assert(repeated(frame@, i as nat).push(frame@) =~= repeated(frame@, (i + 1) as nat));
        assert(before + repeated(frame@, (i + 1) as nat) =~= (before + repeated(
            frame@,
            i as nat,
        )).push(frame@));
        i += 1;
    }
}

/// Builds the frames that lead to a screen: the reset, the steps, the switches.
pub(crate) fn set_screen_frames(position: ScreenPosition) -> (frames: Vec<[u8; 33]>)
    ensures
        frames_of(frames@) == set_screen_script(position),
{
    let (y, x) = position.to_directions();
    let mut frames: Vec<[u8; 33]> = Vec::new();
    frames.push(abi::reset_screen());
    assert(frames_of(frames@) =~= seq![
        command_frame(abi::RESET_SCREEN@, Seq::<u8>::empty()),
    ]);
    if y < 0 {
        push_repeated(&mut frames, abi::screen_up(), (-y) as usize);
    } else {
        push_repeated(&mut frames, abi::screen_down(), y as usize);
    }
    push_repeated(&mut frames, abi::screen_switch(), x);
    frames
}

/// A Zoom65 v3 that was found on the bus.
#[derive(Debug, Clone, Copy)]
pub struct Zoom65v3 {
    device: usize,
}

impl Zoom65v3 {
    /// The place of the keyboard in the list of devices that it was found in.
    pub closed spec fn device_index(&self) -> usize {
        self.device
    }

    /// The place of the keyboard in the list of devices that it was found in.
    pub fn device(&self) -> (index: usize)
        ensures
            index == self.device_index(),
    {
        self.device
    }

    /// What is known of the Zoom65 v3 before any device is opened.
    pub fn board_info() -> (info: BoardInfo)
        ensures
            info == zoom65v3_info(),
    {
        BoardInfo {
            name: "Zoom65 v3",
            cli_name: "zoom65v3",
            vendor_id: Some(ZOOM65_VENDOR_ID),
            product_id: Some(ZOOM65_PRODUCT_ID),
            usage_page: Some(ZOOM65_USAGE_PAGE),
            usage: Some(ZOOM65_USAGE),
            capabilities: Capabilities {
                time: true,
                weather: true,
                system_info: true,
                screen_pos: true,
                screen_nav: true,
                image: true,
                gif: true,
                theme: true,
            },
        }
    }

    /// Picks the keyboard out of the devices on the bus: the first one whose
    /// vendor, product, usage page and usage are those of the Zoom65 v3.
    pub fn open(devices: &[DeviceDescriptor]) -> (keyboard: Result<Self, ProtocolError>)
        ensures
            match keyboard {
                Ok(found) => is_first_match(
                    devices@,
                    zoom65v3_info(),
                    found.device_index() as int,
                ),
                Err(error) => error == ProtocolError::DeviceNotFound && no_match(
                    devices@,
                    zoom65v3_info(),
                ),
            },
    {
        let info = Self::board_info();
        match find_device(devices, &info) {
            Ok(device) => Ok(Zoom65v3 { device }),
            Err(error) => Err(error),
        }
    }

    /// Reads the firmware version out of the answer to [`abi::get_version`], and
    /// accepts it if it is one of the `approved` versions.
    pub fn get_version(&self, response: &[u8], approved: &[u8]) -> (version: Result<
        u8,
        ProtocolError,
    >)
        ensures
            match version {
                Ok(v) => version_in(response@) == Some(v) && approved@.contains(v),
                Err(error) => match version_in(response@) {
                    None => error == ProtocolError::UpdateCommandFailed,
                    Some(v) => error == ProtocolError::UnknownFirmwareVersion
                        && !approved@.contains(v),
                },
            },
    {
        match version_from_response(response) {
            Ok(version) => match check_version(version, approved) {
                Ok(()) => Ok(version),
                Err(error) => Err(error),
            },
            Err(error) => Err(error),
        }
    }

    /// Sets the colour theme of the screen.
    pub fn screen_theme(&self, theme: u8) -> (transfer: Transfer)
        ensures
            transfer.dialect() == Dialect::Zoom65v3,
            transfer.progress() == fresh(seq![command_frame(abi::SCREEN_THEME@, seq![theme])]),
    {
        Transfer::single(Dialect::Zoom65v3, abi::screen_theme(theme))
    }

    /// Moves the screen up one row.
    pub fn screen_up(&self) -> (transfer: Transfer)
        ensures
            transfer.dialect() == Dialect::Zoom65v3,
            transfer.progress() == fresh(
                seq![command_frame(abi::SCREEN_UP@, Seq::<u8>::empty())],
            ),
    {
        Transfer::single(Dialect::Zoom65v3, abi::screen_up())
    }

    /// Moves the screen down one row.
    pub fn screen_down(&self) -> (transfer: Transfer)
        ensures
            transfer.dialect() == Dialect::Zoom65v3,
            transfer.progress() == fresh(
                seq![command_frame(abi::SCREEN_DOWN@, Seq::<u8>::empty())],
            ),
    {
        Transfer::single(Dialect::Zoom65v3, abi::screen_down())
    }

    /// Switches to the next screen of the row.
    pub fn screen_switch(&self) -> (transfer: Transfer)
        ensures
            transfer.dialect() == Dialect::Zoom65v3,
            transfer.progress() == fresh(
                seq![command_frame(abi::SCREEN_SWITCH@, Seq::<u8>::empty())],
            ),
    {
        Transfer::single(Dialect::Zoom65v3, abi::screen_switch())
    }

    /// Brings the screen back to the Meletrix logo.
    pub fn reset_screen(&self) -> (transfer: Transfer)
        ensures
            transfer.dialect() == Dialect::Zoom65v3,
            transfer.progress() == fresh(
                seq![command_frame(abi::RESET_SCREEN@, Seq::<u8>::empty())],
            ),
    {
        Transfer::single(Dialect::Zoom65v3, abi::reset_screen())
    }

    /// Brings the screen to `position`.
    ///
    /// The screen does not tell where it stands, so the way always starts with a
    /// reset and is the same whatever was shown before. The frames go out one by
    /// one; if one is refused the screen stays where the way had led so far, and
    /// asking again starts over from the reset.
    pub fn set_screen(&self, position: ScreenPosition) -> (transfer: Transfer)
        ensures
            transfer.dialect() == Dialect::Zoom65v3,
            transfer.progress() == fresh(set_screen_script(position)),
    {
        Transfer::new(Dialect::Zoom65v3, set_screen_frames(position))
    }

    /// The year as the clock command takes it: without its century.
    pub open spec fn short_year(year: u16) -> u8 {
        (year % 100) as u8
    }

    /// Sets the clock of the keyboard.
    pub fn set_time(
        &self,
        year: u16,
        month: u8,
        day: u8,
        hour: u8,
        minute: u8,
        second: u8,
    ) -> (transfer: Transfer)
        ensures
            transfer.dialect() == Dialect::Zoom65v3,
            transfer.progress() == fresh(
                seq![
                    command_frame(
                        abi::SET_TIME@,
                        seq![Self::short_year(year), month, day, hour, minute, second],
                    ),
                ],
            ),
    {
        let short: u8 = (year % 100) as u8;
        Transfer::single(
            Dialect::Zoom65v3,
            abi::set_time(short, month, day, hour, minute, second),
        )
    }

    /// Sets the weather icon and the current, lowest and highest temperature.
    pub fn set_weather(&self, icon: Icon, current: u8, low: u8, high: u8) -> (transfer: Transfer)
        ensures
            transfer.dialect() == Dialect::Zoom65v3,
            transfer.progress() == fresh(
                seq![command_frame(abi::SET_WEATHER@, seq![icon.code(), current, low, high])],
            ),
    {
        Transfer::single(Dialect::Zoom65v3, abi::set_weather(icon, current, low, high))
    }

    /// The download rate as it goes on the wire: the hundredths themselves, or
    /// the largest rate that the code can hold.
    pub open spec fn rate_on_wire(download_hundredths: u32) -> Seq<u8> {
        be16(
            if download_hundredths <= MAX_HUNDREDTHS {
                download_hundredths as int
            } else {
                MAX_HUNDREDTHS as int
            },
        )
    }

    /// Sets the processor and graphics temperatures and the download rate, which
    /// is given in hundredths.
    pub fn set_system_info(
        &self,
        cpu_temp: u8,
        gpu_temp: u8,
        download_hundredths: u32,
    ) -> (transfer: Transfer)
        ensures
            transfer.dialect() == Dialect::Zoom65v3,
            transfer.progress() == fresh(
                seq![
                    command_frame(
                        abi::SET_SYSTEM_INFO@,
                        seq![cpu_temp, gpu_temp] + Self::rate_on_wire(download_hundredths),
                    ),
                ],
            ),
    {
        let download = DumbFloat16::new(download_hundredths);
        Transfer::single(Dialect::Zoom65v3, abi::set_system_info(cpu_temp, gpu_temp, download))
    }

    /// Starts the upload of a picture: 110 by 110 pixels of three bytes, two for
    /// the colour and one for the alpha channel. A buffer of any other length is
    /// turned down before a frame is built.
    pub fn upload_image(&self, buf: &[u8]) -> (transfer: Result<Transfer, ProtocolError>)
        ensures
            match transfer {
                Ok(upload) => buf@.len() == IMAGE_LEN && upload.dialect() == Dialect::Zoom65v3
                    && upload.progress() == fresh(upload_script(UploadChannel::Image, buf@)),
                Err(error) => buf@.len() != IMAGE_LEN && error == ProtocolError::PayloadTooLarge,
            },
    {
        if buf.len() != IMAGE_LEN {
            return Err(ProtocolError::PayloadTooLarge);
        }
        Ok(Transfer::new(Dialect::Zoom65v3, upload_frames(UploadChannel::Image, buf)))
    }

    /// Starts the upload of an animation. One that would not fit the memory of
    /// the screen is turned down before a frame is built.
    pub fn upload_gif(&self, buf: &[u8]) -> (transfer: Result<Transfer, ProtocolError>)
        ensures
            match transfer {
                Ok(upload) => buf@.len() < GIF_LIMIT && upload.dialect() == Dialect::Zoom65v3
                    && upload.progress() == fresh(upload_script(UploadChannel::Gif, buf@)),
                Err(error) => buf@.len() >= GIF_LIMIT && error == ProtocolError::PayloadTooLarge,
            },
    {
        if buf.len() >= GIF_LIMIT {
            return Err(ProtocolError::PayloadTooLarge);
        }
        Ok(Transfer::new(Dialect::Zoom65v3, upload_frames(UploadChannel::Gif, buf)))
    }

    /// Deletes the uploaded picture.
    pub fn clear_image(&self) -> (transfer: Transfer)
        ensures
            transfer.dialect() == Dialect::Zoom65v3,
            transfer.progress() == fresh(
                seq![command_frame(abi::DELETE_IMAGE@, Seq::<u8>::empty())],
            ),
    {
        Transfer::single(Dialect::Zoom65v3, abi::delete_image())
    }

    /// Deletes the uploaded animation.
    pub fn clear_gif(&self) -> (transfer: Transfer)
        ensures
            transfer.dialect() == Dialect::Zoom65v3,
            transfer.progress() == fresh(
                seq![command_frame(abi::DELETE_GIF@, Seq::<u8>::empty())],
            ),
    {
        Transfer::single(Dialect::Zoom65v3, abi::delete_gif())
    }
}

impl Board for Zoom65v3 {
    open spec fn board_info(&self) -> BoardInfo {
        zoom65v3_info()
    }

    fn info(&self) -> (info: BoardInfo) {
        Self::board_info()
    }

    open spec fn screen_size(&self) -> Option<(u32, u32)> {
        Some((110u32, 110u32))
    }

    fn as_screen_size(&self) -> (size: Option<(u32, u32)>) {
        Some((110, 110))
    }
}

} // verus!
