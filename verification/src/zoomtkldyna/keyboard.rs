//! What can be asked of a Zoom TKL Dyna, each request as the frames that carry
//! it.
//!
//! The clock, the weather, the system readings and the menu travel in the
//! checksummed frames of this board. The reset of the screen, its theme and the
//! way to a screen by its place travel in the plain frames that the Zoom65 v3
//! takes too, and are acknowledged as on that board.

use crate::board::{Board, BoardInfo, Capabilities};
use crate::device::{find_device, is_first_match, no_match, DeviceDescriptor};
use crate::error::ProtocolError;
use crate::transport::{Dialect, Progress, Transfer};
use crate::zoom65v3::abi::{command_frame, reset_screen, screen_theme, RESET_SCREEN, SCREEN_THEME};
use crate::zoom65v3::keyboard::{fresh, set_screen_frames, set_screen_script};
use crate::zoom65v3::types::ScreenPosition;
use crate::zoomtkldyna::abi::{
    generate_screen_control_buffer, generate_sysinfo_buffer, generate_time_buffer,
    generate_weather_buffer, screen_control_frame, sysinfo_frame, time_frame, weather_frame,
};
use crate::zoomtkldyna::types::{Icon, ScreenArgs, Temperature};
use vstd::prelude::*;

verus! {

/// The vendor id under which the keyboard shows up on the bus.
pub const ZOOMTKLDYNA_VENDOR_ID: u16 = 0x5542;

/// The product id under which the keyboard shows up on the bus.
pub const ZOOMTKLDYNA_PRODUCT_ID: u16 = 0xC987;

/// The usage page of the interface that takes the commands.
pub const ZOOMTKLDYNA_USAGE_PAGE: u16 = 65376;

/// The usage of the interface that takes the commands.
pub const ZOOMTKLDYNA_USAGE: u16 = 97;

/// What is known of the Zoom TKL Dyna before any device is opened.
pub open spec fn zoomtkldyna_info() -> BoardInfo {
    BoardInfo {
        name: "Zoom TKL Dyna",
        cli_name: "zoomtkldyna",
        vendor_id: Some(ZOOMTKLDYNA_VENDOR_ID),
        product_id: Some(ZOOMTKLDYNA_PRODUCT_ID),
        usage_page: Some(ZOOMTKLDYNA_USAGE_PAGE),
        usage: Some(ZOOMTKLDYNA_USAGE),
        capabilities: Capabilities {
            time: true,
            weather: true,
            system_info: true,
            screen_pos: true,
            screen_nav: true,
            image: false,
            gif: false,
            theme: true,
        },
    }
}

/// An operation of one frame that has not started.
pub open spec fn one_frame(frame: Seq<u8>) -> Progress {
    Progress { script: seq![frame], acknowledged: 0, failure: None }
}

/// A Zoom TKL Dyna that was found on the bus.
#[derive(Debug, Clone, Copy)]
pub struct ZoomTklDyna {
    device: usize,
}

impl ZoomTklDyna {
    /// The place of the keyboard in the list of devices that it was found in.
    pub closed spec fn device_index(&self) -> usize {
        self.device
    }

    /// The place of the keyboard in the list of devices that it was found in.
    pub fn device(&self) -> (index: usize)
        ensures
            index == self.device_index(),
    {
        self.device
    }

    /// What is known of the Zoom TKL Dyna before any device is opened.
    pub fn board_info() -> (info: BoardInfo)
        ensures
            info == zoomtkldyna_info(),
    {
        BoardInfo {
            name: "Zoom TKL Dyna",
            cli_name: "zoomtkldyna",
            vendor_id: Some(ZOOMTKLDYNA_VENDOR_ID),
            product_id: Some(ZOOMTKLDYNA_PRODUCT_ID),
            usage_page: Some(ZOOMTKLDYNA_USAGE_PAGE),
            usage: Some(ZOOMTKLDYNA_USAGE),
            capabilities: Capabilities {
                time: true,
                weather: true,
                system_info: true,
                screen_pos: true,
                screen_nav: true,
                image: false,
                gif: false,
                theme: true,
            },
        }
    }

    /// Picks the keyboard out of the devices on the bus: the first one whose
    /// vendor, product, usage page and usage are those of the Zoom TKL Dyna.
    pub fn open(devices: &[DeviceDescriptor]) -> (keyboard: Result<Self, ProtocolError>)
        ensures
            match keyboard {
                Ok(found) => is_first_match(
                    devices@,
                    zoomtkldyna_info(),
                    found.device_index() as int,
                ),
                Err(error) => error == ProtocolError::DeviceNotFound && no_match(
                    devices@,
                    zoomtkldyna_info(),
                ),
            },
    {
        let info = Self::board_info();
        match find_device(devices, &info) {
            Ok(device) => Ok(ZoomTklDyna { device }),
            Err(error) => Err(error),
        }
    }

    /// Asks something of the screen's menu.
    pub fn control_screen(&self, command: ScreenArgs) -> (transfer: Transfer)
        ensures
            transfer.dialect() == Dialect::ZoomTklDyna,
            transfer.progress() == one_frame(screen_control_frame(command)),
    {
        Transfer::single(Dialect::ZoomTklDyna, generate_screen_control_buffer(command))
    }

    /// Moves up in the screen's menu.
    pub fn screen_up(&self) -> (transfer: Transfer)
        ensures
            transfer.dialect() == Dialect::ZoomTklDyna,
            transfer.progress() == one_frame(screen_control_frame(ScreenArgs::Up)),
    {
        self.control_screen(ScreenArgs::Up)
    }

    /// Moves down in the screen's menu.
    pub fn screen_down(&self) -> (transfer: Transfer)
        ensures
            transfer.dialect() == Dialect::ZoomTklDyna,
            transfer.progress() == one_frame(screen_control_frame(ScreenArgs::Down)),
    {
        self.control_screen(ScreenArgs::Down)
    }

    /// Goes into the entry of the screen's menu that is marked.
    pub fn screen_switch(&self) -> (transfer: Transfer)
        ensures
            transfer.dialect() == Dialect::ZoomTklDyna,
            transfer.progress() == one_frame(screen_control_frame(ScreenArgs::Enter)),
    {
        self.control_screen(ScreenArgs::Enter)
    }

    /// Brings the screen back to where it starts.
    ///
    /// The frame is a plain one, and the keyboard acknowledges it by setting the
    /// two bytes after the tag to one.
    pub fn reset_screen(&self) -> (transfer: Transfer)
        ensures
            transfer.dialect() == Dialect::Zoom65v3,
            transfer.progress() == one_frame(command_frame(RESET_SCREEN@, Seq::<u8>::empty())),
    {
        Transfer::single(Dialect::Zoom65v3, reset_screen())
    }

    /// Sets the colour theme of the screen, which also brings the screen back to
    /// where it starts. The frame is a plain one.
    pub fn screen_theme(&self, theme: u8) -> (transfer: Transfer)
        ensures
            transfer.dialect() == Dialect::Zoom65v3,
            transfer.progress() == one_frame(command_frame(SCREEN_THEME@, seq![theme])),
    {
        Transfer::single(Dialect::Zoom65v3, screen_theme(theme))
    }

    /// Brings the screen to `position`.
    ///
    /// The screen does not tell where it stands, so the way always starts with a
    /// reset and is the same whatever was shown before: one reset, a step up or
    /// down for every row between the start and the screen, a switch for every
    /// screen to the left of it in its row. The frames are plain ones. If one is
    /// refused the screen stays where the way had led so far, and asking again
    /// starts over from the reset.
    pub fn set_screen(&self, position: ScreenPosition) -> (transfer: Transfer)
        ensures
            transfer.dialect() == Dialect::Zoom65v3,
            transfer.progress() == fresh(set_screen_script(position)),
    {
        Transfer::new(Dialect::Zoom65v3, set_screen_frames(position))
    }

    /// Sets the clock of the keyboard. The day of the week counts from Sunday,
    /// which is zero.
    pub fn set_time(
        &self,
        year: u16,
        month: u8,
        day: u8,
        hour: u8,
        minute: u8,
        second: u8,
        week_day: u8,
    ) -> (transfer: Transfer)
        ensures
            transfer.dialect() == Dialect::ZoomTklDyna,
            transfer.progress() == one_frame(
                time_frame(
                    (year / 256) as u8,
                    (year % 256) as u8,
                    month,
                    day,
                    hour,
                    minute,
                    second,
                    week_day,
                ),
            ),
    {
        let year_byte1: u8 = (year / 256) as u8;
        let year_byte2: u8 = (year % 256) as u8;
        Transfer::single(
            Dialect::ZoomTklDyna,
            generate_time_buffer(
                year_byte1,
                year_byte2,
                month,
                day,
                hour,
                minute,
                second,
                week_day,
            ),
        )
    }

    /// Sets the weather icon and the current, lowest and highest temperature.
    pub fn set_weather(
        &self,
        icon: Icon,
        current: Temperature,
        low: Temperature,
        high: Temperature,
    ) -> (transfer: Transfer)
        ensures
            transfer.dialect() == Dialect::ZoomTklDyna,
            transfer.progress() == one_frame(weather_frame(icon, current, low, high)),
    {
        Transfer::single(Dialect::ZoomTklDyna, generate_weather_buffer(icon, current, low, high))
    }

    /// Sets the processor and graphics temperatures, the fan speed in turns per
    /// minute and the download rate in tenths.
    pub fn set_system_info(
        &self,
        cpu_temp: u8,
        gpu_temp: u32,
        speed_fan: u32,
        download_tenths: u32,
    ) -> (transfer: Transfer)
        ensures
            transfer.dialect() == Dialect::ZoomTklDyna,
            transfer.progress() == one_frame(
                sysinfo_frame(cpu_temp, gpu_temp, speed_fan, download_tenths),
            ),
    {
        Transfer::single(
            Dialect::ZoomTklDyna,
            generate_sysinfo_buffer(cpu_temp, gpu_temp, speed_fan, download_tenths),
        )
    }
}

impl Board for ZoomTklDyna {
    open spec fn board_info(&self) -> BoardInfo {
        zoomtkldyna_info()
    }

    fn info(&self) -> (info: BoardInfo) {
        Self::board_info()
    }

    open spec fn screen_size(&self) -> Option<(u32, u32)> {
        None
    }

    fn as_screen_size(&self) -> (size: Option<(u32, u32)>) {
        None
    }
}

} // verus!
