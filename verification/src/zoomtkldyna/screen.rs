//! Moving through the menu of a Zoom TKL Dyna.

use crate::transport::{Dialect, Transfer};
use crate::zoomtkldyna::abi::screen_control_frame;
use crate::zoomtkldyna::keyboard::{one_frame, ZoomTklDyna};
use crate::zoomtkldyna::types::ScreenArgs;
use vstd::prelude::*;

verus! {

/// Turns a request into the frame that carries it.
pub fn apply_screen(args: &ScreenArgs, keyboard: &ZoomTklDyna) -> (transfer: Transfer)
    ensures
        transfer.dialect() == Dialect::ZoomTklDyna,
        transfer.progress() == one_frame(screen_control_frame(*args)),
{
    match args {
        ScreenArgs::Up => keyboard.control_screen(ScreenArgs::Up),
        ScreenArgs::Down => keyboard.control_screen(ScreenArgs::Down),
        ScreenArgs::Enter => keyboard.control_screen(ScreenArgs::Enter),
        ScreenArgs::Return => keyboard.control_screen(ScreenArgs::Return),
        ScreenArgs::Reset => keyboard.control_screen(ScreenArgs::Reset),
    }
}

} // verus!
