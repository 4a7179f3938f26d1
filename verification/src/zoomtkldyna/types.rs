//! The values that Zoom TKL Dyna commands carry.

use crate::zoom65v3::types::{
    wmo_clear, wmo_overcast, wmo_partly_cloudy, wmo_rain, wmo_showers, wmo_snow,
};
use vstd::prelude::*;

verus! {

/// A weather icon of the Zoom TKL Dyna screen.
#[derive(Debug, Clone, Copy, PartialEq, Eq, Structural)]
pub enum Icon {
    DayClearSunny,
    DayPartlyCloudy,
    Cloudy,
    Rainy,
    Snowy,
    NightClearMoon,
    NightCloudy,
    /// What the screen shows for weather that it has no picture of.
    ErrorIcon,
}

impl Icon {
    /// The byte that stands for this icon in a command.
    pub open spec fn code(self) -> u8 {
        match self {
            Icon::DayClearSunny => 1,
            Icon::DayPartlyCloudy => 2,
            Icon::Cloudy => 3,
            Icon::Rainy => 4,
            Icon::Snowy => 5,
            Icon::NightClearMoon => 6,
            Icon::NightCloudy => 7,
            Icon::ErrorIcon => 8,
        }
    }

    /// The byte that stands for this icon in a command.
    pub fn as_byte(&self) -> (byte: u8)
        ensures
            byte == self.code(),
    {
        match self {
            Icon::DayClearSunny => 1,
            Icon::DayPartlyCloudy => 2,
            Icon::Cloudy => 3,
            Icon::Rainy => 4,
            Icon::Snowy => 5,
            Icon::NightClearMoon => 6,
            Icon::NightCloudy => 7,
            Icon::ErrorIcon => 8,
        }
    }

    /// The icon for a WMO weather code by day or by night.
    ///
    /// Only a clear sky has a sun and a moon. The screen has no picture of a
    /// thunderstorm: a plain one is shown as rain, one with hail as snow. A code
    /// that stands for no known weather gets the error icon.
    pub open spec fn for_wmo(wmo: int, is_day: bool) -> Icon {
        if wmo_clear(wmo) {
            if is_day {
                Icon::DayClearSunny
            } else {
                Icon::NightClearMoon
            }
        } else if wmo_partly_cloudy(wmo) || wmo_overcast(wmo) {
            Icon::Cloudy
        } else if wmo_rain(wmo) || wmo_showers(wmo) || wmo == 95 {
            Icon::Rainy
        } else if wmo_snow(wmo) || wmo == 96 || wmo == 99 {
            Icon::Snowy
        } else {
            Icon::ErrorIcon
        }
    }

    /// Converts a WMO weather code into an icon. There is always one: the error
    /// icon stands in for a code that is not known.
    pub fn from_wmo(wmo: i32, is_day: bool) -> (icon: Option<Self>)
        ensures
            icon == Some(Self::for_wmo(wmo as int, is_day)),
    {
        match wmo {
            0 | 1 => Some(if is_day { Icon::DayClearSunny } else { Icon::NightClearMoon }),
            2 => Some(Icon::Cloudy),
            3 => Some(Icon::Cloudy),
            45 => Some(Icon::Cloudy),
            48 => Some(Icon::Cloudy),
            51 | 53 | 55 => Some(Icon::Rainy),
            56 => Some(Icon::Rainy),
            57 => Some(Icon::Rainy),
            61 => Some(Icon::Rainy),
            63 => Some(Icon::Rainy),
            65 => Some(Icon::Rainy),
            66 => Some(Icon::Rainy),
            67 => Some(Icon::Rainy),
            71 => Some(Icon::Snowy),
            73 => Some(Icon::Snowy),
            75 => Some(Icon::Snowy),
            77 => Some(Icon::Snowy),
            80 => Some(Icon::Rainy),
            81 | 82 => Some(Icon::Rainy),
            85 => Some(Icon::Snowy),
            86 => Some(Icon::Snowy),
            95 => Some(Icon::Rainy),
            96 | 99 => Some(Icon::Snowy),
            _ => Some(Icon::ErrorIcon),
        }
    }
}

/// What can be asked of the screen's menu.
#[derive(Clone, Copy, Debug, PartialEq, Eq, Structural)]
pub enum ScreenArgs {
    /// Move up.
    Up,
    /// Move down.
    Down,
    /// Go into the entry that is marked.
    Enter,
    /// Go back.
    Return,
    /// Put the screen back as it was made: theme, pictures and animations go.
    Reset,
}

impl ScreenArgs {
    /// The two bytes that stand for the request in a command.
    pub open spec fn code(self) -> (u8, u8) {
        match self {
            ScreenArgs::Up => (2, 194),
            ScreenArgs::Down => (1, 195),
            ScreenArgs::Return => (4, 192),
            ScreenArgs::Enter => (3, 193),
            ScreenArgs::Reset => (1, 200),
        }
    }
}

/// A temperature as the weather command takes it: whether it lies above zero,
/// and how far from zero it lies, in tenths of a degree.
#[derive(Clone, Copy, Debug, PartialEq, Eq, Structural)]
pub struct Temperature {
    pub above_zero: bool,
    pub tenths: u32,
}

} // verus!
