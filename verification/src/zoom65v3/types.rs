//! The values that Zoom65 v3 commands carry.

use crate::board;
use std::str::FromStr;
use vstd::prelude::*;

verus! {

/// A weather icon of the Zoom65 v3 screen.
#[derive(Debug, Clone, Copy, PartialEq, Eq, Structural)]
pub enum Icon {
    DayClear,
    DayPartlyCloudy,
    DayPartlyRainy,
    NightPartlyCloudy,
    NightClear,
    Cloudy,
    Rainy,
    Snowfall,
    Thunderstorm,
}

/// Clear or mainly clear sky.
pub open spec fn wmo_clear(wmo: int) -> bool {
    wmo == 0 || wmo == 1
}

/// Partly cloudy sky.
pub open spec fn wmo_partly_cloudy(wmo: int) -> bool {
    wmo == 2
}

/// Overcast sky or fog.
pub open spec fn wmo_overcast(wmo: int) -> bool {
    wmo == 3 || wmo == 45 || wmo == 48
}

/// Drizzle, rain, and either of them freezing.
pub open spec fn wmo_rain(wmo: int) -> bool {
    wmo == 51 || wmo == 53 || wmo == 55 || wmo == 56 || wmo == 57 || wmo == 61 || wmo == 63 || wmo
        == 65 || wmo == 66 || wmo == 67
}

/// Rain showers.
pub open spec fn wmo_showers(wmo: int) -> bool {
    80 <= wmo <= 82
}

/// Snowfall, snow grains and snow showers.
pub open spec fn wmo_snow(wmo: int) -> bool {
    wmo == 71 || wmo == 73 || wmo == 75 || wmo == 77 || wmo == 85 || wmo == 86
}

/// Thunderstorm, with or without hail.
pub open spec fn wmo_thunderstorm(wmo: int) -> bool {
    wmo == 95 || wmo == 96 || wmo == 99
}

impl Icon {
    /// The byte that stands for this icon in a command.
    pub open spec fn code(self) -> u8 {
        match self {
            Icon::DayClear => 0,
            Icon::DayPartlyCloudy => 1,
            Icon::DayPartlyRainy => 2,
            Icon::NightPartlyCloudy => 3,
            Icon::NightClear => 4,
            Icon::Cloudy => 5,
            Icon::Rainy => 6,
            Icon::Snowfall => 7,
            Icon::Thunderstorm => 8,
        }
    }

    /// The byte that stands for this icon in a command.
    pub fn as_byte(&self) -> (byte: u8)
        ensures
            byte == self.code(),
    {
        match self {
            Icon::DayClear => 0,
            Icon::DayPartlyCloudy => 1,
            Icon::DayPartlyRainy => 2,
            Icon::NightPartlyCloudy => 3,
            Icon::NightClear => 4,
            Icon::Cloudy => 5,
            Icon::Rainy => 6,
            Icon::Snowfall => 7,
            Icon::Thunderstorm => 8,
        }
    }

    /// The icon for a WMO weather code by day or by night, where the screen has
    /// one. Sun and moon differ for a clear and a partly cloudy sky, and showers
    /// have a sun by day.
    pub open spec fn for_wmo(wmo: int, is_day: bool) -> Option<Icon> {
        if wmo_clear(wmo) {
            Some(if is_day { Icon::DayClear } else { Icon::NightClear })
        } else if wmo_partly_cloudy(wmo) {
            Some(if is_day { Icon::DayPartlyCloudy } else { Icon::NightPartlyCloudy })
        } else if wmo_overcast(wmo) {
            Some(Icon::Cloudy)
        } else if wmo_rain(wmo) {
            Some(Icon::Rainy)
        } else if wmo_showers(wmo) {
            Some(if is_day { Icon::DayPartlyRainy } else { Icon::Rainy })
        } else if wmo_snow(wmo) {
            Some(Icon::Snowfall)
        } else if wmo_thunderstorm(wmo) {
            Some(Icon::Thunderstorm)
        } else {
            None
        }
    }

    /// Converts a WMO weather code into an icon. A code that stands for no known
    /// weather has no icon.
    pub fn from_wmo(wmo: u16, is_day: bool) -> (icon: Option<Self>)
        ensures
            icon == Self::for_wmo(wmo as int, is_day),
    {
        match wmo {
            0 | 1 => Some(if is_day { Icon::DayClear } else { Icon::NightClear }),
            2 => Some(if is_day { Icon::DayPartlyCloudy } else { Icon::NightPartlyCloudy }),
            3 | 45 | 48 => Some(Icon::Cloudy),
            51 | 53 | 55 | 56 | 57 | 61 | 63 | 65 | 66 | 67 => Some(Icon::Rainy),
            80..=82 => Some(if is_day { Icon::DayPartlyRainy } else { Icon::Rainy }),
            71 | 73 | 75 | 77 | 85 | 86 => Some(Icon::Snowfall),
            95 | 96 | 99 => Some(Icon::Thunderstorm),
            _ => None,
        }
    }
}

/// A screen of the first row, counted from the left.
#[derive(Clone, Copy, Debug, PartialEq, Eq, Structural)]
pub enum SystemOffset {
    CpuTemp,
    GpuTemp,
    Download,
}

/// A screen of the second row, counted from the left.
#[derive(Clone, Copy, Debug, PartialEq, Eq, Structural)]
pub enum TimeOffset {
    Time,
    Weather,
}

/// A screen of the third row, counted from the left. The row starts with the
/// logo that the screen shows after a reset.
#[derive(Clone, Copy, Debug, PartialEq, Eq, Structural)]
pub enum LogoOffset {
    Meletrix,
    Zoom65,
    Custom,
    NyanCat,
}

/// A screen, as its row and its place in the row.
#[derive(Clone, Copy, Debug, PartialEq, Eq, Structural)]
pub enum ScreenPosition {
    /// Two rows above the logo.
    System(SystemOffset),
    /// One row above the logo.
    Time(TimeOffset),
    /// The row of the logo.
    Logo(LogoOffset),
    /// One row below the logo.
    Battery,
}

impl SystemOffset {
    /// How many screens lie to the left of this one.
    pub open spec fn ordinal(self) -> nat {
        match self {
            SystemOffset::CpuTemp => 0,
            SystemOffset::GpuTemp => 1,
            SystemOffset::Download => 2,
        }
    }

    /// This screen as a full position.
    pub fn pos(&self) -> (position: ScreenPosition)
        ensures
            position == ScreenPosition::System(*self),
    {
        ScreenPosition::System(*self)
    }
}

impl Default for SystemOffset {
    fn default() -> (offset: Self)
        ensures
            offset == SystemOffset::CpuTemp,
    {
        SystemOffset::CpuTemp
    }
}

impl TimeOffset {
    /// How many screens lie to the left of this one.
    pub open spec fn ordinal(self) -> nat {
        match self {
            TimeOffset::Time => 0,
            TimeOffset::Weather => 1,
        }
    }

    /// This screen as a full position.
    pub fn pos(&self) -> (position: ScreenPosition)
        ensures
            position == ScreenPosition::Time(*self),
    {
        ScreenPosition::Time(*self)
    }
}

impl Default for TimeOffset {
    fn default() -> (offset: Self)
        ensures
            offset == TimeOffset::Time,
    {
        TimeOffset::Time
    }
}

impl LogoOffset {
    /// How many screens lie to the left of this one.
    pub open spec fn ordinal(self) -> nat {
        match self {
            LogoOffset::Meletrix => 0,
            LogoOffset::Zoom65 => 1,
            LogoOffset::Custom => 2,
            LogoOffset::NyanCat => 3,
        }
    }

    /// This screen as a full position.
    pub fn pos(&self) -> (position: ScreenPosition)
        ensures
            position == ScreenPosition::Logo(*self),
    {
        ScreenPosition::Logo(*self)
    }
}

impl Default for LogoOffset {
    fn default() -> (offset: Self)
        ensures
            offset == LogoOffset::Meletrix,
    {
        LogoOffset::Meletrix
    }
}

impl Default for ScreenPosition {
    /// The screen that a reset leads to.
    fn default() -> (position: Self)
        ensures
            position == ScreenPosition::Logo(LogoOffset::Meletrix),
    {
        ScreenPosition::Logo(LogoOffset::Meletrix)
    }
}

impl ScreenPosition {
    /// Rows between the logo and this screen: negative above the logo, positive
    /// below it.
    pub open spec fn vertical_delta(self) -> int {
        match self {
            ScreenPosition::System(_) => -2,
            ScreenPosition::Time(_) => -1,
            ScreenPosition::Logo(_) => 0,
            ScreenPosition::Battery => 1,
        }
    }

    /// Screens to the left of this one in its row.
    pub open spec fn horizontal_offset(self) -> nat {
        match self {
            ScreenPosition::System(o) => o.ordinal(),
            ScreenPosition::Time(o) => o.ordinal(),
            ScreenPosition::Logo(o) => o.ordinal(),
            ScreenPosition::Battery => 0,
        }
    }

    /// The way from the logo to this screen: rows up (negative) or down, then
    /// screens to the right.
    pub fn to_directions(&self) -> (directions: (isize, usize))
        ensures
            directions.0 == self.vertical_delta(),
            directions.1 == self.horizontal_offset(),
            -2 <= directions.0 <= 1,
            directions.1 <= 3,
    {
        match self {
            ScreenPosition::System(o) => (
                -2,
                match o {
                    SystemOffset::CpuTemp => 0,
                    SystemOffset::GpuTemp => 1,
                    SystemOffset::Download => 2,
                },
            ),
            ScreenPosition::Time(o) => (
                -1,
                match o {
                    TimeOffset::Time => 0,
                    TimeOffset::Weather => 1,
                },
            ),
            ScreenPosition::Logo(o) => (
                0,
                match o {
                    LogoOffset::Meletrix => 0,
                    LogoOffset::Zoom65 => 1,
                    LogoOffset::Custom => 2,
                    LogoOffset::NyanCat => 3,
                },
            ),
            ScreenPosition::Battery => (1, 0),
        }
    }
}

/// What `str::to_lowercase` makes of a string.
pub uninterp spec fn lowercase_of(s: Seq<char>) -> Seq<char>;

/// Calls `str::to_lowercase`, which returns the lowercase equivalent of a string
/// as a new `String`. The result depends on the characters alone; the contract
/// gives it a name and claims nothing else of it.
#[verifier::external_body]
fn lowercase(s: &str) -> (lower: String)
    ensures
        lower@ == lowercase_of(s@),
{
    s.to_lowercase()
}

/// Whether two strings hold the same characters.
fn same(a: &str, b: &str) -> (equal: bool)
    ensures
        equal == (a@ == b@),
{
    a.to_owned() == b.to_owned()
}

impl ScreenPosition {
    /// The names under which the screens are known, as the user is told them.
    pub const OPTIONS: &'static str =
        "[ cpu|c, gpu|g, download|d, time|t, weather|w, meletrix|m, zoom65|z, custom, nyancat|n, battery|b ]";

    /// What the user is told about a name that belongs to no screen.
    pub open spec fn unknown_name() -> Seq<char> {
        "invalid screen position, must be one of: [ cpu|c, gpu|g, download|d, time|t, weather|w, meletrix|m, zoom65|z, custom, nyancat|n, battery|b ]"@
    }

    /// The screen that goes by `name`. Most screens have a long name and a
    /// letter.
    pub open spec fn named(name: Seq<char>) -> Option<ScreenPosition> {
        if name == "cpu"@ || name == "c"@ {
            Some(ScreenPosition::System(SystemOffset::CpuTemp))
        } else if name == "gpu"@ || name == "g"@ {
            Some(ScreenPosition::System(SystemOffset::GpuTemp))
        } else if name == "download"@ || name == "d"@ {
            Some(ScreenPosition::System(SystemOffset::Download))
        } else if name == "time"@ || name == "t"@ {
            Some(ScreenPosition::Time(TimeOffset::Time))
        } else if name == "weather"@ || name == "w"@ {
            Some(ScreenPosition::Time(TimeOffset::Weather))
        } else if name == "meletrix"@ || name == "m"@ {
            Some(ScreenPosition::Logo(LogoOffset::Meletrix))
        } else if name == "zoom65"@ || name == "z"@ {
            Some(ScreenPosition::Logo(LogoOffset::Zoom65))
        } else if name == "custom"@ {
            Some(ScreenPosition::Logo(LogoOffset::Custom))
        } else if name == "nyancat"@ || name == "n"@ {
            Some(ScreenPosition::Logo(LogoOffset::NyanCat))
        } else if name == "battery"@ || name == "b"@ {
            Some(ScreenPosition::Battery)
        } else {
            None
        }
    }

    /// Finds the screen that goes by `name`, which is taken as it is written.
    pub fn from_name(name: &str) -> (position: Option<Self>)
        ensures
            position == Self::named(name@),
    {
        if same(name, "cpu") || same(name, "c") {
            Some(ScreenPosition::System(SystemOffset::CpuTemp))
        } else if same(name, "gpu") || same(name, "g") {
            Some(ScreenPosition::System(SystemOffset::GpuTemp))
        } else if same(name, "download") || same(name, "d") {
            Some(ScreenPosition::System(SystemOffset::Download))
        } else if same(name, "time") || same(name, "t") {
            Some(ScreenPosition::Time(TimeOffset::Time))
        } else if same(name, "weather") || same(name, "w") {
            Some(ScreenPosition::Time(TimeOffset::Weather))
        } else if same(name, "meletrix") || same(name, "m") {
            Some(ScreenPosition::Logo(LogoOffset::Meletrix))
        } else if same(name, "zoom65") || same(name, "z") {
            Some(ScreenPosition::Logo(LogoOffset::Zoom65))
        } else if same(name, "custom") {
            Some(ScreenPosition::Logo(LogoOffset::Custom))
        } else if same(name, "nyancat") || same(name, "n") {
            Some(ScreenPosition::Logo(LogoOffset::NyanCat))
        } else if same(name, "battery") || same(name, "b") {
            Some(ScreenPosition::Battery)
        } else {
            None
        }
    }

    /// Finds the screen that the user names. Capital letters count as small
    /// ones.
    pub fn parse(s: &str) -> (position: Result<Self, String>)
        ensures
            match position {
                Ok(found) => Self::named(lowercase_of(s@)) == Some(found),
                Err(message) => Self::named(lowercase_of(s@)) is None && message@
                    == Self::unknown_name(),
            },
    {
        let lower = lowercase(s);
        match Self::from_name(lower.as_str()) {
            Some(position) => Ok(position),
            None => Err(
                "invalid screen position, must be one of: [ cpu|c, gpu|g, download|d, time|t, weather|w, meletrix|m, zoom65|z, custom, nyancat|n, battery|b ]".to_owned(),
            ),
        }
    }

    /// The screen of this keyboard that a screen from the common list stands
    /// for. The picture is the third logo screen and the animation the fourth.
    pub open spec fn of_board(position: board::ScreenPosition) -> ScreenPosition {
        match position {
            board::ScreenPosition::Cpu => ScreenPosition::System(SystemOffset::CpuTemp),
            board::ScreenPosition::Gpu => ScreenPosition::System(SystemOffset::GpuTemp),
            board::ScreenPosition::Download => ScreenPosition::System(SystemOffset::Download),
            board::ScreenPosition::Time => ScreenPosition::Time(TimeOffset::Time),
            board::ScreenPosition::Weather => ScreenPosition::Time(TimeOffset::Weather),
            board::ScreenPosition::Meletrix => ScreenPosition::Logo(LogoOffset::Meletrix),
            board::ScreenPosition::Zoom => ScreenPosition::Logo(LogoOffset::Zoom65),
            board::ScreenPosition::Image => ScreenPosition::Logo(LogoOffset::Custom),
            board::ScreenPosition::Gif => ScreenPosition::Logo(LogoOffset::NyanCat),
            board::ScreenPosition::Battery => ScreenPosition::Battery,
        }
    }

    /// The screen of this keyboard that a screen from the common list stands
    /// for.
    pub fn from_board(position: board::ScreenPosition) -> (own: Self)
        ensures
            own == Self::of_board(position),
    {
        match position {
            board::ScreenPosition::Cpu => ScreenPosition::System(SystemOffset::CpuTemp),
            board::ScreenPosition::Gpu => ScreenPosition::System(SystemOffset::GpuTemp),
            board::ScreenPosition::Download => ScreenPosition::System(SystemOffset::Download),
            board::ScreenPosition::Time => ScreenPosition::Time(TimeOffset::Time),
            board::ScreenPosition::Weather => ScreenPosition::Time(TimeOffset::Weather),
            board::ScreenPosition::Meletrix => ScreenPosition::Logo(LogoOffset::Meletrix),
            board::ScreenPosition::Zoom => ScreenPosition::Logo(LogoOffset::Zoom65),
            board::ScreenPosition::Image => ScreenPosition::Logo(LogoOffset::Custom),
            board::ScreenPosition::Gif => ScreenPosition::Logo(LogoOffset::NyanCat),
            board::ScreenPosition::Battery => ScreenPosition::Battery,
        }
    }
}

impl FromStr for ScreenPosition {
    type Err = String;

    /// Finds the screen that the user names, as [`ScreenPosition::parse`] does.
    fn from_str(s: &str) -> (position: Result<Self, Self::Err>)
        ensures
            match position {
                Ok(found) => Self::named(lowercase_of(s@)) == Some(found),
                Err(message) => Self::named(lowercase_of(s@)) is None && message@
                    == Self::unknown_name(),
            },
    {
        Self::parse(s)
    }
}

/// The slot of the screen's memory that an upload fills.
#[derive(Clone, Copy, Debug, PartialEq, Eq, Structural)]
pub enum UploadChannel {
    /// The still picture.
    Image,
    /// The animation.
    Gif,
}

impl UploadChannel {
    /// The byte that stands for this slot in a command.
    pub open spec fn code(self) -> u8 {
        match self {
            UploadChannel::Image => 1,
            UploadChannel::Gif => 2,
        }
    }

    /// The byte that stands for this slot in a command.
    pub fn as_byte(&self) -> (byte: u8)
        ensures
            byte == self.code(),
    {
        match self {
            UploadChannel::Image => 1,
            UploadChannel::Gif => 2,
        }
    }
}

} // verus!
