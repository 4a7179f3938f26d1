//! From a weather code to the icon that a screen shows for it.
//!
//! The codes are those of the World Meteorological Organization as weather
//! services report them. Each board has its own set of icons, and its own way
//! with a code that it does not know: the Zoom65 v3 has no icon for it, the Zoom
//! TKL Dyna shows its error icon.

use crate::transport::Dialect;
use crate::zoom65v3::types::Icon as Zoom65v3Icon;
use crate::zoomtkldyna::types::Icon as ZoomTklDynaIcon;
use vstd::prelude::*;

verus! {

/// An icon of one of the boards.
#[derive(Debug, Clone, Copy, PartialEq, Eq, Structural)]
pub enum IconVariant {
    Zoom65v3(Zoom65v3Icon),
    ZoomTklDyna(ZoomTklDynaIcon),
}

impl IconVariant {
    /// The byte that stands for the icon in a command of its board.
    pub open spec fn code(self) -> u8 {
        match self {
            IconVariant::Zoom65v3(icon) => icon.code(),
            IconVariant::ZoomTklDyna(icon) => icon.code(),
        }
    }

    /// The byte that stands for the icon in a command of its board.
    pub fn as_byte(&self) -> (byte: u8)
        ensures
            byte == self.code(),
    {
        match self {
            IconVariant::Zoom65v3(icon) => icon.as_byte(),
            IconVariant::ZoomTklDyna(icon) => icon.as_byte(),
        }
    }
}

/// The icon that a board shows for a weather code by day or by night, if it
/// shows one.
pub open spec fn classified(dialect: Dialect, code: u16, is_day: bool) -> Option<IconVariant> {
    match dialect {
        Dialect::Zoom65v3 => match Zoom65v3Icon::for_wmo(code as int, is_day) {
            Some(icon) => Some(IconVariant::Zoom65v3(icon)),
            None => None,
        },
        Dialect::ZoomTklDyna => Some(
            IconVariant::ZoomTklDyna(ZoomTklDynaIcon::for_wmo(code as int, is_day)),
        ),
    }
}

/// Finds the icon that a board shows for a weather code. Every code has an
/// answer: an icon, or, on the Zoom65 v3 alone, the answer that there is none.
pub fn classify(dialect: Dialect, code: u16, is_day: bool) -> (icon: Option<IconVariant>)
    ensures
        icon == classified(dialect, code, is_day),
        dialect == Dialect::ZoomTklDyna ==> icon is Some,
{
    match dialect {
        Dialect::Zoom65v3 => match Zoom65v3Icon::from_wmo(code, is_day) {
            Some(icon) => Some(IconVariant::Zoom65v3(icon)),
            None => None,
        },
        Dialect::ZoomTklDyna => match ZoomTklDynaIcon::from_wmo(code as i32, is_day) {
            Some(icon) => Some(IconVariant::ZoomTklDyna(icon)),
            None => None,
        },
    }
}

} // verus!
