//! What a board is to the rest of the library: its identity on the bus, what it
//! can show, and the names of its screens.

use vstd::prelude::*;

verus! {

/// What a board can do. Every flag is known when the library is built.
#[derive(Debug, Clone, Copy)]
pub struct Capabilities {
    pub time: bool,
    pub weather: bool,
    pub system_info: bool,
    pub screen_pos: bool,
    pub screen_nav: bool,
    pub image: bool,
    pub gif: bool,
    pub theme: bool,
}

impl Default for Capabilities {
    /// A board that can do nothing.
    fn default() -> (caps: Self)
        ensures
            caps == (Capabilities {
                time: false,
                weather: false,
                system_info: false,
                screen_pos: false,
                screen_nav: false,
                image: false,
                gif: false,
                theme: false,
            }),
    {
        Capabilities {
            time: false,
            weather: false,
            system_info: false,
            screen_pos: false,
            screen_nav: false,
            image: false,
            gif: false,
            theme: false,
        }
    }
}

/// What is known of a kind of board before any device is opened.
#[derive(Debug, Clone, Copy)]
pub struct BoardInfo {
    pub name: &'static str,
    pub cli_name: &'static str,
    pub vendor_id: Option<u16>,
    pub product_id: Option<u16>,
    pub usage_page: Option<u16>,
    pub usage: Option<u16>,
    pub capabilities: Capabilities,
}

/// Every screen that some board can show.
#[derive(Debug, Clone, Copy, PartialEq, Eq, Hash, Structural)]
pub enum ScreenPosition {
    Cpu,
    Gpu,
    Download,
    Time,
    Weather,
    Meletrix,
    Zoom,
    Image,
    Gif,
    Battery,
}

impl ScreenPosition {
    /// The name by which a screen is chosen on the command line.
    pub open spec fn id(self) -> Seq<char> {
        match self {
            ScreenPosition::Cpu => "cpu"@,
            ScreenPosition::Gpu => "gpu"@,
            ScreenPosition::Download => "download"@,
            ScreenPosition::Time => "time"@,
            ScreenPosition::Weather => "weather"@,
            ScreenPosition::Meletrix => "meletrix"@,
            ScreenPosition::Zoom => "zoom"@,
            ScreenPosition::Image => "image"@,
            ScreenPosition::Gif => "gif"@,
            ScreenPosition::Battery => "battery"@,
        }
    }

    /// The name of this screen.
    pub fn as_id(&self) -> (id: &'static str)
        ensures
            id@ == self.id(),
    {
        match self {
            Self::Cpu => "cpu",
            Self::Gpu => "gpu",
            Self::Download => "download",
            Self::Time => "time",
            Self::Weather => "weather",
            Self::Meletrix => "meletrix",
            Self::Zoom => "zoom",
            Self::Image => "image",
            Self::Gif => "gif",
            Self::Battery => "battery",
        }
    }
}

/// A kind of board.
pub trait Board {
    /// What is known of this kind of board.
    spec fn board_info(&self) -> BoardInfo;

    /// What is known of this kind of board.
    fn info(&self) -> (info: BoardInfo)
        ensures
            info == self.board_info(),
    ;

    /// Width and height of the screen in pixels, for a board that shows pictures.
    spec fn screen_size(&self) -> Option<(u32, u32)>;

    /// Width and height of the screen in pixels, for a board that shows pictures.
    fn as_screen_size(&self) -> (size: Option<(u32, u32)>)
        ensures
            size == self.screen_size(),
    ;
}

} // verus!
