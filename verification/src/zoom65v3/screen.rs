//! Choosing what the screen of a Zoom65 v3 shows.

use crate::transport::{Dialect, Transfer};
use crate::zoom65v3::abi;
use crate::zoom65v3::abi::command_frame;
use crate::zoom65v3::keyboard::{fresh, set_screen_script, Zoom65v3};
use crate::zoom65v3::types::{LogoOffset, ScreenPosition};
use vstd::pervasive::unreached;
use vstd::prelude::*;

verus! {

/// What the user can ask of the screen.
#[derive(Clone, Copy, Debug, PartialEq, Eq, Structural)]
pub enum ScreenArgs {
    /// Go to a screen, from wherever the screen stands.
    Screen(ScreenPosition),
    /// Move the screen up one row.
    Up,
    /// Move the screen down one row.
    Down,
    /// Switch to the next screen of the row.
    Switch,
    /// Show the animation while keys are pressed and the picture while they
    /// rest. This is no single request: see [`Reactive`].
    Reactive,
}

/// The frames that carry a request.
pub open spec fn screen_script(args: ScreenArgs) -> Seq<Seq<u8>> {
    let none = Seq::<u8>::empty();
    match args {
        ScreenArgs::Screen(position) => set_screen_script(position),
        ScreenArgs::Up => seq![command_frame(abi::SCREEN_UP@, none)],
        ScreenArgs::Down => seq![command_frame(abi::SCREEN_DOWN@, none)],
        ScreenArgs::Switch => seq![command_frame(abi::SCREEN_SWITCH@, none)],
        ScreenArgs::Reactive => Seq::empty(),
    }
}

/// Turns a request into the frames that carry it.
pub fn apply_screen(args: &ScreenArgs, keyboard: &Zoom65v3) -> (transfer: Transfer)
    requires
        !(args is Reactive),
    ensures
        transfer.dialect() == Dialect::Zoom65v3,
        transfer.progress() == fresh(screen_script(*args)),
{
    match args {
        ScreenArgs::Screen(pos) => keyboard.set_screen(*pos),
        ScreenArgs::Up => keyboard.screen_up(),
        ScreenArgs::Down => keyboard.screen_down(),
        ScreenArgs::Switch => keyboard.screen_switch(),
        ScreenArgs::Reactive => unreached(),
    }
}

/// What the watcher of the keys reports.
#[derive(Clone, Copy, Debug, PartialEq, Eq, Structural)]
pub enum InputEvent {
    /// A key went down or up.
    Key,
    /// Something else happened on the keyboard.
    Other,
    /// Nothing happened for a while.
    Timeout,
}

/// The screen that rests between key presses: the picture.
pub open spec fn resting_screen() -> ScreenPosition {
    ScreenPosition::Logo(LogoOffset::Custom)
}

/// The reactive mode: the screen shows the picture, goes one screen on to the
/// animation with the first key, and comes back when the keys have been still.
#[derive(Clone, Copy, Debug)]
pub struct Reactive {
    running: bool,
}

impl Reactive {
    /// Whether the animation is on.
    pub closed spec fn is_running(&self) -> bool {
        self.running
    }

    /// The reactive mode before any key was pressed.
    pub fn new() -> (mode: Self)
        ensures
            !mode.is_running(),
    {
        Reactive { running: false }
    }

    /// The frames that bring up the picture when the mode begins.
    pub fn start(&self, keyboard: &Zoom65v3) -> (transfer: Transfer)
        ensures
            transfer.dialect() == Dialect::Zoom65v3,
            transfer.progress() == fresh(set_screen_script(resting_screen())),
    {
        keyboard.set_screen(ScreenPosition::Logo(LogoOffset::Custom))
    }

    /// What an event leads to: whether the animation is on afterwards, and the
    /// frames to send, if any.
    ///
    /// A key while the picture is shown switches to the animation. Stillness
    /// while the animation is shown leads back to the picture, by the way that
    /// starts with a reset. Everything else leaves the screen alone.
    pub open spec fn after_event(running: bool, event: InputEvent) -> (bool, Option<Seq<Seq<u8>>>) {
        if event == InputEvent::Key && !running {
            (true, Some(seq![command_frame(abi::SCREEN_SWITCH@, Seq::<u8>::empty())]))
        } else if event == InputEvent::Timeout && running {
            (false, Some(set_screen_script(resting_screen())))
        } else {
            (running, None)
        }
    }

    /// Decides what an event asks of the screen.
    pub fn on_event(&mut self, keyboard: &Zoom65v3, event: InputEvent) -> (transfer: Option<
        Transfer,
    >)
        ensures
            final(self).is_running() == Self::after_event(old(self).is_running(), event).0,
            match transfer {
                Some(t) => t.dialect() == Dialect::Zoom65v3 && Self::after_event(
                    old(self).is_running(),
                    event,
                ).1 == Some(t.progress().script) && t.progress() == fresh(t.progress().script),
                None => Self::after_event(old(self).is_running(), event).1 is None,
            },
    {
        match event {
            InputEvent::Key => {
                if !self.running {
                    self.running = true;
                    Some(keyboard.screen_switch())
                } else {
                    None
                }
            },
            InputEvent::Timeout => {
                if self.running {
                    self.running = false;
                    Some(keyboard.set_screen(ScreenPosition::Logo(LogoOffset::Custom)))
                } else {
                    None
                }
            },
            InputEvent::Other => None,
        }
    }
}

} // verus!
