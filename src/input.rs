//! The joystick: four logical axes multiplexed onto one analog line by two
//! select lines, and the thresholds that turn a reading into a decision.
use vstd::prelude::*;

verus! {

/// Largest reading of the analog line.
pub const JOY_MAX_VAL: u16 = 4095;

/// Readings above this bound (three quarters of the range) push forward.
pub const JOY_UPPER_BOUND: u16 = 3071;

/// Readings below this bound (a quarter of the range) push backward.
pub const JOY_LOWER_BOUND: u16 = 1024;

/// One of the four logical joystick axes.
#[derive(Clone, Copy, Debug, PartialEq, Eq, Structural)]
pub enum JoyToPin {
    JoyX1,
    JoyY1,
    JoyX2,
    JoyY2,
}

/// The levels of the two select lines (`s0`, `s1`) that route an axis to the
/// analog line.
pub open spec fn select_spec(joy: JoyToPin) -> (bool, bool) {
    match joy {
        JoyToPin::JoyX1 => (false, false),
        JoyToPin::JoyY1 => (true, false),
        JoyToPin::JoyX2 => (false, true),
        JoyToPin::JoyY2 => (true, true),
    }
}

/// The select-line levels for `joy`; they depend on the axis alone.
pub fn select_lines(joy: JoyToPin) -> (r: (bool, bool))
    ensures
        r == select_spec(joy),
{
    match joy {
        JoyToPin::JoyX1 => (false, false),
        JoyToPin::JoyY1 => (true, false),
        JoyToPin::JoyX2 => (false, true),
        JoyToPin::JoyY2 => (true, true),
    }
}

/// The menu: which game is selected (0 for the paddle game, 1 for the snake
/// game) and whether the menu must be drawn again.
#[derive(Clone, Copy, Debug, PartialEq, Eq, Structural)]
pub struct Menu {
    pub selected_game: u8,
    pub menu_changed: bool,
}

impl Menu {
    /// This menu after a reading `value` of its axis: above the upper bound
    /// selects the snake game, below the lower bound the paddle game, and a
    /// reading between the bounds changes nothing.
    pub open spec fn after_reading(self, value: u16) -> Menu {
        if value > JOY_UPPER_BOUND {
            Menu { selected_game: 1, menu_changed: true }
        } else if value < JOY_LOWER_BOUND {
            Menu { selected_game: 0, menu_changed: true }
        } else {
            self
        }
    }

    /// A menu that selects the paddle game and is still to be drawn.
    pub fn new() -> (r: Menu)
        ensures
            r == (Menu { selected_game: 0, menu_changed: true }),
    {
        Menu { selected_game: 0, menu_changed: true }
    }

    /// Takes one reading of the menu's axis.
    pub fn read_axis(&mut self, value: u16)
        ensures
            *final(self) == old(self).after_reading(value),
    {
        if value > JOY_UPPER_BOUND {
            self.menu_changed = true;
            self.selected_game = 1;
        } else if value < JOY_LOWER_BOUND {
            self.menu_changed = true;
            self.selected_game = 0;
        }
    }

    /// Whether the menu must be drawn now; the flag is cleared.
    pub fn take_redraw(&mut self) -> (r: bool)
        ensures
            r == old(self).menu_changed,
            *final(self) == (Menu { menu_changed: false, ..*old(self) }),
    {
        let r = self.menu_changed;
        self.menu_changed = false;
        r
    }

    /// The menu's title line.
    pub fn title(&self) -> (r: &'static str)
        ensures
            r@ == "Select Game"@,
    {
        "Select Game"
    }

    /// The two entries, the selected one marked with `>`.
    pub fn entries(&self) -> (r: (&'static str, &'static str))
        ensures
            self.selected_game == 0 ==> r.0@ == "> Pong"@ && r.1@ == "  Snake"@,
            self.selected_game != 0 ==> r.0@ == "  Pong"@ && r.1@ == "> Snake"@,
    {
        if self.selected_game == 0 {
            ("> Pong", "  Snake")
        } else {
            ("  Pong", "> Snake")
        }
    }
}

} // verus!
