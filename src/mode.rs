use vstd::prelude::*;

use crate::input::Input;
use crate::selection::Selection;

verus! {

/// The interaction states of the browser.
pub enum Modes {
    /// Browsing: moving, entering and leaving directories.
    Explore,
    /// Typing a new name at the prompt.
    Input(Input),
    /// Marking a range of entries.
    Select(Selection),
    /// The session is over; nothing leaves this state.
    Quit,
}

/// The name shown for a mode.
pub open spec fn mode_name(m: Modes) -> Seq<char> {
    match m {
        Modes::Explore => "EXPLORE"@,
        Modes::Input(_) => "INPUT"@,
        Modes::Select(_) => "SELECT"@,
        Modes::Quit => "QUIT"@,
    }
}

/// The status-line label of a mode.
pub open spec fn mode_label(m: Modes) -> Seq<char> {
    match m {
        Modes::Explore => "-- EXPLORE --"@,
        Modes::Input(_) => "-- INPUT --"@,
        Modes::Select(_) => "-- SELECT --"@,
        Modes::Quit => "-- QUIT --"@,
    }
}

impl Modes {
    /// The mode's name, in capitals.
    pub fn to_string(&self) -> (r: String)
        ensures
            r@ == mode_name(*self),
    {
        match self {
            Modes::Explore => "EXPLORE".to_owned(),
            Modes::Input(_) => "INPUT".to_owned(),
            Modes::Select(_) => "SELECT".to_owned(),
            Modes::Quit => "QUIT".to_owned(),
        }
    }
}

/// The active mode; it is replaced whole on every transition.
pub struct Mode {
    mode: Modes,
}

impl Default for Mode {
    fn default() -> (r: Mode)
        ensures
            r.current() is Explore,
    {
        Mode { mode: Modes::Explore }
    }
}

impl Mode {
    /// The mode in force.
    pub closed spec fn current(&self) -> Modes {
        self.mode
    }

    pub fn get(&self) -> (r: &Modes)
        ensures
            *r == self.current(),
    {
        &self.mode
    }

    pub fn switch(&mut self, mode: Modes)
        ensures
            final(self).current() == mode,
    {
        self.mode = mode;
    }

    /// The mode in force, for changing it in place.
    pub fn get_mut(&mut self) -> (r: &mut Modes)
        ensures
            *r == old(self).current(),
            final(self).current() == *final(r),
    {
        &mut self.mode
    }

    /// The status-line label, such as `-- EXPLORE --`.
    pub fn label(&self) -> (r: String)
        ensures
            r@ == mode_label(self.current()),
    {
        match &self.mode {
            Modes::Explore => "-- EXPLORE --".to_owned(),
            Modes::Input(_) => "-- INPUT --".to_owned(),
            Modes::Select(_) => "-- SELECT --".to_owned(),
            Modes::Quit => "-- QUIT --".to_owned(),
        }
    }
}

} // verus!
