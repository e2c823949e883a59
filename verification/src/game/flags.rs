//! Which screen is shown.

use vstd::prelude::*;
use crate::graphics::screen::ScreenName;

verus! {

/// Flags control which screen is shown, and whether the game that has just
/// ended beat the best score.
#[derive(Clone, Copy, Debug, PartialEq, Eq, Structural)]
pub struct Flags {
    pub current_screen: ScreenName,
    pub new_high_score: bool,
}

impl Flags {
    /// The flags of a game that has not been started: the title screen is on.
    pub fn new() -> (flags: Flags)
        ensures
            flags == (Flags { current_screen: ScreenName::Title, new_high_score: false }),
    {
        Flags { current_screen: ScreenName::Title, new_high_score: false }
    }
}

} // verus!
