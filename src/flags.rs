use vstd::prelude::*;

verus! {

/// Side effects that simulation must apply, set from player inputs and
/// cleared once each physics tick.
#[derive(Copy, Clone, Debug, PartialEq, Eq, Structural)]
pub struct Flags {
    /// The player just left the game, so all of its entities are removed.
    pub left_game: bool,
    /// The player just left a team, so its mines are removed.
    pub left_populated_team: bool,
    /// The player just upgraded, so all limited entities are removed.
    pub upgraded: bool,
}

impl Flags {
    /// The flags of a tick in which nothing happened.
    pub open spec fn cleared() -> Flags {
        Flags { left_game: false, left_populated_team: false, upgraded: false }
    }
}

impl Default for Flags {
    fn default() -> (r: Flags)
        ensures
            r == Flags::cleared(),
    {
        Flags { left_game: false, left_populated_team: false, upgraded: false }
    }
}

} // verus!
