use vstd::prelude::*;
use std::time::Instant;
use crate::flags::Flags;
use crate::ids::{Hint, PlayerId, TeamId};
use crate::status::Status;

verus! {

/// The owner of an avatar, a person or a bot.
#[derive(Debug)]
pub struct Player {
    /// Side effects of this tick's inputs. Cleared when the avatar spawns
    /// and in each physics tick while the player has one.
    pub flags: Flags,
    /// What the client reported last.
    pub hint: Hint,
    /// Unique identifier.
    pub player_id: PlayerId,
    /// Current score.
    pub score: u32,
    /// Whether the player is alive, dead or spawning.
    pub status: Status,
    /// The player's team, if any.
    pub team_id: Option<TeamId>,
}

impl Player {
    /// What a player is on creation: the given identity, no score, no team,
    /// nothing flagged or hinted, spawning.
    pub open spec fn is_fresh(&self, player_id: PlayerId) -> bool {
        &&& self.flags == Flags::cleared()
        &&& self.hint == Hint::unset()
        &&& self.player_id == player_id
        &&& self.score == 0
        &&& self.status is Spawning
        &&& self.team_id is None
    }

    /// The flags after a move from the team `from`: leaving a team marks it
    /// left, whether or not it had other members; joining from no team
    /// changes nothing.
    pub open spec fn flags_after_move(flags: Flags, from: Option<TeamId>) -> Flags {
        Flags { left_populated_team: flags.left_populated_team || from is Some, ..flags }
    }

    /// A player that is spawning for the first time.
    pub fn new(player_id: PlayerId) -> (r: Player)
        ensures
            r.is_fresh(player_id),
    {
        Player {
            flags: Flags::default(),
            player_id,
            hint: Hint::default(),
            score: 0,
            status: Status::Spawning { time: Instant::now() },
            team_id: None,
        }
    }

    /// Moves the player to `team_id`, or out of any team for `None`, and
    /// flags the team that it leaves.
    pub fn change_team(&mut self, team_id: Option<TeamId>)
        ensures
            final(self).team_id == team_id,
            final(self).flags == Player::flags_after_move(old(self).flags, old(self).team_id),
            final(self).hint == old(self).hint,
            final(self).player_id == old(self).player_id,
            final(self).score == old(self).score,
            final(self).status == old(self).status,
    {
        if self.team_id.is_some() {
            self.flags.left_populated_team = true;
        }
        self.team_id = team_id;
    }
}

/// No player begins alive.
pub proof fn fresh_player_is_not_alive(p: Player, player_id: PlayerId)
    requires
        p.is_fresh(player_id),
    ensures
        !p.status.is_alive(),
        p.status is Spawning,
{
}

/// Joining a team from no team leaves the flag as it was (clear, for a
/// player whose flags are clear), and leaving a team for another or for none
/// raises it.
pub proof fn team_change_flag(flags: Flags, from: Option<TeamId>)
    ensures
        from is None ==> Player::flags_after_move(flags, from) == flags,
        from is Some ==> Player::flags_after_move(flags, from).left_populated_team,
        Player::flags_after_move(flags, from).left_game == flags.left_game,
        Player::flags_after_move(flags, from).upgraded == flags.upgraded,
{
}

} // verus!
