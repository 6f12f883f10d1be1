use vstd::prelude::*;
use std::time::Instant;
use crate::ids::{DeathReason, EntityIndex, Point};

verus! {

#[verifier::external_type_specification]
#[verifier::external_body]
pub struct ExInstant(std::time::Instant);

/// Relies on std's Instant::now for the time at which a state begins;
/// nothing is claimed of the value read from the clock.
pub assume_specification[ std::time::Instant::now ]() -> std::time::Instant;

/// The mutually exclusive states of a player's relationship to its avatar.
#[derive(Debug)]
pub enum Status {
    /// The player has an avatar.
    Alive {
        /// Index of the avatar in the world's entity table.
        entity_index: EntityIndex,
        /// Where the player aims; turrets and aircraft follow it.
        aim_target: Option<Point>,
        /// When the avatar spawned.
        time: Instant,
    },
    /// The player had an avatar.
    Dead {
        /// Why the avatar was destroyed.
        reason: DeathReason,
        /// Where it was destroyed.
        position: Point,
        /// When it was destroyed.
        time: Instant,
        /// How far it could see, as the bit pattern of a single-precision
        /// float.
        visual_range: u32,
    },
    /// The player never had an avatar.
    Spawning {
        /// When spawning began.
        time: Instant,
    },
}

/// The error of an operation that is defined only for a living player.
#[derive(Copy, Clone, Debug, PartialEq, Eq, Structural)]
pub struct InvalidStateError;

impl Status {
    /// Whether the player has an avatar.
    pub open spec fn spec_is_alive(&self) -> bool {
        *self is Alive
    }

    /// The index of the avatar, where there is one.
    pub open spec fn index_of(&self) -> Option<EntityIndex> {
        match *self {
            Status::Alive { entity_index, .. } => Some(entity_index),
            _ => None,
        }
    }

    /// A state that has just become alive: the given avatar, aiming nowhere.
    pub open spec fn is_fresh_alive(&self, entity_index: EntityIndex) -> bool {
        &&& self is Alive
        &&& self->entity_index == entity_index
        &&& self->aim_target is None
    }

    /// The same state with its avatar index replaced, aim and time kept.
    pub open spec fn reindexed(&self, new_index: EntityIndex) -> Status
        recommends
            self is Alive,
    {
        Status::Alive { entity_index: new_index, aim_target: self->aim_target, time: self->Alive_time }
    }

    /// A living state for the avatar at `entity_index`, begun now.
    pub fn new_alive(entity_index: EntityIndex) -> (r: Status)
        ensures
            r.is_fresh_alive(entity_index),
    {
        Status::Alive { entity_index, aim_target: None, time: Instant::now() }
    }

    /// Whether the player has an avatar.
    #[verifier::when_used_as_spec(spec_is_alive)]
    pub fn is_alive(&self) -> (r: bool)
        ensures
            r == self.spec_is_alive(),
    {
        matches!(self, Status::Alive { .. })
    }

    /// Points a living state at its avatar's new index, keeping aim and
    /// time. Only a living state has an index to move: a caller that holds
    /// an index for a player without an avatar has lost track of it.
    pub fn set_entity_index(&mut self, new_index: EntityIndex)
        requires
            old(self).is_alive(),
        ensures
            *final(self) == old(self).reindexed(new_index),
    {
        if let Status::Alive { entity_index, .. } = self {
            *entity_index = new_index;
        }
    }

    /// As `set_entity_index` for a living state. Any other state is left as
    /// it is and the call fails with `InvalidStateError`.
    pub fn try_set_entity_index(&mut self, new_index: EntityIndex) -> (r: Result<(), InvalidStateError>)
        ensures
            old(self).is_alive() ==> r is Ok && *final(self) == old(self).reindexed(new_index),
            !old(self).is_alive() ==> r == Err::<(), InvalidStateError>(InvalidStateError)
                && *final(self) == *old(self),
    {
        if self.is_alive() {
            self.set_entity_index(new_index);
            Ok(())
        } else {
            Err(InvalidStateError)
        }
    }
}

/// A state made by `new_alive` reports itself alive and holds the index it
/// was made with.
pub proof fn new_alive_is_alive(s: Status, entity_index: EntityIndex)
    requires
        s.is_fresh_alive(entity_index),
    ensures
        s.is_alive(),
        s.index_of() == Some(entity_index),
{
}

/// Moving a living avatar keeps the player alive and records the new index.
pub proof fn reindexed_stays_alive(s: Status, new_index: EntityIndex)
    requires
        s is Alive,
    ensures
        s.reindexed(new_index).is_alive(),
        s.reindexed(new_index).index_of() == Some(new_index),
{
}

} // verus!
