use vstd::prelude::*;

verus! {

/// Index of an entity in the world's entity table. It is valid only while
/// that entity exists.
pub type EntityIndex = usize;

/// Stable identifier of a player, assigned by the session layer and never
/// reused while the session is active.
#[derive(Copy, Clone, Debug, PartialEq, Eq, Hash, Structural)]
pub struct PlayerId(pub u32);

/// Identifier of a team.
#[derive(Copy, Clone, Debug, PartialEq, Eq, Hash, Structural)]
pub struct TeamId(pub u32);

/// A point or vector of the world plane. Each coordinate is held as the bit
/// pattern of a single-precision float: this library carries points and
/// never computes with them.
#[derive(Copy, Clone, Debug, PartialEq, Eq, Hash, Structural)]
pub struct Point {
    pub x: u32,
    pub y: u32,
}

/// A player's view into the world: a circle about a center.
#[derive(Copy, Clone, Debug, PartialEq, Eq, Hash, Structural)]
pub struct Camera {
    pub center: Point,
    /// The radius, as the bit pattern of a single-precision float.
    pub radius: u32,
}

/// Why a player's avatar was destroyed.
#[derive(Copy, Clone, Debug, PartialEq, Eq, Hash, Structural)]
pub enum DeathReason {
    /// It left the world's border.
    Border,
    /// It ran into terrain.
    Terrain,
    /// It collided with another player's avatar.
    Boat(PlayerId),
    /// It collided with an obstacle.
    Obstacle,
    /// It was hit by a weapon that a player fired.
    Weapon(PlayerId),
}

/// What the client reports each tick for simulation to read.
#[derive(Copy, Clone, Debug, PartialEq, Eq, Hash, Structural)]
pub struct Hint {
    /// Width over height of the client's view, as the bit pattern of a
    /// single-precision float.
    pub aspect: u32,
}

impl Hint {
    /// The hint of a client that has reported nothing yet.
    pub open spec fn unset() -> Hint {
        Hint { aspect: 0 }
    }
}

impl Default for Hint {
    fn default() -> (r: Hint)
        ensures
            r == Hint::unset(),
    {
        Hint { aspect: 0 }
    }
}

} // verus!
