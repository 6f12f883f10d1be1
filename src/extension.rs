use vstd::prelude::*;

verus! {

/// State that belongs to a player's current avatar rather than to the
/// player, read and written by the entity simulation.
#[derive(Debug)]
pub struct EntityExtension {
    /// The avatar's altitude; negative below the surface.
    pub altitude: i8,
    /// Which of the avatar's weapons are loaded, in armament order.
    pub reloads: Vec<bool>,
}

impl EntityExtension {
    /// The payload before any avatar has claimed it: at the surface, no
    /// weapons.
    pub open spec fn is_blank(&self) -> bool {
        &&& self.altitude == 0
        &&& self.reloads@ == Seq::<bool>::empty()
    }
}

impl Default for EntityExtension {
    fn default() -> (r: EntityExtension)
        ensures
            r.is_blank(),
    {
        EntityExtension { altitude: 0, reloads: Vec::new() }
    }
}

} // verus!
