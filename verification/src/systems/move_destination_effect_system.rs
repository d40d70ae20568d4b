use vstd::prelude::*;

verus! {

/// The destination effect shown last, if it is still shown.
#[derive(Copy, Clone, Debug, PartialEq, Eq, Structural)]
pub struct MoveDestinationEffectSystemState {
    pub last_effect_entity: Option<u64>,
}

impl Default for MoveDestinationEffectSystemState {
    fn default() -> (r: Self)
        ensures
            r.last_effect_entity is None,
    {
        MoveDestinationEffectSystemState { last_effect_entity: None }
    }
}

impl MoveDestinationEffectSystemState {
    /// Showing the destination: the effect shown before is handed back to be despawned,
    /// and the new one (where the effect could be spawned) is the one shown now.
    pub fn show(&mut self, spawned: Option<u64>) -> (despawn: Option<u64>)
        ensures
            despawn == old(self).last_effect_entity,
            final(self).last_effect_entity == spawned,
    {
        let previous = self.last_effect_entity;
        self.last_effect_entity = spawned;
        previous
    }

    /// Hiding the destination: the effect shown is handed back to be despawned.
    pub fn clear(&mut self) -> (despawn: Option<u64>)
        ensures
            despawn == old(self).last_effect_entity,
            final(self).last_effect_entity is None,
    {
        let previous = self.last_effect_entity;
        self.last_effect_entity = None;
        previous
    }
}

/// The effect file of the move destination.
pub const MOVE_DESTINATION_EFFECT_FILE_ID: u16 = 296;

} // verus!
