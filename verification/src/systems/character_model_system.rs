use vstd::prelude::*;

verus! {

/// What to do with a character's model after its info, equipment or personal store
/// changed.
#[derive(Copy, Clone, Debug, PartialEq, Eq, Structural)]
pub struct CharacterModelPlan {
    /// Load the new equipment onto the existing model.
    pub update_equipment: bool,
    /// Despawn the model's parts, skeleton and collider.
    pub despawn_model: bool,
    /// Take the model's components off the entity.
    pub remove_model_components: bool,
    /// Spawn a new model.
    pub spawn_model: bool,
}

/// The plan for a character's model: a model of the same gender only takes the new
/// equipment; one of another gender is despawned; a character with a personal store open
/// shows no model (its components are taken off), and any other gets a new model.
pub fn character_model_plan(has_model: bool, same_gender: bool, personal_store: bool) -> (r: CharacterModelPlan)
    ensures
        r.update_equipment == (has_model && same_gender),
        r.despawn_model == (has_model && !same_gender),
        r.remove_model_components == (has_model && !same_gender && personal_store),
        r.spawn_model == (!(has_model && same_gender) && !personal_store),
{
    if has_model && same_gender {
        return CharacterModelPlan {
            update_equipment: true,
            despawn_model: false,
            remove_model_components: false,
            spawn_model: false,
        };
    }
    CharacterModelPlan {
        update_equipment: false,
        despawn_model: has_model,
        remove_model_components: has_model && personal_store,
        spawn_model: !personal_store,
    }
}

} // verus!
