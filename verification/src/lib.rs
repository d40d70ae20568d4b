use vstd::prelude::*;

pub mod bank;
pub mod conversation;
pub mod lua4;
pub mod party;
pub mod quest;
mod random;
pub mod scripting;
pub mod static_mesh_material;
pub mod systems;
pub mod text;

verus! {

} // verus!
