use vstd::prelude::*;

use crate::systems::command_system::MoveMode;

verus! {

/// Health or mana points after the maximum changed: no more than the maximum.
pub fn limit_points(points: i32, max: i32) -> (r: i32)
    ensures
        r == if points > max {
            max
        } else {
            points
        },
{
    if points > max {
        max
    } else {
        points
    }
}

/// Which of an entity's speeds it moves at.
#[derive(Copy, Clone, Debug, PartialEq, Eq, Structural)]
pub enum MoveSpeedKind {
    Run,
    Walk,
    Drive,
}

/// The speed an entity moves at in a move mode: its run speed running, its walk speed
/// walking, its drive speed driving.
pub fn move_speed_kind(mode: MoveMode) -> (r: MoveSpeedKind)
    ensures
        r == match mode {
            MoveMode::Run => MoveSpeedKind::Run,
            MoveMode::Walk => MoveSpeedKind::Walk,
            MoveMode::Drive => MoveSpeedKind::Drive,
        },
{
    match mode {
        MoveMode::Run => MoveSpeedKind::Run,
        MoveMode::Walk => MoveSpeedKind::Walk,
        MoveMode::Drive => MoveSpeedKind::Drive,
    }
}

} // verus!
