use vstd::prelude::*;

verus! {

/// A particle sequence of an effect: whether it has finished, whether particles are left,
/// and whether its transform animation has completed, where it has one.
#[derive(Copy, Clone, Debug, PartialEq, Eq, Structural)]
pub struct ParticleState {
    pub finished: bool,
    pub has_particles: bool,
    pub animation_completed: Option<bool>,
}

/// A part of an effect: a particle sequence, a mesh (whether its animation has completed,
/// where it has one), both, or neither.
#[derive(Copy, Clone, Debug, PartialEq, Eq, Structural)]
pub struct EffectPart {
    pub particles: Option<ParticleState>,
    pub mesh: Option<Option<bool>>,
}

/// Whether a particle sequence is done: it has finished with no particles left, or its
/// transform animation (where it has one) has completed.
pub open spec fn spec_particles_done(p: ParticleState) -> bool {
    (p.finished && !p.has_particles) || match p.animation_completed {
        Some(completed) => completed,
        None => true,
    }
}

/// Whether a mesh is done: its animation (where it has one) has completed.
pub open spec fn spec_mesh_done(m: Option<bool>) -> bool {
    match m {
        Some(completed) => completed,
        None => true,
    }
}

/// How many of the parts' particle sequences and meshes are done, and how many run.
pub open spec fn spec_part_counts(parts: Seq<EffectPart>) -> (nat, nat)
    decreases parts.len(),
{
    if parts.len() == 0 {
        (0, 0)
    } else {
        let rest = spec_part_counts(parts.drop_last());
        let part = parts.last();
        let (pf, pr): (nat, nat) = match part.particles {
            Some(p) => if spec_particles_done(p) {
                (1, 0)
            } else {
                (0, 1)
            },
            None => (0, 0),
        };
        let (mf, mr): (nat, nat) = match part.mesh {
            Some(m) => if spec_mesh_done(m) {
                (1, 0)
            } else {
                (0, 1)
            },
            None => (0, 0),
        };
        ((rest.0 + pf + mf) as nat, (rest.1 + pr + mr) as nat)
    }
}

/// Whether an effect is over and is to be despawned: it is not despawned by hand, some of
/// its parts are done and none still runs.
pub fn effect_finished(manual_despawn: bool, parts: &Vec<EffectPart>) -> (r: bool)
    ensures
        r == (!manual_despawn && spec_part_counts(parts@).0 > 0 && spec_part_counts(parts@).1 == 0),
{
    if manual_despawn {
        return false;
    }
    let mut any_finished = false;
    let mut any_running = false;
    let mut i: usize = 0;
    while i < parts.len()
        invariant
            i <= parts@.len(),
            any_finished == (spec_part_counts(parts@.take(i as int)).0 > 0),
            any_running == (spec_part_counts(parts@.take(i as int)).1 > 0),
        decreases parts.len() - i,
    {
        let part = parts[i];
        assert(parts@.take(i + 1).drop_last() =~= parts@.take(i as int));
        assert(parts@.take(i + 1).last() == part);
        if let Some(p) = part.particles {
            let animation_done = match p.animation_completed {
                Some(completed) => completed,
                None => true,
            };
            if (p.finished && !p.has_particles) || animation_done {
                any_finished = true;
            } else {
                any_running = true;
            }
        }
        if let Some(animation) = part.mesh {
            let done = match animation {
                Some(completed) => completed,
                None => true,
            };
            if done {
                any_finished = true;
            } else {
                any_running = true;
            }
        }
        i = i + 1;
    }
    assert(parts@.take(parts@.len() as int) =~= parts@);
    any_finished && !any_running
}

} // verus!
