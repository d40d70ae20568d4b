use vstd::prelude::*;

verus! {

/// Where a motion is: the frame it shows, the frame it blends towards, and how many times
/// it has looped.
#[derive(Copy, Clone, Debug, PartialEq, Eq, Structural)]
pub struct MotionFrame {
    pub current_frame_index: usize,
    pub next_frame_index: usize,
    pub loop_count: usize,
}

/// Where a motion of `num_frames` frames is after `frame_count` whole frames have played
/// since it started, with a limit on how many times it repeats: `None` once it has played
/// that many times. The last frame of the last loop does not blend back to the first.
pub open spec fn spec_motion_frame(frame_count: int, num_frames: int, repeat_limit: Option<usize>) -> Option<MotionFrame> {
    let limit = match repeat_limit {
        Some(l) => l as int,
        None => usize::MAX as int,
    };
    let loop_count = frame_count / num_frames;
    let current = frame_count % num_frames;
    if loop_count >= limit {
        None
    } else {
        Some(
            MotionFrame {
                current_frame_index: current as usize,
                next_frame_index: if current + 1 == num_frames && loop_count + 1 >= limit {
                    current as usize
                } else {
                    ((current + 1) % num_frames) as usize
                },
                loop_count: loop_count as usize,
            },
        )
    }
}

/// Where a motion is after `frame_count` whole frames (see `spec_motion_frame`); also
/// returns how many times it has looped, which is recorded even once it has ended.
pub fn advance_active_motion(frame_count: usize, num_frames: usize, repeat_limit: Option<usize>) -> (r: (Option<MotionFrame>, usize))
    requires
        num_frames > 0,
    ensures
        r.0 == spec_motion_frame(frame_count as int, num_frames as int, repeat_limit),
        r.1 == frame_count / num_frames,
{
    let limit = match repeat_limit {
        Some(l) => l,
        None => usize::MAX,
    };
    let loop_count = frame_count / num_frames;
    if loop_count >= limit {
        return (None, loop_count);
    }
    let current = frame_count % num_frames;
    let next = if current + 1 == num_frames && loop_count + 1 >= limit {
        current
    } else {
        (current + 1) % num_frames
    };
    (Some(MotionFrame { current_frame_index: current, next_frame_index: next, loop_count }), loop_count)
}

/// The flags of a frame's event: where the frame has an event and the table has flags for
/// it, and they are not empty.
pub open spec fn spec_frame_flags(frame_events: Seq<Option<u16>>, event_flags: Seq<u32>, frame: int) -> Option<u32> {
    match frame_events[frame] {
        Some(id) => if (id as int) < event_flags.len() && event_flags[id as int] != 0 {
            Some(event_flags[id as int])
        } else {
            None
        },
        None => None,
    }
}

/// The flags of the events of `steps` frames from `start` on, going round the motion's
/// frames, in order.
pub open spec fn spec_frame_event_flags(
    frame_events: Seq<Option<u16>>,
    event_flags: Seq<u32>,
    start: int,
    steps: nat,
) -> Seq<u32>
    decreases steps,
{
    if steps == 0 {
        Seq::empty()
    } else {
        let before = spec_frame_event_flags(frame_events, event_flags, start, (steps - 1) as nat);
        let frame = (start + steps - 1) % (frame_events.len() as int);
        match spec_frame_flags(frame_events, event_flags, frame) {
            Some(f) => before.push(f),
            None => before,
        }
    }
}

/// How many frames there are from `start` up to (not including) `end`, going round `n`
/// frames.
pub open spec fn spec_frames_until(start: int, end: int, n: int) -> nat {
    if start <= end {
        (end - start) as nat
    } else {
        (end + n - start) as nat
    }
}

/// The events of the frames of a motion between the frame shown before and the frame
/// shown now, going round its frames: for each frame from `start` up to (not including)
/// `end`, the flags of its event, where it has one (see `spec_frame_flags`).
pub fn emit_animation_events(frame_events: &Vec<Option<u16>>, event_flags: &Vec<u32>, start: usize, end: usize) -> (r: Vec<u32>)
    requires
        start < frame_events@.len(),
        end < frame_events@.len(),
    ensures
        r@ == spec_frame_event_flags(
            frame_events@,
            event_flags@,
            start as int,
            spec_frames_until(start as int, end as int, frame_events@.len() as int),
        ),
{
    let n = frame_events.len();
    let ghost total = spec_frames_until(start as int, end as int, n as int);
    let mut flags: Vec<u32> = Vec::new();
    let mut frame = start;
    let mut steps: usize = 0;
    proof {
        lemma_mod_small(start as int, n as int);
    }
    while frame != end
        invariant
            n == frame_events@.len(),
            start < n,
            end < n,
            frame < n,
            steps <= total,
            frame as int == (start + steps) % (n as int),
            total == spec_frames_until(start as int, end as int, n as int),
            (frame == end) == (steps == total),
            flags@ == spec_frame_event_flags(frame_events@, event_flags@, start as int, steps as nat),
        decreases total - steps,
    {
        if let Some(event_id) = frame_events[frame] {
            let id = event_id as usize;
            if id < event_flags.len() {
                let f = event_flags[id];
                if f != 0 {
                    flags.push(f);
                }
            }
        }
        proof {
            lemma_step_frame(start as int, steps as int, n as int, end as int);
        }
        frame = (frame + 1) % n;
        steps = steps + 1;
    }
    flags
}

proof fn lemma_mod_small(x: int, n: int)
    requires
        0 <= x < 2 * n,
        n > 0,
    ensures
        x % n == if x < n {
            x
        } else {
            x - n
        },
{
    if x < n {
        vstd::arithmetic::div_mod::lemma_small_mod(x as nat, n as nat);
    } else {
        vstd::arithmetic::div_mod::lemma_small_mod((x - n) as nat, n as nat);
        vstd::arithmetic::div_mod::lemma_mod_add_multiples_vanish(x - n, n);
    }
}

proof fn lemma_step_frame(start: int, steps: int, n: int, end: int)
    requires
        0 <= start < n,
        0 <= end < n,
        0 <= steps < spec_frames_until(start, end, n),
    ensures
        ((start + steps) % n + 1) % n == (start + steps + 1) % n,
        ((start + steps + 1) % n == end) == (steps + 1 == spec_frames_until(start, end, n)),
{
    let total = spec_frames_until(start, end, n);
    assert(total < n);
    assert(start + steps + 1 < 2 * n);
    lemma_mod_small(start + steps, n);
    lemma_mod_small(start + steps + 1, n);
    lemma_mod_small((start + steps) % n + 1, n);
}

/// The events of the frames of a motion from `start` through its last frame: for each
/// frame, the flags of its event, where it has one (see `spec_frame_flags`).
pub fn emit_remaining_events(frame_events: &Vec<Option<u16>>, event_flags: &Vec<u32>, start: usize) -> (r: Vec<u32>)
    requires
        start < frame_events@.len(),
    ensures
        r@ == spec_frame_event_flags(
            frame_events@,
            event_flags@,
            start as int,
            spec_frames_until(start as int, frame_events@.len() - 1, frame_events@.len() as int) + 1,
        ),
{
    let n = frame_events.len();
    let mut flags: Vec<u32> = Vec::new();
    let mut frame = start;
    while frame < n
        invariant
            n == frame_events@.len(),
            start <= frame <= n,
            flags@ == spec_frame_event_flags(frame_events@, event_flags@, start as int, (frame - start) as nat),
        decreases n - frame,
    {
        proof {
            vstd::arithmetic::div_mod::lemma_small_mod(frame as nat, n as nat);
            assert((start + ((frame - start + 1) as nat) - 1) % (n as int) == frame as int);
        }
        if let Some(event_id) = frame_events[frame] {
            let id = event_id as usize;
            if id < event_flags.len() {
                let f = event_flags[id];
                if f != 0 {
                    flags.push(f);
                }
            }
        }
        frame = frame + 1;
    }
    flags
}

/// What a frame of an entity's motion gives: where the motion is (none once it has
/// ended, when it is to be taken off the entity), how many times it has looped, the flags
/// of the frame events passed, and the frame to remember as shown.
#[derive(Debug)]
pub struct AnimationFrame {
    pub frame: Option<MotionFrame>,
    pub loop_count: usize,
    pub events: Vec<u32>,
    pub previous_frame: Option<usize>,
}

/// A frame of an entity's motion of `frame_events@.len()` frames, `frame_count` whole
/// frames after it started: the events from the frame shown before (the first, at the
/// start) up to the frame shown now; once the motion has ended, the remaining ones through
/// its last frame, and the motion ends.
pub fn animation_frame(
    previous_frame: Option<usize>,
    frame_count: usize,
    repeat_limit: Option<usize>,
    frame_events: &Vec<Option<u16>>,
    event_flags: &Vec<u32>,
) -> (r: AnimationFrame)
    requires
        frame_events@.len() > 0,
        previous_frame matches Some(p) ==> p < frame_events@.len(),
    ensures
        ({
            let n = frame_events@.len() as int;
            let start: int = match previous_frame {
                Some(p) => p as int,
                None => 0,
            };
            &&& r.frame == spec_motion_frame(frame_count as int, n, repeat_limit)
            &&& r.loop_count == (frame_count as int) / n
            &&& match r.frame {
                None => r.events@ == spec_frame_event_flags(
                    frame_events@,
                    event_flags@,
                    start,
                    spec_frames_until(start, n - 1, n) + 1,
                ) && r.previous_frame == previous_frame,
                Some(m) => r.events@ == spec_frame_event_flags(
                    frame_events@,
                    event_flags@,
                    start,
                    spec_frames_until(start, m.current_frame_index as int, n),
                ) && r.previous_frame == Some(m.current_frame_index),
            }
        }),
{
    let n = frame_events.len();
    let start = match previous_frame {
        Some(p) => p,
        None => 0,
    };
    let (frame, loop_count) = advance_active_motion(frame_count, n, repeat_limit);
    match frame {
        None => {
            let events = emit_remaining_events(frame_events, event_flags, start);
            AnimationFrame { frame, loop_count, events, previous_frame }
        },
        Some(m) => {
            assert(m.current_frame_index < n) by {
                assert((frame_count as int) % (n as int) < (n as int));
            }
            let events = emit_animation_events(frame_events, event_flags, start, m.current_frame_index);
            AnimationFrame { frame, loop_count, events, previous_frame: Some(m.current_frame_index) }
        },
    }
}

} // verus!
