use vstd::prelude::*;

verus! {

/// Which track of the zone is playing.
#[derive(Copy, Clone, Debug, PartialEq, Eq, Structural)]
pub enum BackgroundMusicState {
    NotPlaying,
    PlayingDay,
    PlayingNight,
}

impl Default for BackgroundMusicState {
    fn default() -> (r: Self)
        ensures
            r == BackgroundMusicState::NotPlaying,
    {
        BackgroundMusicState::NotPlaying
    }
}

/// The time of day in the current zone.
#[derive(Copy, Clone, Debug, PartialEq, Eq, Structural)]
pub enum ZoneTimeState {
    Morning,
    Day,
    Evening,
    Night,
}

/// The background music of the current zone: the zone it belongs to, the entity that
/// plays it, the paths of the zone's day and night tracks, and which of them plays.
#[derive(Debug)]
pub struct BackgroundMusic {
    pub zone: Option<u16>,
    pub entity: Option<u64>,
    pub day_audio_source: Option<String>,
    pub night_audio_source: Option<String>,
    pub state: BackgroundMusicState,
}

impl Default for BackgroundMusic {
    fn default() -> (r: Self)
        ensures
            r@ == (BackgroundMusicView {
                zone: None,
                entity: None,
                day: None,
                night: None,
                state: BackgroundMusicState::NotPlaying,
            }),
    {
        BackgroundMusic {
            zone: None,
            entity: None,
            day_audio_source: None,
            night_audio_source: None,
            state: BackgroundMusicState::NotPlaying,
        }
    }
}

/// The background music as plain values.
pub struct BackgroundMusicView {
    pub zone: Option<u16>,
    pub entity: Option<u64>,
    pub day: Option<Seq<char>>,
    pub night: Option<Seq<char>>,
    pub state: BackgroundMusicState,
}

/// An optional path as its characters.
pub open spec fn spec_path(path: Option<String>) -> Option<Seq<char>> {
    match path {
        Some(p) => Some(p@),
        None => None,
    }
}

impl View for BackgroundMusic {
    type V = BackgroundMusicView;

    open spec fn view(&self) -> BackgroundMusicView {
        BackgroundMusicView {
            zone: self.zone,
            entity: self.entity,
            day: spec_path(self.day_audio_source),
            night: spec_path(self.night_audio_source),
            state: self.state,
        }
    }
}

/// What the background music asks for: to despawn the entity that played it, or to
/// spawn one that plays the track at a path over and over. The entity spawned is then
/// recorded in `entity`.
#[derive(Debug)]
pub enum BackgroundMusicAction {
    Despawn(u64),
    SpawnRepeating(String),
}

/// An action as plain values.
pub enum BackgroundMusicActionView {
    Despawn(u64),
    SpawnRepeating(Seq<char>),
}

impl View for BackgroundMusicAction {
    type V = BackgroundMusicActionView;

    open spec fn view(&self) -> BackgroundMusicActionView {
        match self {
            BackgroundMusicAction::Despawn(e) => BackgroundMusicActionView::Despawn(*e),
            BackgroundMusicAction::SpawnRepeating(p) => BackgroundMusicActionView::SpawnRepeating(p@),
        }
    }
}

/// Actions as plain values.
pub open spec fn spec_music_actions(actions: Seq<BackgroundMusicAction>) -> Seq<BackgroundMusicActionView> {
    actions.map_values(|a: BackgroundMusicAction| a@)
}

/// Despawning the entity, where there is one.
pub open spec fn spec_despawn(entity: Option<u64>) -> Seq<BackgroundMusicActionView> {
    match entity {
        Some(e) => seq![BackgroundMusicActionView::Despawn(e)],
        None => Seq::empty(),
    }
}

/// Switching to a track: the entity playing goes, one playing the track (if the zone has
/// it) is to come, and `state` is recorded.
pub open spec fn spec_switch_track(
    music: BackgroundMusicView,
    track: Option<Seq<char>>,
    state: BackgroundMusicState,
) -> (BackgroundMusicView, Seq<BackgroundMusicActionView>) {
    (
        BackgroundMusicView { entity: None, state, ..music },
        spec_despawn(music.entity) + match track {
            Some(path) => seq![BackgroundMusicActionView::SpawnRepeating(path)],
            None => Seq::empty(),
        },
    )
}

/// One step of the background music: from its state, the current zone (if any), the
/// paths of that zone's day and night tracks (`None` where the zone is unknown), and the
/// time of day, the next state and what to ask for. Without a zone the music stops. In a
/// new zone the zone's tracks are taken up and none plays. Then, unless both times of
/// day have the same track and it is playing already, the track of the time of day
/// starts when it is not the one playing.
pub open spec fn spec_background_music_step(
    music: BackgroundMusicView,
    zone: Option<u16>,
    zone_tracks: Option<(Option<Seq<char>>, Option<Seq<char>>)>,
    time: ZoneTimeState,
) -> (BackgroundMusicView, Seq<BackgroundMusicActionView>) {
    match zone {
        None => (BackgroundMusicView { entity: None, ..music }, spec_despawn(music.entity)),
        Some(z) => {
            let (current, leaving) = if music.zone != Some(z) {
                let (day, night) = match zone_tracks {
                    Some(tracks) => tracks,
                    None => (None, None),
                };
                (
                    BackgroundMusicView {
                        zone: Some(z),
                        entity: None,
                        day,
                        night,
                        state: BackgroundMusicState::NotPlaying,
                    },
                    spec_despawn(music.entity),
                )
            } else {
                (music, Seq::empty())
            };
            if current.day == current.night && current.entity is Some {
                (current, leaving)
            } else {
                let daytime = time == ZoneTimeState::Morning || time == ZoneTimeState::Day;
                let (next, actions) = if daytime {
                    if current.state == BackgroundMusicState::PlayingDay {
                        (current, Seq::empty())
                    } else {
                        spec_switch_track(current, current.day, BackgroundMusicState::PlayingDay)
                    }
                } else {
                    if current.state == BackgroundMusicState::PlayingNight {
                        (current, Seq::empty())
                    } else {
                        spec_switch_track(current, current.night, BackgroundMusicState::PlayingNight)
                    }
                };
                (next, leaving + actions)
            }
        },
    }
}

fn same_path(a: &Option<String>, b: &Option<String>) -> (r: bool)
    ensures
        r == (spec_path(*a) == spec_path(*b)),
{
    match (a, b) {
        (Some(a), Some(b)) => *a == *b,
        (None, None) => true,
        _ => false,
    }
}

fn copy_path(a: &Option<String>) -> (r: Option<String>)
    ensures
        spec_path(r) == spec_path(*a),
{
    match a {
        Some(a) => Some(a.clone()),
        None => None,
    }
}

fn despawn_into(actions: &mut Vec<BackgroundMusicAction>, entity: Option<u64>)
    ensures
        spec_music_actions(final(actions)@) == spec_music_actions(old(actions)@) + spec_despawn(
            entity,
        ),
{
    let ghost prior = actions@;
    if let Some(e) = entity {
        actions.push(BackgroundMusicAction::Despawn(e));
        assert(spec_music_actions(actions@) =~= spec_music_actions(prior) + spec_despawn(entity));
    } else {
        assert(spec_music_actions(actions@) =~= spec_music_actions(prior) + spec_despawn(entity));
    }
}

fn switch_track(
    music: &mut BackgroundMusic,
    actions: &mut Vec<BackgroundMusicAction>,
    day: bool,
    state: BackgroundMusicState,
)
    ensures
        ({
            let (next, added) = spec_switch_track(
                old(music)@,
                if day {
                    old(music)@.day
                } else {
                    old(music)@.night
                },
                state,
            );
            &&& final(music)@ == next
            &&& spec_music_actions(final(actions)@) == spec_music_actions(old(actions)@) + added
        }),
{
    let ghost prior = spec_music_actions(actions@);
    despawn_into(actions, music.entity);
    music.entity = None;
    let track = if day {
        copy_path(&music.day_audio_source)
    } else {
        copy_path(&music.night_audio_source)
    };
    let ghost mid = actions@;
    if let Some(path) = track {
        actions.push(BackgroundMusicAction::SpawnRepeating(path));
        assert(spec_music_actions(actions@) =~= spec_music_actions(mid).push(
            BackgroundMusicActionView::SpawnRepeating(path@),
        ));
    }
    music.state = state;
    assert(spec_music_actions(actions@) =~= prior + spec_switch_track(
        old(music)@,
        if day {
            old(music)@.day
        } else {
            old(music)@.night
        },
        state,
    ).1);
}

/// One step of the background music (see `spec_background_music_step`): updates it and
/// returns what to ask for, in order.
pub fn background_music_system(
    music: &mut BackgroundMusic,
    zone: Option<u16>,
    zone_tracks: Option<(Option<String>, Option<String>)>,
    time: ZoneTimeState,
) -> (actions: Vec<BackgroundMusicAction>)
    ensures
        (final(music)@, spec_music_actions(actions@)) == spec_background_music_step(
            old(music)@,
            zone,
            match zone_tracks {
                Some((day, night)) => Some((spec_path(day), spec_path(night))),
                None => None,
            },
            time,
        ),
{
    let mut actions: Vec<BackgroundMusicAction> = Vec::new();
    assert(spec_music_actions(actions@) =~= Seq::empty());
    let z = match zone {
        None => {
            despawn_into(&mut actions, music.entity);
            music.entity = None;
            return actions;
        },
        Some(z) => z,
    };
    let same_zone = match music.zone {
        Some(current) => current == z,
        None => false,
    };
    if !same_zone {
        despawn_into(&mut actions, music.entity);
        music.entity = None;
        music.state = BackgroundMusicState::NotPlaying;
        match zone_tracks {
            Some((day, night)) => {
                music.day_audio_source = day;
                music.night_audio_source = night;
            },
            None => {
                music.day_audio_source = None;
                music.night_audio_source = None;
            },
        }
        music.zone = Some(z);
    }
    let ghost leaving = spec_music_actions(actions@);
    if same_path(&music.day_audio_source, &music.night_audio_source) && music.entity.is_some() {
        return actions;
    }
    match time {
        ZoneTimeState::Morning | ZoneTimeState::Day => {
            if music.state != BackgroundMusicState::PlayingDay {
                switch_track(music, &mut actions, true, BackgroundMusicState::PlayingDay);
            } else {
                assert(leaving + Seq::empty() =~= leaving);
            }
        },
        ZoneTimeState::Evening | ZoneTimeState::Night => {
            if music.state != BackgroundMusicState::PlayingNight {
                switch_track(music, &mut actions, false, BackgroundMusicState::PlayingNight);
            } else {
                assert(leaving + Seq::empty() =~= leaving);
            }
        },
    }
    actions
}

} // verus!
