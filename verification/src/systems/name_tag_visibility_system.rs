use vstd::prelude::*;

use crate::party::{spec_members, PartyInfo, PartyMemberView};

verus! {

/// What kind of entity a name tag belongs to.
#[derive(Copy, Clone, Debug, PartialEq, Eq, Structural)]
pub enum NameTagType {
    Character,
    Monster,
    Npc,
}

/// The settings that decide which name tags show: for each kind, whether all name tags of
/// it show, and whether the health bars of party members show.
#[derive(Copy, Clone, Debug)]
pub struct NameTagConfig {
    pub show_all_character: bool,
    pub show_all_monster: bool,
    pub show_all_npc: bool,
    pub party_hp_gauge: bool,
}

/// Whether all name tags of a kind show.
pub open spec fn spec_show_all(config: NameTagConfig, name_tag_type: NameTagType) -> bool {
    match name_tag_type {
        NameTagType::Character => config.show_all_character,
        NameTagType::Monster => config.show_all_monster,
        NameTagType::Npc => config.show_all_npc,
    }
}

/// Which parts of a health bar an element of a name tag is.
#[derive(Copy, Clone, Debug, PartialEq, Eq, Structural)]
pub struct HealthBarQuery {
    pub foreground: bool,
    pub background: bool,
}

/// Whether the name tag of an entity shows when it is neither hovered nor selected: all
/// name tags of its kind show, or it is the player's.
pub open spec fn spec_can_show_name_tag(
    player_entity: Option<u64>,
    name_tag_entity: u64,
    name_tag_type: NameTagType,
    config: NameTagConfig,
) -> bool {
    spec_show_all(config, name_tag_type) || player_entity == Some(name_tag_entity)
}

/// Whether the name tag of an entity shows when it is neither hovered nor selected.
pub fn can_show_name_tag(
    player_entity: Option<u64>,
    name_tag_entity: u64,
    name_tag_type: NameTagType,
    config: &NameTagConfig,
) -> (r: bool)
    ensures
        r == spec_can_show_name_tag(player_entity, name_tag_entity, name_tag_type, *config),
{
    let show_all = match name_tag_type {
        NameTagType::Character => config.show_all_character,
        NameTagType::Monster => config.show_all_monster,
        NameTagType::Npc => config.show_all_npc,
    };
    show_all || match player_entity {
        Some(player) => player == name_tag_entity,
        None => false,
    }
}

/// Whether a client entity is a member of the player's party.
pub open spec fn spec_is_party_member(party: Option<Seq<PartyMemberView>>, client_entity_id: Option<usize>) -> bool {
    match party {
        Some(members) => match client_entity_id {
            Some(id) => exists|i: int| 0 <= i < members.len() && #[trigger] members[i].entity_id == Some(id),
            None => false,
        },
        None => false,
    }
}

/// Whether a client entity is a member of the player's party: there is a party, the
/// entity has a client entity id, and a member has that id.
pub fn is_party_member(party_info: Option<&PartyInfo>, name_tag_client_entity: Option<usize>) -> (r: bool)
    ensures
        r == spec_is_party_member(
            match party_info {
                Some(p) => Some(spec_members(p.members@)),
                None => None,
            },
            name_tag_client_entity,
        ),
{
    let party = match party_info {
        None => {
            return false;
        },
        Some(p) => p,
    };
    let id = match name_tag_client_entity {
        None => {
            return false;
        },
        Some(id) => id,
    };
    let ghost members = spec_members(party.members@);
    let mut i: usize = 0;
    while i < party.members.len()
        invariant
            i <= party.members@.len(),
            party_info == Some(party),
            name_tag_client_entity == Some(id),
            members == spec_members(party.members@),
            forall|j: int| 0 <= j < i ==> members[j].entity_id != Some(id),
        decreases party.members.len() - i,
    {
        assert(members[i as int] == party.members@[i as int]@);
        if party.members[i].get_client_entity_id() == Some(id) {
            assert(members[i as int].entity_id == Some(id));
            return true;
        }
        i = i + 1;
    }
    false
}

/// Whether an element of a name tag beyond the name shows (its health bar or target
/// mark). An element that is no part of a health bar shows when the entity is selected.
/// Otherwise it shows for the player's own entity; for a character, when it is a party
/// member and party health bars are on; else when the entity is selected.
pub open spec fn spec_can_show_full_name_tag(
    player_entity: Option<u64>,
    party: Option<Seq<PartyMemberView>>,
    entity: u64,
    client_entity_id: Option<usize>,
    selected: bool,
    name_tag_type: NameTagType,
    healthbar: Option<HealthBarQuery>,
    config: NameTagConfig,
) -> bool {
    if healthbar matches Some(h) && !h.foreground && !h.background {
        selected
    } else if player_entity == Some(entity) {
        true
    } else if name_tag_type == NameTagType::Character {
        spec_is_party_member(party, client_entity_id) && config.party_hp_gauge
    } else {
        selected
    }
}

/// Whether an element of a name tag beyond the name shows (see
/// `spec_can_show_full_name_tag`).
pub fn can_show_full_name_tag(
    player_entity: Option<u64>,
    party_info: Option<&PartyInfo>,
    entity: u64,
    client_entity: Option<usize>,
    selected: bool,
    name_tag_type: NameTagType,
    healthbar: Option<HealthBarQuery>,
    config: &NameTagConfig,
) -> (r: bool)
    ensures
        r == spec_can_show_full_name_tag(
            player_entity,
            match party_info {
                Some(p) => Some(spec_members(p.members@)),
                None => None,
            },
            entity,
            client_entity,
            selected,
            name_tag_type,
            healthbar,
            *config,
        ),
{
    if let Some(healthbar) = healthbar {
        if !healthbar.foreground && !healthbar.background {
            return selected;
        }
    }
    if let Some(player) = player_entity {
        if player == entity {
            return true;
        }
    }
    if name_tag_type == NameTagType::Character {
        return is_party_member(party_info, client_entity) && config.party_hp_gauge;
    }
    selected
}

/// The value paired with the first occurrence of `key` in a table of pairs.
pub open spec fn spec_lookup<X>(pairs: Seq<(u64, X)>, key: u64) -> Option<X>
    decreases pairs.len(),
{
    if pairs.len() == 0 {
        None
    } else if pairs[0].0 == key {
        Some(pairs[0].1)
    } else {
        spec_lookup(pairs.drop_first(), key)
    }
}

/// The value paired with the first occurrence of `key` in a table of pairs.
pub fn lookup<X: Copy>(pairs: &Vec<(u64, X)>, key: u64) -> (r: Option<X>)
    ensures
        r == spec_lookup(pairs@, key),
{
    let mut i: usize = 0;
    assert(pairs@.skip(0) =~= pairs@);
    while i < pairs.len()
        invariant
            i <= pairs@.len(),
            spec_lookup(pairs@, key) == spec_lookup(pairs@.skip(i as int), key),
        decreases pairs.len() - i,
    {
        assert(pairs@.skip(i as int)[0] == pairs@[i as int]);
        if pairs[i].0 == key {
            return Some(pairs[i].1);
        }
        assert(pairs@.skip(i as int).drop_first() =~= pairs@.skip(i + 1));
        i = i + 1;
    }
    None
}

fn contains_entity(entities: &Vec<u64>, entity: u64) -> (r: bool)
    ensures
        r == entities@.contains(entity),
{
    let mut i: usize = 0;
    while i < entities.len()
        invariant
            i <= entities@.len(),
            forall|j: int| 0 <= j < i ==> entities@[j] != entity,
        decreases entities.len() - i,
    {
        if entities[i] == entity {
            assert(entities@[i as int] == entity);
            return true;
        }
        i = i + 1;
    }
    false
}

/// A name tag: its entity, the kind of entity it belongs to, and the elements under it.
#[derive(Debug)]
pub struct NameTag {
    pub entity: u64,
    pub name_tag_type: NameTagType,
    pub children: Vec<u64>,
}

/// What the showing and hiding of name tags looks at in the world: the dead NPCs, the
/// name tag of each entity, the name tags, the client entity id of each entity, the
/// entities that can be shown or hidden, the elements of name tags that only show when
/// selected (target marks and health bars), and which parts of a health bar each
/// element is.
#[derive(Debug)]
pub struct NameTagWorld {
    pub dead_npcs: Vec<u64>,
    pub name_tag_entities: Vec<(u64, u64)>,
    pub name_tags: Vec<NameTag>,
    pub client_entity_ids: Vec<(u64, usize)>,
    pub with_visibility: Vec<u64>,
    pub selected_parts: Vec<u64>,
    pub healthbars: Vec<(u64, HealthBarQuery)>,
}

/// The name tags as a table from entity to kind and elements.
pub open spec fn spec_name_tag_table(tags: Seq<NameTag>) -> Seq<(u64, (NameTagType, Seq<u64>))> {
    tags.map_values(|t: NameTag| (t.entity, (t.name_tag_type, t.children@)))
}

fn find_name_tag(tags: &Vec<NameTag>, entity: u64) -> (r: Option<&NameTag>)
    ensures
        match r {
            Some(t) => spec_lookup(spec_name_tag_table(tags@), entity) == Some(
                (t.name_tag_type, t.children@),
            ),
            None => spec_lookup(spec_name_tag_table(tags@), entity) is None,
        },
{
    let ghost table = spec_name_tag_table(tags@);
    let mut i: usize = 0;
    assert(table.skip(0) =~= table);
    while i < tags.len()
        invariant
            i <= tags@.len(),
            table == spec_name_tag_table(tags@),
            spec_lookup(table, entity) == spec_lookup(table.skip(i as int), entity),
        decreases tags.len() - i,
    {
        assert(table.skip(i as int)[0] == table[i as int]);
        if tags[i].entity == entity {
            return Some(&tags[i]);
        }
        assert(table.skip(i as int).drop_first() =~= table.skip(i + 1));
        i = i + 1;
    }
    None
}

/// Which name tags the showing and hiding last dealt with: the hovered entity and its name
/// tag, and the selected entity and its name tag.
#[derive(Copy, Clone, Debug, PartialEq, Eq, Structural)]
pub struct NameTagVisibility {
    pub hover: Option<u64>,
    pub hover_name_tag: Option<u64>,
    pub selected: Option<u64>,
    pub selected_name_tag: Option<u64>,
}

impl Default for NameTagVisibility {
    fn default() -> (r: Self)
        ensures
            r == (NameTagVisibility {
                hover: None,
                hover_name_tag: None,
                selected: None,
                selected_name_tag: None,
            }),
    {
        NameTagVisibility { hover: None, hover_name_tag: None, selected: None, selected_name_tag: None }
    }
}

/// The entities that the mouse hovers over and that the player has selected.
#[derive(Copy, Clone, Debug, PartialEq, Eq, Structural)]
pub struct SelectedTarget {
    pub hover: Option<u64>,
    pub selected: Option<u64>,
}

/// The name tag of an entity, where there is an entity and it has one.
pub open spec fn spec_tag_of(tags_of: Seq<(u64, u64)>, entity: Option<u64>) -> Option<u64> {
    match entity {
        Some(e) => spec_lookup(tags_of, e),
        None => None,
    }
}

/// A target, unless it is a dead NPC.
pub open spec fn spec_alive_target(dead_npcs: Seq<u64>, entity: Option<u64>) -> Option<u64> {
    match entity {
        Some(e) => if dead_npcs.contains(e) {
            None
        } else {
            Some(e)
        },
        None => None,
    }
}

/// Showing or hiding each element of a name tag, in order: those that can be shown or
/// hidden and, when `only_parts` holds, only show when selected.
pub open spec fn spec_element_changes(
    children: Seq<u64>,
    only_parts: bool,
    player_entity: Option<u64>,
    party: Option<Seq<PartyMemberView>>,
    entity: u64,
    selected: bool,
    name_tag_type: NameTagType,
    world: NameTagWorld,
    config: NameTagConfig,
) -> Seq<(u64, bool)>
    decreases children.len(),
{
    if children.len() == 0 {
        Seq::empty()
    } else {
        let child = children.last();
        spec_element_changes(
            children.drop_last(),
            only_parts,
            player_entity,
            party,
            entity,
            selected,
            name_tag_type,
            world,
            config,
        ) + if (!only_parts || world.selected_parts@.contains(child))
            && world.with_visibility@.contains(child) {
            seq![
                (
                    child,
                    spec_can_show_full_name_tag(
                        player_entity,
                        party,
                        entity,
                        spec_lookup(world.client_entity_ids@, entity),
                        selected,
                        name_tag_type,
                        spec_lookup(world.healthbars@, child),
                        config,
                    ),
                ),
            ]
        } else {
            Seq::empty()
        }
    }
}

/// Giving the name tag of an entity that is no longer hovered the showing it has when
/// not hovered.
pub open spec fn spec_unhover_changes(
    previous: Option<u64>,
    previous_tag: Option<u64>,
    player_entity: Option<u64>,
    world: NameTagWorld,
    config: NameTagConfig,
) -> Seq<(u64, bool)> {
    match (previous, previous_tag) {
        (Some(entity), Some(tag)) => match spec_lookup(spec_name_tag_table(world.name_tags@), tag) {
            Some((name_tag_type, _)) => if world.with_visibility@.contains(tag) {
                seq![(tag, spec_can_show_name_tag(player_entity, entity, name_tag_type, config))]
            } else {
                Seq::empty()
            },
            None => Seq::empty(),
        },
        _ => Seq::empty(),
    }
}

/// Giving the name tag of an entity that is no longer selected the showing it has when
/// not selected, and hiding its elements that only show when selected, unless they show
/// anyway.
pub open spec fn spec_unselect_changes(
    previous: Option<u64>,
    previous_tag: Option<u64>,
    player_entity: Option<u64>,
    party: Option<Seq<PartyMemberView>>,
    world: NameTagWorld,
    config: NameTagConfig,
) -> Seq<(u64, bool)> {
    match (previous, previous_tag) {
        (Some(entity), Some(tag)) => match spec_lookup(spec_name_tag_table(world.name_tags@), tag) {
            Some((name_tag_type, children)) => (if world.with_visibility@.contains(tag) {
                seq![(tag, spec_can_show_name_tag(player_entity, entity, name_tag_type, config))]
            } else {
                Seq::empty()
            }) + spec_element_changes(
                children,
                true,
                player_entity,
                party,
                entity,
                false,
                name_tag_type,
                world,
                config,
            ),
            None => Seq::empty(),
        },
        _ => Seq::empty(),
    }
}

/// Showing the name tag of the selected entity, and each of its elements that shows when
/// the entity is selected.
pub open spec fn spec_select_changes(
    selected: Option<u64>,
    selected_tag: Option<u64>,
    player_entity: Option<u64>,
    party: Option<Seq<PartyMemberView>>,
    world: NameTagWorld,
    config: NameTagConfig,
) -> Seq<(u64, bool)> {
    match (selected, selected_tag) {
        (Some(entity), Some(tag)) => match spec_lookup(spec_name_tag_table(world.name_tags@), tag) {
            Some((name_tag_type, children)) => (if world.with_visibility@.contains(tag) {
                seq![(tag, true)]
            } else {
                Seq::empty()
            }) + spec_element_changes(
                children,
                false,
                player_entity,
                party,
                entity,
                true,
                name_tag_type,
                world,
                config,
            ),
            None => Seq::empty(),
        },
        _ => Seq::empty(),
    }
}

/// One step of showing and hiding name tags: dead NPCs cannot be hovered or selected; the
/// name tag of an entity that is no longer hovered or selected gets back its usual
/// showing; the hovered entity's name tag shows; the selected entity's name tag and
/// elements show as selection asks. Returns the new state, the new targets and, in
/// order, each entity to show (`true`) or hide (`false`).
pub open spec fn spec_name_tag_visibility_step(
    state: NameTagVisibility,
    target: SelectedTarget,
    player_entity: Option<u64>,
    party: Option<Seq<PartyMemberView>>,
    world: NameTagWorld,
    config: NameTagConfig,
) -> (NameTagVisibility, SelectedTarget, Seq<(u64, bool)>) {
    let selected = spec_alive_target(world.dead_npcs@, target.selected);
    let hover = spec_alive_target(world.dead_npcs@, target.hover);
    let hover_tag = spec_tag_of(world.name_tag_entities@, hover);
    let selected_tag = spec_tag_of(world.name_tag_entities@, selected);
    let (state1, unhover) = if state.hover_name_tag != hover_tag {
        (
            NameTagVisibility { hover, hover_name_tag: hover_tag, ..state },
            spec_unhover_changes(state.hover, state.hover_name_tag, player_entity, world, config),
        )
    } else {
        (state, Seq::empty())
    };
    let hovered = match hover_tag {
        Some(tag) => if world.with_visibility@.contains(tag) {
            seq![(tag, true)]
        } else {
            Seq::empty()
        },
        None => Seq::empty(),
    };
    let (state2, unselect) = if state1.selected_name_tag != selected_tag {
        (
            NameTagVisibility { selected, selected_name_tag: selected_tag, ..state1 },
            spec_unselect_changes(
                state1.selected,
                state1.selected_name_tag,
                player_entity,
                party,
                world,
                config,
            ),
        )
    } else {
        (state1, Seq::empty())
    };
    (
        state2,
        SelectedTarget { hover, selected },
        unhover + hovered + unselect + spec_select_changes(
            selected,
            selected_tag,
            player_entity,
            party,
            world,
            config,
        ),
    )
}

fn alive_target(dead_npcs: &Vec<u64>, entity: Option<u64>) -> (r: Option<u64>)
    ensures
        r == spec_alive_target(dead_npcs@, entity),
{
    match entity {
        Some(e) => if contains_entity(dead_npcs, e) {
            None
        } else {
            Some(e)
        },
        None => None,
    }
}

fn tag_of(tags_of: &Vec<(u64, u64)>, entity: Option<u64>) -> (r: Option<u64>)
    ensures
        r == spec_tag_of(tags_of@, entity),
{
    match entity {
        Some(e) => lookup(tags_of, e),
        None => None,
    }
}

fn push_element_changes(
    changes: &mut Vec<(u64, bool)>,
    children: &Vec<u64>,
    only_parts: bool,
    player_entity: Option<u64>,
    party_info: Option<&PartyInfo>,
    entity: u64,
    selected: bool,
    name_tag_type: NameTagType,
    world: &NameTagWorld,
    config: &NameTagConfig,
)
    ensures
        final(changes)@ == old(changes)@ + spec_element_changes(
            children@,
            only_parts,
            player_entity,
            match party_info {
                Some(p) => Some(spec_members(p.members@)),
                None => None,
            },
            entity,
            selected,
            name_tag_type,
            *world,
            *config,
        ),
{
    let ghost party = match party_info {
        Some(p) => Some(spec_members(p.members@)),
        None => None,
    };
    let client_entity = lookup(&world.client_entity_ids, entity);
    let mut i: usize = 0;
    assert(children@.take(0) =~= Seq::<u64>::empty());
    while i < children.len()
        invariant
            i <= children@.len(),
            client_entity == spec_lookup(world.client_entity_ids@, entity),
            party == match party_info {
                Some(p) => Some(spec_members(p.members@)),
                None => None,
            },
            changes@ == old(changes)@ + spec_element_changes(
                children@.take(i as int),
                only_parts,
                player_entity,
                party,
                entity,
                selected,
                name_tag_type,
                *world,
                *config,
            ),
        decreases children.len() - i,
    {
        let child = children[i];
        assert(children@.take(i + 1).drop_last() =~= children@.take(i as int));
        assert(children@.take(i + 1).last() == child);
        let wanted = !only_parts || contains_entity(&world.selected_parts, child);
        if wanted && contains_entity(&world.with_visibility, child) {
            let healthbar = lookup(&world.healthbars, child);
            let show = can_show_full_name_tag(
                player_entity,
                party_info,
                entity,
                client_entity,
                selected,
                name_tag_type,
                healthbar,
                config,
            );
            changes.push((child, show));
        }
        i = i + 1;
        assert(changes@ =~= old(changes)@ + spec_element_changes(
            children@.take(i as int),
            only_parts,
            player_entity,
            party,
            entity,
            selected,
            name_tag_type,
            *world,
            *config,
        ));
    }
    assert(children@.take(children@.len() as int) =~= children@);
}

fn push_unhover_changes(
    changes: &mut Vec<(u64, bool)>,
    previous: Option<u64>,
    previous_tag: Option<u64>,
    player_entity: Option<u64>,
    world: &NameTagWorld,
    config: &NameTagConfig,
)
    ensures
        final(changes)@ == old(changes)@ + spec_unhover_changes(
            previous,
            previous_tag,
            player_entity,
            *world,
            *config,
        ),
{
    match (previous, previous_tag) {
        (Some(entity), Some(tag)) => match find_name_tag(&world.name_tags, tag) {
            Some(name_tag) => {
                if contains_entity(&world.with_visibility, tag) {
                    let show = can_show_name_tag(player_entity, entity, name_tag.name_tag_type, config);
                    changes.push((tag, show));
                } else {
                    assert(changes@ =~= old(changes)@ + Seq::empty());
                }
            },
            None => {
                assert(changes@ =~= old(changes)@ + Seq::empty());
            },
        },
        _ => {
            assert(changes@ =~= old(changes)@ + Seq::empty());
        },
    }
}

fn push_name_tag_changes(
    changes: &mut Vec<(u64, bool)>,
    entity: Option<u64>,
    tag: Option<u64>,
    selecting: bool,
    player_entity: Option<u64>,
    party_info: Option<&PartyInfo>,
    world: &NameTagWorld,
    config: &NameTagConfig,
)
    ensures
        final(changes)@ == old(changes)@ + if selecting {
            spec_select_changes(
                entity,
                tag,
                player_entity,
                match party_info {
                    Some(p) => Some(spec_members(p.members@)),
                    None => None,
                },
                *world,
                *config,
            )
        } else {
            spec_unselect_changes(
                entity,
                tag,
                player_entity,
                match party_info {
                    Some(p) => Some(spec_members(p.members@)),
                    None => None,
                },
                *world,
                *config,
            )
        },
{
    match (entity, tag) {
        (Some(entity), Some(tag)) => match find_name_tag(&world.name_tags, tag) {
            Some(name_tag) => {
                let ghost start = changes@;
                if contains_entity(&world.with_visibility, tag) {
                    let show = if selecting {
                        true
                    } else {
                        can_show_name_tag(player_entity, entity, name_tag.name_tag_type, config)
                    };
                    changes.push((tag, show));
                }
                let ghost middle = changes@;
                push_element_changes(
                    changes,
                    &name_tag.children,
                    !selecting,
                    player_entity,
                    party_info,
                    entity,
                    selecting,
                    name_tag.name_tag_type,
                    world,
                    config,
                );
                assert(changes@ =~= start + (middle.skip(start.len() as int) + changes@.skip(
                    middle.len() as int,
                )));
            },
            None => {
                assert(changes@ =~= old(changes)@ + Seq::empty());
            },
        },
        _ => {
            assert(changes@ =~= old(changes)@ + Seq::empty());
        },
    }
}

/// One step of showing and hiding name tags (see `spec_name_tag_visibility_step`):
/// updates the state and the targets, and returns, in order, each entity to show
/// (`true`) or hide (`false`).
pub fn name_tag_visibility_system(
    state: &mut NameTagVisibility,
    selected_target: &mut SelectedTarget,
    player_entity: Option<u64>,
    party_info: Option<&PartyInfo>,
    world: &NameTagWorld,
    config: &NameTagConfig,
) -> (changes: Vec<(u64, bool)>)
    ensures
        (*final(state), *final(selected_target), changes@) == spec_name_tag_visibility_step(
            *old(state),
            *old(selected_target),
            player_entity,
            match party_info {
                Some(p) => Some(spec_members(p.members@)),
                None => None,
            },
            *world,
            *config,
        ),
{
    let mut changes: Vec<(u64, bool)> = Vec::new();
    selected_target.selected = alive_target(&world.dead_npcs, selected_target.selected);
    selected_target.hover = alive_target(&world.dead_npcs, selected_target.hover);
    let hover_tag = tag_of(&world.name_tag_entities, selected_target.hover);
    let selected_tag = tag_of(&world.name_tag_entities, selected_target.selected);
    if state.hover_name_tag != hover_tag {
        push_unhover_changes(
            &mut changes,
            state.hover,
            state.hover_name_tag,
            player_entity,
            world,
            config,
        );
        state.hover = selected_target.hover;
        state.hover_name_tag = hover_tag;
    }
    let ghost unhover = changes@;
    if let Some(tag) = hover_tag {
        if contains_entity(&world.with_visibility, tag) {
            changes.push((tag, true));
        }
    }
    let ghost hovered = changes@.skip(unhover.len() as int);
    let ghost before_unselect = changes@;
    if state.selected_name_tag != selected_tag {
        push_name_tag_changes(
            &mut changes,
            state.selected,
            state.selected_name_tag,
            false,
            player_entity,
            party_info,
            world,
            config,
        );
        state.selected = selected_target.selected;
        state.selected_name_tag = selected_tag;
    }
    let ghost unselect = changes@.skip(before_unselect.len() as int);
    let ghost before_select = changes@;
    push_name_tag_changes(
        &mut changes,
        selected_target.selected,
        selected_tag,
        true,
        player_entity,
        party_info,
        world,
        config,
    );
    assert(changes@ =~= unhover + hovered + unselect + changes@.skip(before_select.len() as int));
    changes
}

} // verus!
