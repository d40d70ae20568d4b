use vstd::prelude::*;

use crate::random::{choose_from, gen_ratio};
use crate::scripting::functions::CharacterGender;
use crate::text::{chars_text, push_decimal, spec_decimal_chars};

verus! {

/// The equipment slots of a character.
#[derive(Copy, Clone, Debug, PartialEq, Eq, Structural)]
pub enum EquipmentIndex {
    Face,
    Head,
    Body,
    Hands,
    Feet,
    Back,
    Weapon,
    SubWeapon,
    Necklace,
    Ring,
    Earring,
}

/// An item of the game data: its type, as the game data numbers types, and its number.
#[derive(Copy, Clone, Debug, PartialEq, Eq, Structural)]
pub struct ItemReference {
    pub item_type: u8,
    pub item_number: usize,
}

/// An item a bot wears: the item, whether it has a socket, and the gem in it (0 for none).
#[derive(Copy, Clone, Debug, PartialEq, Eq, Structural)]
pub struct BotEquipmentItem {
    pub item: ItemReference,
    pub has_socket: bool,
    pub gem: u16,
}

/// The state of the model viewer: the items each slot may show and the gems, the NPC
/// models shown and how many are wanted (of at most how many), the bots shown and how many
/// are wanted (of at most how many).
#[derive(Debug)]
pub struct ModelViewerState {
    pub valid_items: Vec<(EquipmentIndex, Vec<ItemReference>)>,
    pub valid_gems: Vec<ItemReference>,
    pub npcs: Vec<u64>,
    pub num_npcs: usize,
    pub max_num_npcs: usize,
    pub characters: Vec<u64>,
    pub num_characters: usize,
    pub max_num_characters: usize,
}

/// How many bots the model viewer offers at most.
pub const MAX_BOTS: usize = 500;

/// NPC models stand in columns of this many.
pub const NPCS_PER_COLUMN: usize = 30;

/// Bots stand in columns of this many.
pub const BOTS_PER_COLUMN: usize = 25;

impl ModelViewerState {
    /// The state on entering the model viewer: one NPC and one bot wanted, up to the
    /// number of NPCs of the game data and up to 500 bots.
    pub fn new(
        valid_items: Vec<(EquipmentIndex, Vec<ItemReference>)>,
        valid_gems: Vec<ItemReference>,
        npc_count: usize,
    ) -> (r: Self)
        ensures
            r.valid_items@ == valid_items@,
            r.valid_gems@ == valid_gems@,
            r.npcs@.len() == 0,
            r.num_npcs == 1,
            r.max_num_npcs == npc_count,
            r.characters@.len() == 0,
            r.num_characters == 1,
            r.max_num_characters == MAX_BOTS,
    {
        ModelViewerState {
            valid_items,
            valid_gems,
            npcs: Vec::new(),
            num_npcs: 1,
            max_num_npcs: npc_count,
            characters: Vec::new(),
            num_characters: 1,
            max_num_characters: MAX_BOTS,
        }
    }
}

/// What to do to match the models shown to the number wanted: remove those past it,
/// spawn the missing ones (counted from one number up to another), or nothing.
#[derive(Debug, PartialEq, Eq)]
pub enum PopulationChange {
    Despawn(Vec<u64>),
    Spawn { from: usize, to: usize },
    Keep,
}

/// Matches the models shown to the number wanted: those past it are taken out and handed
/// back to be despawned, in order; where too few are shown, the numbers of those to spawn
/// are handed back.
pub fn population_change(shown: &mut Vec<u64>, wanted: usize) -> (r: PopulationChange)
    ensures
        wanted < old(shown)@.len() ==> (r matches PopulationChange::Despawn(removed) && removed@
            == old(shown)@.skip(wanted as int) && final(shown)@ == old(shown)@.take(wanted as int)),
        wanted > old(shown)@.len() ==> (r matches PopulationChange::Spawn { from, to } && from
            == old(shown)@.len() && to == wanted && final(shown)@ == old(shown)@),
        wanted == old(shown)@.len() ==> r is Keep && final(shown)@ == old(shown)@,
{
    let len = shown.len();
    if wanted < len {
        let removed = shown.split_off(wanted);
        PopulationChange::Despawn(removed)
    } else if wanted > len {
        PopulationChange::Spawn { from: len, to: wanted }
    } else {
        PopulationChange::Keep
    }
}

/// The column and row an NPC model stands in, by its number.
pub fn npc_grid_slot(count: usize) -> (r: (usize, usize))
    ensures
        r == (count / NPCS_PER_COLUMN, count % NPCS_PER_COLUMN),
{
    (count / NPCS_PER_COLUMN, count % NPCS_PER_COLUMN)
}

/// The column and row a bot stands in, by its number.
pub fn bot_grid_slot(count: usize) -> (r: (usize, usize))
    ensures
        r == (count / BOTS_PER_COLUMN, count % BOTS_PER_COLUMN),
{
    (count / BOTS_PER_COLUMN, count % BOTS_PER_COLUMN)
}

/// The name of a bot: `Bot ` and its number.
pub fn bot_name(count: usize) -> (r: String)
    ensures
        r@ == seq!['B', 'o', 't', ' '] + spec_decimal_chars(count as nat),
{
    let mut chars: Vec<char> = vec!['B', 'o', 't', ' '];
    push_decimal(&mut chars, count as u64);
    assert(chars@ =~= seq!['B', 'o', 't', ' '] + spec_decimal_chars(count as nat));
    chars_text(&chars)
}

/// The faces a bot may have.
pub open spec fn spec_bot_faces() -> Seq<u8> {
    seq![1u8, 8, 15, 22, 29, 36, 43]
}

/// The hair styles a bot may have.
pub open spec fn spec_bot_hair() -> Seq<u8> {
    seq![0u8, 5, 10, 15, 20]
}

/// The look of a new bot, picked at random: gender, face and hair.
pub fn bot_appearance() -> (r: (CharacterGender, u8, u8))
    ensures
        spec_bot_faces().contains(r.1),
        spec_bot_hair().contains(r.2),
{
    let genders: [CharacterGender; 2] = [CharacterGender::Male, CharacterGender::Female];
    let faces: [u8; 7] = [1, 8, 15, 22, 29, 36, 43];
    let hair: [u8; 5] = [0, 5, 10, 15, 20];
    assert(faces@ =~= spec_bot_faces());
    assert(hair@ =~= spec_bot_hair());
    let gender = match choose_from(&genders) {
        Some(g) => g,
        None => CharacterGender::Male,
    };
    let face = match choose_from(&faces) {
        Some(f) => f,
        None => 1,
    };
    let hair_style = match choose_from(&hair) {
        Some(h) => h,
        None => 0,
    };
    (gender, face, hair_style)
}

/// Whether a slot holds a weapon, which may carry a gem.
pub open spec fn spec_is_weapon_slot(slot: EquipmentIndex) -> bool {
    slot == EquipmentIndex::Weapon || slot == EquipmentIndex::SubWeapon
}

/// What holds of any item picked for a slot: it is one of the slot's items; it has a
/// socket only in a weapon slot, with one of the gems in it; else no gem.
pub open spec fn spec_bot_item_ok(
    slot: EquipmentIndex,
    items: Seq<ItemReference>,
    gems: Seq<ItemReference>,
    e: BotEquipmentItem,
) -> bool {
    &&& items.contains(e.item)
    &&& e.has_socket ==> spec_is_weapon_slot(slot) && exists|i: int|
        0 <= i < gems.len() && e.gem == (#[trigger] gems[i]).item_number as u16
    &&& !e.has_socket ==> e.gem == 0
}

fn bot_item(slot: EquipmentIndex, items: &Vec<ItemReference>, gems: &Vec<ItemReference>) -> (r: Option<BotEquipmentItem>)
    ensures
        r is None <==> items@.len() == 0,
        r matches Some(e) ==> spec_bot_item_ok(slot, items@, gems@, e),
{
    match choose_from(items.as_slice()) {
        Some(item) => {
            let mut e = BotEquipmentItem { item, has_socket: false, gem: 0 };
            let weapon = match slot {
                EquipmentIndex::Weapon | EquipmentIndex::SubWeapon => true,
                _ => false,
            };
            if weapon && gen_ratio(2, 3) {
                if let Some(gem) = choose_from(gems.as_slice()) {
                    e.has_socket = true;
                    e.gem = gem.item_number as u16;
                    proof {
                        let i = choose|i: int| 0 <= i < gems@.len() && gems@[i] == gem;
                        assert(e.gem == gems@[i].item_number as u16);
                    }
                }
            }
            Some(e)
        },
        None => None,
    }
}

/// The equipment of a new bot, slot by slot in the order of `valid_items`, picked at
/// random: a slot with items gets one of them (a weapon one with a gem in a socket, two
/// times in three where there are gems); a slot without gets nothing.
pub fn bot_equipment(valid_items: &Vec<(EquipmentIndex, Vec<ItemReference>)>, valid_gems: &Vec<ItemReference>) -> (r: Vec<Option<BotEquipmentItem>>)
    ensures
        r@.len() == valid_items@.len(),
        forall|i: int|
            0 <= i < r@.len() ==> ((#[trigger] r@[i]) is None <==> valid_items@[i].1@.len() == 0),
        forall|i: int|
            0 <= i < r@.len() ==> (#[trigger] r@[i] matches Some(e) ==> spec_bot_item_ok(
                valid_items@[i].0,
                valid_items@[i].1@,
                valid_gems@,
                e,
            )),
{
    let mut r: Vec<Option<BotEquipmentItem>> = Vec::new();
    let mut i: usize = 0;
    while i < valid_items.len()
        invariant
            i <= valid_items@.len(),
            r@.len() == i,
            forall|j: int| 0 <= j < i ==> ((#[trigger] r@[j]) is None <==> valid_items@[j].1@.len() == 0),
            forall|j: int|
                0 <= j < i ==> (#[trigger] r@[j] matches Some(e) ==> spec_bot_item_ok(
                    valid_items@[j].0,
                    valid_items@[j].1@,
                    valid_gems@,
                    e,
                )),
        decreases valid_items.len() - i,
    {
        let e = bot_item(valid_items[i].0, &valid_items[i].1, valid_gems);
        r.push(e);
        i = i + 1;
    }
    r
}

/// With a two-handed weapon, a bot holds no sub weapon: the sub weapon slots are emptied
/// where the weapon is two-handed; nothing changes otherwise.
pub fn drop_sub_weapon(slots: &Vec<(EquipmentIndex, Vec<ItemReference>)>, equipment: &mut Vec<Option<BotEquipmentItem>>, weapon_two_handed: bool)
    requires
        old(equipment)@.len() == slots@.len(),
    ensures
        final(equipment)@.len() == old(equipment)@.len(),
        forall|i: int|
            0 <= i < final(equipment)@.len() ==> #[trigger] final(equipment)@[i] == if weapon_two_handed
                && slots@[i].0 == EquipmentIndex::SubWeapon {
                None
            } else {
                old(equipment)@[i]
            },
{
    if !weapon_two_handed {
        return;
    }
    let mut i: usize = 0;
    while i < equipment.len()
        invariant
            i <= equipment@.len(),
            equipment@.len() == old(equipment)@.len(),
            equipment@.len() == slots@.len(),
            weapon_two_handed,
            forall|j: int|
                0 <= j < equipment@.len() ==> #[trigger] equipment@[j] == if j < i && slots@[j].0
                    == EquipmentIndex::SubWeapon {
                    None
                } else {
                    old(equipment)@[j]
                },
        decreases equipment.len() - i,
    {
        if slots[i].0 == EquipmentIndex::SubWeapon {
            equipment.set(i, None);
        }
        i = i + 1;
    }
}

} // verus!
