use vstd::prelude::*;

use crate::text::{chars_text, push_text};

verus! {

/// Who leads the party: not known yet, the player, or the character with this id.
#[derive(Copy, Clone, Debug, PartialEq, Eq, Structural)]
pub enum PartyOwner {
    Unknown,
    Player,
    Character(u32),
}

/// How a party shares the items it loots.
#[derive(Copy, Clone, Debug, PartialEq, Eq, Structural)]
pub enum PartyItemSharing {
    EqualLootDistribution,
    AcquisitionOrder,
}

/// How a party shares the experience points it earns.
#[derive(Copy, Clone, Debug, PartialEq, Eq, Structural)]
pub enum PartyXpSharing {
    EqualShare,
    DistributedByLevel,
}

/// A party member who is online: its character id, name, and client entity id.
#[derive(Debug)]
pub struct PartyMemberInfoOnline {
    pub character_id: u32,
    pub name: String,
    pub entity_id: usize,
}

/// A party member, online or not.
#[derive(Debug)]
pub enum PartyMemberInfo {
    Online(PartyMemberInfoOnline),
    Offline { character_id: u32, name: String },
}

/// A party member as plain values: its character id, its name, and its client entity id
/// when it is online.
pub struct PartyMemberView {
    pub character_id: u32,
    pub name: Seq<char>,
    pub entity_id: Option<usize>,
}

impl View for PartyMemberInfo {
    type V = PartyMemberView;

    open spec fn view(&self) -> PartyMemberView {
        match self {
            PartyMemberInfo::Online(m) => PartyMemberView {
                character_id: m.character_id,
                name: m.name@,
                entity_id: Some(m.entity_id),
            },
            PartyMemberInfo::Offline { character_id, name } => PartyMemberView {
                character_id: *character_id,
                name: name@,
                entity_id: None,
            },
        }
    }
}

impl PartyMemberInfo {
    /// The member's character id.
    pub fn get_character_id(&self) -> (r: u32)
        ensures
            r == self@.character_id,
    {
        match self {
            PartyMemberInfo::Online(m) => m.character_id,
            PartyMemberInfo::Offline { character_id, .. } => *character_id,
        }
    }

    /// The member's name.
    pub fn get_name(&self) -> (r: &String)
        ensures
            r@ == self@.name,
    {
        match self {
            PartyMemberInfo::Online(m) => &m.name,
            PartyMemberInfo::Offline { name, .. } => name,
        }
    }

    /// The member's client entity id, when it is online.
    pub fn get_client_entity_id(&self) -> (r: Option<usize>)
        ensures
            r == self@.entity_id,
    {
        match self {
            PartyMemberInfo::Online(m) => Some(m.entity_id),
            PartyMemberInfo::Offline { .. } => None,
        }
    }
}

/// The party of the player: who leads it, its members, and its sharing rules.
#[derive(Debug)]
pub struct PartyInfo {
    pub owner: PartyOwner,
    pub members: Vec<PartyMemberInfo>,
    pub item_sharing: PartyItemSharing,
    pub xp_sharing: PartyXpSharing,
}

/// Members as plain values.
pub open spec fn spec_members(members: Seq<PartyMemberInfo>) -> Seq<PartyMemberView> {
    members.map_values(|m: PartyMemberInfo| m@)
}

/// The index of the first member with a character id.
pub open spec fn spec_member_index(members: Seq<PartyMemberView>, character_id: u32) -> Option<int>
    decreases members.len(),
{
    if members.len() == 0 {
        None
    } else if members[0].character_id == character_id {
        Some(0)
    } else {
        match spec_member_index(members.drop_first(), character_id) {
            Some(i) => Some(i + 1),
            None => None,
        }
    }
}

/// The first member with a character id is at the index found, and no member before it
/// has that id; without an index, no member has it.
pub proof fn lemma_member_index(members: Seq<PartyMemberView>, character_id: u32)
    ensures
        match spec_member_index(members, character_id) {
            Some(i) => 0 <= i < members.len() && members[i].character_id == character_id
                && forall|j: int| 0 <= j < i ==> members[j].character_id != character_id,
            None => forall|j: int| 0 <= j < members.len() ==> members[j].character_id != character_id,
        },
    decreases members.len(),
{
    if members.len() > 0 && members[0].character_id != character_id {
        let rest = members.drop_first();
        lemma_member_index(rest, character_id);
        match spec_member_index(rest, character_id) {
            Some(i) => {
                assert forall|j: int| 0 <= j < i + 1 implies members[j].character_id != character_id by {
                    if j > 0 {
                        assert(members[j] == rest[j - 1]);
                    }
                }
            },
            None => {
                assert forall|j: int| 0 <= j < members.len() implies members[j].character_id
                    != character_id by {
                    if j > 0 {
                        assert(members[j] == rest[j - 1]);
                    }
                }
            },
        }
    }
}

fn member_index(members: &Vec<PartyMemberInfo>, character_id: u32) -> (r: Option<usize>)
    ensures
        match r {
            Some(i) => spec_member_index(spec_members(members@), character_id) == Some(i as int),
            None => spec_member_index(spec_members(members@), character_id) is None,
        },
{
    let ghost all = spec_members(members@);
    let mut i: usize = 0;
    while i < members.len()
        invariant
            i <= members@.len(),
            all == spec_members(members@),
            forall|j: int| 0 <= j < i ==> all[j].character_id != character_id,
        decreases members.len() - i,
    {
        assert(all[i as int] == members@[i as int]@);
        if members[i].get_character_id() == character_id {
            proof {
                lemma_member_index(all, character_id);
                match spec_member_index(all, character_id) {
                    Some(k) => {
                        if k < i {
                        } else if k > i {
                        }
                    },
                    None => {
                        assert(all[i as int].character_id == character_id);
                    },
                }
            }
            return Some(i);
        }
        i = i + 1;
    }
    proof {
        lemma_member_index(all, character_id);
        match spec_member_index(all, character_id) {
            Some(k) => {
                assert(all[k].character_id != character_id);
            },
            None => {},
        }
    }
    None
}

/// The chat message that `name` is followed by `suffix` in.
pub fn name_message(name: &str, suffix: &str) -> (r: String)
    ensures
        r@ == name@ + suffix@,
{
    let mut out: Vec<char> = Vec::new();
    push_text(&mut out, name);
    push_text(&mut out, suffix);
    assert(out@ =~= name@ + suffix@);
    chars_text(&out)
}

/// A member with a character id removed: the first one that has it.
pub open spec fn spec_remove_member(members: Seq<PartyMemberView>, character_id: u32) -> Seq<PartyMemberView> {
    match spec_member_index(members, character_id) {
        Some(i) => members.remove(i),
        None => members,
    }
}

/// Whether no two members have the same character id.
pub open spec fn spec_unique_members(members: Seq<PartyMemberView>) -> bool {
    forall|i: int, j: int|
        0 <= i < members.len() && 0 <= j < members.len() && i != j ==> members[i].character_id
            != members[j].character_id
}

impl PartyInfo {
    /// A new party with no members.
    pub fn new(owner: PartyOwner, item_sharing: PartyItemSharing, xp_sharing: PartyXpSharing) -> (r: Self)
        ensures
            r.owner == owner,
            r.members@.len() == 0,
            r.item_sharing == item_sharing,
            r.xp_sharing == xp_sharing,
    {
        PartyInfo { owner, members: Vec::new(), item_sharing, xp_sharing }
    }

    /// The list of members the server sends: they join the party (after those it has),
    /// the first of them leads it where its leader is not known, and for each a message
    /// says that the member has joined, in order. The messages are kept in a list that
    /// holds ten.
    pub fn add_members(&mut self, members: Vec<PartyMemberInfo>) -> (messages: Vec<String>)
        requires
            members@.len() <= 10,
            old(self).owner == PartyOwner::Unknown ==> members@.len() > 0,
        ensures
            final(self).owner == if old(self).owner == PartyOwner::Unknown {
                PartyOwner::Character(members@[0]@.character_id)
            } else {
                old(self).owner
            },
            spec_members(final(self).members@) == spec_members(old(self).members@) + spec_members(
                members@,
            ),
            final(self).item_sharing == old(self).item_sharing,
            final(self).xp_sharing == old(self).xp_sharing,
            messages@.len() == members@.len(),
            forall|i: int|
                0 <= i < members@.len() ==> #[trigger] messages@[i]@ == members@[i]@.name
                    + " has joined the party."@,
    {
        if self.owner == PartyOwner::Unknown {
            self.owner = PartyOwner::Character(members[0].get_character_id());
        }
        let mut messages: Vec<String> = Vec::new();
        let mut i: usize = 0;
        while i < members.len()
            invariant
                i <= members@.len(),
                messages@.len() == i,
                forall|k: int|
                    0 <= k < i ==> #[trigger] messages@[k]@ == members@[k]@.name
                        + " has joined the party."@,
            decreases members.len() - i,
        {
            let message = name_message(members[i].get_name().as_str(), " has joined the party.");
            messages.push(message);
            i = i + 1;
        }
        let ghost before = spec_members(self.members@);
        let mut members = members;
        let ghost added = spec_members(members@);
        self.members.append(&mut members);
        assert(spec_members(self.members@) =~= before + added);
        messages
    }

    /// A member leaves: the party is led by the player where the new leader's id is the
    /// player's, else by the character with that id; the first member with the leaver's
    /// id goes, and a message says that it has left.
    pub fn member_leave(&mut self, player_unique_id: Option<u32>, leaver_character_id: u32, owner_character_id: u32) -> (message: Option<String>)
        ensures
            final(self).owner == if player_unique_id == Some(owner_character_id) {
                PartyOwner::Player
            } else {
                PartyOwner::Character(owner_character_id)
            },
            spec_members(final(self).members@) == spec_remove_member(
                spec_members(old(self).members@),
                leaver_character_id,
            ),
            final(self).item_sharing == old(self).item_sharing,
            final(self).xp_sharing == old(self).xp_sharing,
            match spec_member_index(spec_members(old(self).members@), leaver_character_id) {
                Some(i) => message matches Some(m) && m@ == spec_members(old(self).members@)[i].name
                    + " has left the party."@,
                None => message is None,
            },
    {
        self.owner = if player_unique_id == Some(owner_character_id) {
            PartyOwner::Player
        } else {
            PartyOwner::Character(owner_character_id)
        };
        self.remove_member(leaver_character_id, " has left the party.")
    }

    /// A member is kicked: the first member with its id goes, and a message says so.
    pub fn member_kicked(&mut self, character_id: u32) -> (message: Option<String>)
        ensures
            final(self).owner == old(self).owner,
            spec_members(final(self).members@) == spec_remove_member(
                spec_members(old(self).members@),
                character_id,
            ),
            final(self).item_sharing == old(self).item_sharing,
            final(self).xp_sharing == old(self).xp_sharing,
            match spec_member_index(spec_members(old(self).members@), character_id) {
                Some(i) => message matches Some(m) && m@ == spec_members(old(self).members@)[i].name
                    + " has been kicked from the party."@,
                None => message is None,
            },
    {
        self.remove_member(character_id, " has been kicked from the party.")
    }

    fn remove_member(&mut self, character_id: u32, suffix: &str) -> (message: Option<String>)
        ensures
            final(self).owner == old(self).owner,
            spec_members(final(self).members@) == spec_remove_member(
                spec_members(old(self).members@),
                character_id,
            ),
            final(self).item_sharing == old(self).item_sharing,
            final(self).xp_sharing == old(self).xp_sharing,
            match spec_member_index(spec_members(old(self).members@), character_id) {
                Some(i) => message matches Some(m) && m@ == spec_members(old(self).members@)[i].name
                    + suffix@,
                None => message is None,
            },
    {
        match member_index(&self.members, character_id) {
            Some(index) => {
                proof {
                    lemma_member_index(spec_members(self.members@), character_id);
                }
                let message = name_message(self.members[index].get_name().as_str(), suffix);
                let ghost before = spec_members(self.members@);
                self.members.remove(index);
                assert(spec_members(self.members@) =~= before.remove(index as int));
                Some(message)
            },
            None => None,
        }
    }

    /// A member disconnects: the first member with its id, where it is online, becomes an
    /// offline member with the same id and name, and a message says that it has
    /// disconnected.
    pub fn member_disconnect(&mut self, character_id: u32) -> (message: Option<String>)
        ensures
            final(self).owner == old(self).owner,
            final(self).item_sharing == old(self).item_sharing,
            final(self).xp_sharing == old(self).xp_sharing,
            match spec_member_index(spec_members(old(self).members@), character_id) {
                Some(i) => {
                    let member = spec_members(old(self).members@)[i];
                    if member.entity_id is Some {
                        &&& spec_members(final(self).members@) == spec_members(
                            old(self).members@,
                        ).update(i, PartyMemberView { entity_id: None, ..member })
                        &&& message matches Some(m) && m@ == member.name + " has disconnected."@
                    } else {
                        &&& spec_members(final(self).members@) == spec_members(old(self).members@)
                        &&& message is None
                    }
                },
                None => spec_members(final(self).members@) == spec_members(old(self).members@)
                    && message is None,
            },
    {
        match member_index(&self.members, character_id) {
            Some(index) => {
                proof {
                    lemma_member_index(spec_members(self.members@), character_id);
                }
                let online = self.members[index].get_client_entity_id().is_some();
                if online {
                    let name = self.members[index].get_name().clone();
                    let message = name_message(name.as_str(), " has disconnected.");
                    let ghost before = spec_members(self.members@);
                    let offline = PartyMemberInfo::Offline { character_id, name };
                    self.members.set(index, offline);
                    assert(spec_members(self.members@) =~= before.update(
                        index as int,
                        PartyMemberView { entity_id: None, ..before[index as int] },
                    ));
                    Some(message)
                } else {
                    None
                }
            },
            None => None,
        }
    }

    /// New information of an online member: it replaces the first member with its id.
    pub fn update_member_info(&mut self, member_info: PartyMemberInfoOnline)
        ensures
            final(self).owner == old(self).owner,
            final(self).item_sharing == old(self).item_sharing,
            final(self).xp_sharing == old(self).xp_sharing,
            spec_members(final(self).members@) == match spec_member_index(
                spec_members(old(self).members@),
                member_info.character_id,
            ) {
                Some(i) => spec_members(old(self).members@).update(
                    i,
                    PartyMemberView {
                        character_id: member_info.character_id,
                        name: member_info.name@,
                        entity_id: Some(member_info.entity_id),
                    },
                ),
                None => spec_members(old(self).members@),
            },
    {
        match member_index(&self.members, member_info.character_id) {
            Some(index) => {
                proof {
                    lemma_member_index(spec_members(self.members@), member_info.character_id);
                }
                let ghost before = spec_members(self.members@);
                let ghost replacement = PartyMemberView {
                    character_id: member_info.character_id,
                    name: member_info.name@,
                    entity_id: Some(member_info.entity_id),
                };
                self.members.set(index, PartyMemberInfo::Online(member_info));
                assert(spec_members(self.members@) =~= before.update(index as int, replacement));
            },
            None => {},
        }
    }

    /// The leader changes to the client entity `entity_id`. Where that is the player, the
    /// player leads and a message names the player (when its name is known). Otherwise the
    /// first online member with that client entity id leads, with a message naming it; with
    /// no such member the leader is not known.
    pub fn change_owner(&mut self, is_player_owner: bool, entity_id: usize, player_name: Option<&String>) -> (message: Option<String>)
        ensures
            final(self).item_sharing == old(self).item_sharing,
            final(self).xp_sharing == old(self).xp_sharing,
            spec_members(final(self).members@) == spec_members(old(self).members@),
            is_player_owner ==> final(self).owner == PartyOwner::Player && match player_name {
                Some(n) => message matches Some(m) && m@ == n@ + " is now leader of the party."@,
                None => message is None,
            },
            !is_player_owner ==> match spec_online_index(
                spec_members(old(self).members@),
                entity_id,
            ) {
                Some(i) => {
                    let member = spec_members(old(self).members@)[i];
                    &&& final(self).owner == PartyOwner::Character(member.character_id)
                    &&& message matches Some(m) && m@ == member.name
                        + " is now leader of the party."@
                },
                None => final(self).owner == PartyOwner::Unknown && message is None,
            },
    {
        if is_player_owner {
            self.owner = PartyOwner::Player;
            return match player_name {
                Some(name) => Some(name_message(name.as_str(), " is now leader of the party.")),
                None => None,
            };
        }
        self.owner = PartyOwner::Unknown;
        let ghost all = spec_members(self.members@);
        let mut i: usize = 0;
        assert(all.skip(0) =~= all);
        while i < self.members.len()
            invariant
                !is_player_owner,
                i <= self.members@.len(),
                all == spec_members(self.members@),
                spec_online_index(all, entity_id) == match spec_online_index(
                    all.skip(i as int),
                    entity_id,
                ) {
                    Some(k) => Some(k + i),
                    None => None,
                },
                self.owner == PartyOwner::Unknown,
                self.item_sharing == old(self).item_sharing,
                self.xp_sharing == old(self).xp_sharing,
                all == spec_members(old(self).members@),
            decreases self.members.len() - i,
        {
            assert(all.skip(i as int)[0] == all[i as int]);
            assert(all[i as int] == self.members@[i as int]@);
            if self.members[i].get_client_entity_id() == Some(entity_id) {
                let character_id = self.members[i].get_character_id();
                let message = name_message(
                    self.members[i].get_name().as_str(),
                    " is now leader of the party.",
                );
                self.owner = PartyOwner::Character(character_id);
                return Some(message);
            }
            assert(all.skip(i as int).drop_first() =~= all.skip(i + 1));
            i = i + 1;
        }
        None
    }

    /// The rules change: the party takes them, and messages say that they have changed and
    /// what they now are.
    pub fn update_rules(&mut self, item_sharing: PartyItemSharing, xp_sharing: PartyXpSharing) -> (messages: Vec<String>)
        ensures
            final(self).owner == old(self).owner,
            spec_members(final(self).members@) == spec_members(old(self).members@),
            final(self).item_sharing == item_sharing,
            final(self).xp_sharing == xp_sharing,
            messages@.len() == 3,
            messages@[0]@ == "Party rules have changed."@,
            messages@[1]@ == "Experience points sharing: "@ + match xp_sharing {
                PartyXpSharing::EqualShare => "Equal Share"@,
                PartyXpSharing::DistributedByLevel => "Distributed by Level"@,
            } + "."@,
            messages@[2]@ == "Item sharing: "@ + match item_sharing {
                PartyItemSharing::EqualLootDistribution => "Equal Loot Distribution"@,
                PartyItemSharing::AcquisitionOrder => "Acquisition Order"@,
            } + "."@,
    {
        self.item_sharing = item_sharing;
        self.xp_sharing = xp_sharing;
        let mut messages: Vec<String> = Vec::new();
        messages.push("Party rules have changed.".to_owned());
        let xp_name = match xp_sharing {
            PartyXpSharing::EqualShare => "Equal Share",
            PartyXpSharing::DistributedByLevel => "Distributed by Level",
        };
        let mut xp_message: Vec<char> = Vec::new();
        push_text(&mut xp_message, "Experience points sharing: ");
        push_text(&mut xp_message, xp_name);
        push_text(&mut xp_message, ".");
        messages.push(chars_text(&xp_message));
        let item_name = match item_sharing {
            PartyItemSharing::EqualLootDistribution => "Equal Loot Distribution",
            PartyItemSharing::AcquisitionOrder => "Acquisition Order",
        };
        let mut item_message: Vec<char> = Vec::new();
        push_text(&mut item_message, "Item sharing: ");
        push_text(&mut item_message, item_name);
        push_text(&mut item_message, ".");
        messages.push(chars_text(&item_message));
        messages
    }
}

/// The index of the first online member with a client entity id.
pub open spec fn spec_online_index(members: Seq<PartyMemberView>, entity_id: usize) -> Option<int>
    decreases members.len(),
{
    if members.len() == 0 {
        None
    } else if members[0].entity_id == Some(entity_id) {
        Some(0)
    } else {
        match spec_online_index(members.drop_first(), entity_id) {
            Some(i) => Some(i + 1),
            None => None,
        }
    }
}

} // verus!
