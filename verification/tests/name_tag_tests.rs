use rose_offline_client::party::{PartyInfo, PartyItemSharing, PartyMemberInfo, PartyMemberInfoOnline, PartyOwner, PartyXpSharing};
use rose_offline_client::systems::name_tag_system::{
    copy_glyph, get_name_tag_type, name_color, name_tag_texture_size, next_power_of_two, outline_text,
    split_npc_name, GlyphCopy,
};
use rose_offline_client::systems::name_tag_visibility_system::{
    can_show_full_name_tag, can_show_name_tag, is_party_member, name_tag_visibility_system,
    HealthBarQuery, NameTag, NameTagConfig, NameTagType, NameTagVisibility, NameTagWorld,
    SelectedTarget,
};

fn config() -> NameTagConfig {
    NameTagConfig { show_all_character: true, show_all_monster: false, show_all_npc: true, party_hp_gauge: true }
}

fn party() -> PartyInfo {
    let mut p = PartyInfo::new(PartyOwner::Player, PartyItemSharing::AcquisitionOrder, PartyXpSharing::EqualShare);
    p.members.push(PartyMemberInfo::Online(PartyMemberInfoOnline { character_id: 1, name: "Ann".to_string(), entity_id: 30 }));
    p.members.push(PartyMemberInfo::Offline { character_id: 2, name: "Bob".to_string() });
    p
}

#[test]
fn name_tag_shows_by_settings_or_for_player() {
    assert!(can_show_name_tag(None, 5, NameTagType::Character, &config()));
    assert!(!can_show_name_tag(None, 5, NameTagType::Monster, &config()));
    assert!(can_show_name_tag(Some(5), 5, NameTagType::Monster, &config()));
}

#[test]
fn party_membership_by_client_entity() {
    let p = party();
    assert!(is_party_member(Some(&p), Some(30)));
    assert!(!is_party_member(Some(&p), Some(31)));
    assert!(!is_party_member(None, Some(30)));
    assert!(!is_party_member(Some(&p), None));
}

#[test]
fn full_name_tag_rules() {
    let p = party();
    let plain = Some(HealthBarQuery { foreground: false, background: false });
    let bar = Some(HealthBarQuery { foreground: true, background: false });
    // elements that are no part of a health bar show when selected
    assert!(can_show_full_name_tag(None, Some(&p), 9, Some(30), true, NameTagType::Character, plain, &config()));
    assert!(!can_show_full_name_tag(None, Some(&p), 9, Some(30), false, NameTagType::Character, plain, &config()));
    // the player's own health bar shows
    assert!(can_show_full_name_tag(Some(9), None, 9, None, false, NameTagType::Monster, bar, &config()));
    // a party member's health bar shows with the setting on
    assert!(can_show_full_name_tag(None, Some(&p), 9, Some(30), false, NameTagType::Character, bar, &config()));
    // a monster's health bar shows when selected
    assert!(!can_show_full_name_tag(None, None, 9, None, false, NameTagType::Monster, bar, &config()));
}

#[test]
fn visibility_step_hides_previous_and_shows_selected() {
    let world = NameTagWorld {
        dead_npcs: vec![50],
        name_tag_entities: vec![(10, 110), (20, 120), (50, 150)],
        name_tags: vec![
            NameTag { entity: 110, name_tag_type: NameTagType::Monster, children: vec![111, 112] },
            NameTag { entity: 120, name_tag_type: NameTagType::Monster, children: vec![121] },
        ],
        client_entity_ids: vec![],
        with_visibility: vec![110, 111, 112, 120, 121],
        selected_parts: vec![111, 121],
        healthbars: vec![(111, HealthBarQuery { foreground: true, background: false })],
    };
    let mut state = NameTagVisibility { hover: None, hover_name_tag: None, selected: Some(10), selected_name_tag: Some(110) };
    let mut target = SelectedTarget { hover: Some(50), selected: Some(20) };
    let changes = name_tag_visibility_system(&mut state, &mut target, None, None, &world, &config());
    // dead NPCs cannot be hovered
    assert_eq!(target.hover, None);
    assert_eq!(state.selected, Some(20));
    assert_eq!(state.selected_name_tag, Some(120));
    // 110 goes back to its usual showing (monsters hidden), 111 its health bar hides,
    // then 120 and its element show
    assert_eq!(changes, vec![(110, false), (111, false), (120, true), (121, true)]);
}

#[test]
fn npc_name_tag_kinds() {
    assert_eq!(get_name_tag_type(false, false, None), NameTagType::Character);
    assert_eq!(get_name_tag_type(true, true, None), NameTagType::Npc);
    assert_eq!(get_name_tag_type(true, false, Some(999)), NameTagType::Npc);
    assert_eq!(get_name_tag_type(true, false, Some(3)), NameTagType::Monster);
}

#[test]
fn name_colors_by_level_difference() {
    assert_eq!(name_color(true, true, Some(10), Some(10), None, None), (0, 255, 0));
    assert_eq!(name_color(true, false, Some(10), Some(40), None, None), (224, 149, 255));
    assert_eq!(name_color(true, false, Some(10), Some(12), None, None), (255, 228, 122));
    assert_eq!(name_color(true, false, Some(30), Some(10), None, None), (202, 243, 255));
    assert_eq!(name_color(true, false, None, None, None, None), (255, 228, 122));
    assert_eq!(name_color(false, false, None, None, Some(2), Some(1)), (255, 0, 0));
    assert_eq!(name_color(false, false, None, None, Some(1), Some(1)), (255, 255, 255));
}

#[test]
fn npc_names_split_into_job_and_name() {
    let (job, name) = split_npc_name(" [Merchant ]  Judy  ").unwrap();
    assert_eq!(job, "[Merchant]\n");
    assert_eq!(name, "Judy");
    assert!(split_npc_name("Plain name").is_none());
}

#[test]
fn outline_sums_neighbouring_alpha() {
    let width = 8u32;
    let height = 8u32;
    let mut data = vec![0u8; (width * height * 4) as usize];
    // one opaque pixel at (3, 3)
    data[(3 * 4 + 3 * 4 * width + 3) as usize] = 200;
    let out = outline_text(&data, width, height, 8, 8);
    let alpha = |x: u32, y: u32| out[(x * 4 + y * 4 * width + 3) as usize];
    // the pixel itself is not among its own neighbours
    assert_eq!(alpha(3, 3), 0);
    assert_eq!(alpha(3, 5), 200);
    assert_eq!(alpha(4, 4), 200);
    assert_eq!(alpha(5, 5), 0);
    // two neighbours saturate at 255
    data[(5 * 4 + 3 * 4 * width + 3) as usize] = 200;
    let out = outline_text(&data, width, height, 8, 8);
    assert_eq!(out[(4 * 4 + 3 * 4 * width + 3) as usize], 255);
    // outside the bounds nothing changes
    assert_eq!(out[(1 * 4 + 1 * 4 * width + 3) as usize], 0);
}

#[test]
fn texture_sides_are_powers_of_two() {
    for n in [0u32, 1, 2, 3, 5, 64, 65, 1000, 0x8000_0000] {
        assert_eq!(next_power_of_two(n), n.next_power_of_two());
    }
    assert_eq!(name_tag_texture_size(100, 20), (128, 32, 128 * 32 * 4));
}

#[test]
fn glyphs_are_copied_by_the_larger_byte() {
    // a 4 by 2 texture, and a 2 by 1 font texture
    let mut data = vec![0u8; 4 * 2 * 4];
    data[(1 + 4) * 4] = 200;
    let font = vec![10u8, 20, 30, 40, 50, 60, 70, 80];
    copy_glyph(
        &mut data,
        4,
        2,
        &font,
        2,
        1,
        GlyphCopy { dst_x: 1, dst_y: 1, glyph_width: 2, glyph_height: 1, uv_x: 0, uv_y: 0 },
    );
    assert_eq!(&data[(1 + 4) * 4..(1 + 4) * 4 + 4], &[200, 20, 30, 40]);
    assert_eq!(&data[(2 + 4) * 4..(2 + 4) * 4 + 4], &[50, 60, 70, 80]);
    assert_eq!(data.iter().filter(|b| **b != 0).count(), 8);
}
