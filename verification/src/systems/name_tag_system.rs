use vstd::prelude::*;

use crate::systems::name_tag_visibility_system::NameTagType;
use crate::text::{chars_text, find_char, lemma_first_index, spec_first_index, spec_trim, text_chars, trim_range};

verus! {

/// The kind of name tag an entity gets: an NPC on the default NPC team or of NPC type 999
/// is an NPC, any other NPC a monster, and everything else a character.
pub fn get_name_tag_type(is_npc: bool, on_default_npc_team: bool, npc_type_index: Option<u16>) -> (r: NameTagType)
    ensures
        r == if !is_npc {
            NameTagType::Character
        } else if on_default_npc_team || npc_type_index == Some(999u16) {
            NameTagType::Npc
        } else {
            NameTagType::Monster
        },
{
    if is_npc {
        let special = match npc_type_index {
            Some(index) => index == 999,
            None => false,
        };
        if on_default_npc_team || special {
            NameTagType::Npc
        } else {
            NameTagType::Monster
        }
    } else {
        NameTagType::Character
    }
}

/// The color of a name by the level difference between the player and an NPC (the
/// player's level less the NPC's): from far above the player (violet) to far below
/// (grey).
pub open spec fn spec_level_difference_color(level_diff: int) -> (u8, u8, u8) {
    if level_diff <= -23 {
        (224, 149, 255)
    } else if level_diff <= -16 {
        (255, 136, 200)
    } else if level_diff <= -10 {
        (255, 113, 107)
    } else if level_diff <= -4 {
        (255, 166, 107)
    } else if level_diff <= 3 {
        (255, 228, 122)
    } else if level_diff <= 8 {
        (150, 255, 122)
    } else if level_diff <= 14 {
        (137, 243, 255)
    } else if level_diff <= 21 {
        (202, 243, 255)
    } else {
        (217, 217, 217)
    }
}

/// The color of an entity's name on its name tag. An NPC's: green on the default NPC team,
/// else by the level difference between the player and the NPC (a missing level counts as
/// 1). Anyone else's: red on a team other than the player's, else white.
pub open spec fn spec_name_color(
    is_npc: bool,
    on_default_npc_team: bool,
    player_level: Option<u32>,
    npc_level: Option<u32>,
    team_id: Option<u32>,
    player_team_id: Option<u32>,
) -> (u8, u8, u8) {
    if is_npc {
        let p = match player_level {
            Some(l) => l,
            None => 1u32,
        };
        let n = match npc_level {
            Some(l) => l,
            None => 1u32,
        };
        if on_default_npc_team {
            (0, 255, 0)
        } else {
            spec_level_difference_color((p as i32) - (n as i32))
        }
    } else if team_id is Some && team_id != player_team_id {
        (255, 0, 0)
    } else {
        (255, 255, 255)
    }
}

/// The color of an entity's name on its name tag (see `spec_name_color`).
pub fn name_color(
    is_npc: bool,
    on_default_npc_team: bool,
    player_level: Option<u32>,
    npc_level: Option<u32>,
    team_id: Option<u32>,
    player_team_id: Option<u32>,
) -> (r: (u8, u8, u8))
    requires
        is_npc ==> i32::MIN <= (match player_level {
            Some(l) => l,
            None => 1u32,
        } as i32) - (match npc_level {
            Some(l) => l,
            None => 1u32,
        } as i32) <= i32::MAX,
    ensures
        r == spec_name_color(is_npc, on_default_npc_team, player_level, npc_level, team_id, player_team_id),
{
    if is_npc {
        let p = match player_level {
            Some(l) => l,
            None => 1u32,
        };
        let n = match npc_level {
            Some(l) => l,
            None => 1u32,
        };
        let level_diff = (p as i32) - (n as i32);
        if on_default_npc_team {
            (0, 255, 0)
        } else if level_diff <= -23 {
            (224, 149, 255)
        } else if level_diff <= -16 {
            (255, 136, 200)
        } else if level_diff <= -10 {
            (255, 113, 107)
        } else if level_diff <= -4 {
            (255, 166, 107)
        } else if level_diff <= 3 {
            (255, 228, 122)
        } else if level_diff <= 8 {
            (150, 255, 122)
        } else if level_diff <= 14 {
            (137, 243, 255)
        } else if level_diff <= 21 {
            (202, 243, 255)
        } else {
            (217, 217, 217)
        }
    } else {
        let other_team = match team_id {
            Some(t) => match player_team_id {
                Some(p) => t != p,
                None => true,
            },
            None => false,
        };
        if other_team {
            (255, 0, 0)
        } else {
            (255, 255, 255)
        }
    }
}

/// The alpha of an outlined pixel: the alphas of the twelve pixels around it (two steps up,
/// down, left and right, and the four diagonal neighbours), added up, at most 255.
pub open spec fn spec_outline_alpha(data: Seq<u8>, width: int, x: int, y: int) -> u8 {
    let a = |px: int, py: int| data[px * 4 + py * 4 * width + 3] as int;
    let sum = a(x, y - 2) + a(x, y - 1) + a(x, y + 1) + a(x, y + 2) + a(x - 2, y) + a(x - 1, y)
        + a(x + 1, y) + a(x + 2, y) + a(x - 1, y - 1) + a(x - 1, y + 1) + a(x + 1, y - 1) + a(
        x + 1,
        y + 1,
    );
    if sum < 255 {
        sum as u8
    } else {
        255u8
    }
}

/// Whether byte `i` of an RGBA texture of width `width` is the alpha of a pixel that the
/// outline pass sets: one at least two pixels inside the text's bounds.
pub open spec fn spec_outlined(i: int, width: int, max_x: int, max_y: int) -> bool {
    &&& i % 4 == 3
    &&& 2 <= (i / 4) % width < max_x - 2
    &&& 2 <= (i / 4) / width < max_y - 2
}

proof fn lemma_pixel_offset(x: int, y: int, width: int, height: int)
    requires
        0 <= x < width,
        0 <= y < height,
    ensures
        0 <= x * 4 + y * 4 * width + 3 < width * height * 4,
        (x * 4 + y * 4 * width + 3) % 4 == 3,
        ((x * 4 + y * 4 * width + 3) / 4) % width == x,
        ((x * 4 + y * 4 * width + 3) / 4) / width == y,
{
    assert(x * 4 + y * 4 * width + 3 == (x + y * width) * 4 + 3) by (nonlinear_arith);
    assert(((x + y * width) * 4 + 3) % 4 == 3) by (nonlinear_arith)
        requires
            x + y * width >= 0,
    ;
    assert(((x + y * width) * 4 + 3) / 4 == x + y * width) by (nonlinear_arith)
        requires
            x + y * width >= 0,
    ;
    assert((x + y * width) % width == x) by (nonlinear_arith)
        requires
            0 <= x < width,
            0 <= y,
    ;
    assert((x + y * width) / width == y) by (nonlinear_arith)
        requires
            0 <= x < width,
            0 <= y,
    ;
    assert(x + y * width < width * height) by (nonlinear_arith)
        requires
            0 <= x < width,
            0 <= y < height,
    ;
}

/// The outline pass of a name tag's text: the alpha of each pixel at least two pixels
/// inside the text's bounds (`max_x` by `max_y`) becomes the sum of the alphas around it
/// (see `spec_outline_alpha`), read from the texture before the pass; every other byte
/// stays.
pub fn outline_text(data: &Vec<u8>, width: u32, height: u32, max_x: u32, max_y: u32) -> (r: Vec<u8>)
    requires
        data@.len() == width * height * 4,
        width * height * 4 <= usize::MAX,
        2 <= max_x <= width,
        2 <= max_y <= height,
    ensures
        r@.len() == data@.len(),
        forall|i: int|
            0 <= i < r@.len() ==> #[trigger] r@[i] == if spec_outlined(
                i,
                width as int,
                max_x as int,
                max_y as int,
            ) {
                spec_outline_alpha(data@, width as int, (i / 4) % (width as int), (i / 4) / (
                width as int))
            } else {
                data@[i]
            },
{
    let mut outlined = data.clone();
    let w = width as usize;
    let mut y: u32 = 2;
    while y < max_y - 2
        invariant
            data@.len() == width * height * 4,
            width * height * 4 <= usize::MAX,
            2 <= max_x <= width,
            2 <= max_y <= height,
            w == width,
            2 <= y,
            y <= max_y - 2 || y == 2,
            outlined@.len() == data@.len(),
            forall|i: int|
                0 <= i < outlined@.len() ==> #[trigger] outlined@[i] == if spec_outlined(
                    i,
                    width as int,
                    max_x as int,
                    y as int + 2,
                ) {
                    spec_outline_alpha(
                        data@,
                        width as int,
                        (i / 4) % (width as int),
                        (i / 4) / (width as int),
                    )
                } else {
                    data@[i]
                },
        decreases max_y - y,
    {
        let mut x: u32 = 2;
        while x < max_x - 2
            invariant
                data@.len() == width * height * 4,
                width * height * 4 <= usize::MAX,
                2 <= max_x <= width,
                2 <= max_y <= height,
                w == width,
                2 <= y < max_y - 2,
                2 <= x,
                x <= max_x - 2 || x == 2,
                outlined@.len() == data@.len(),
                forall|i: int|
                    0 <= i < outlined@.len() ==> #[trigger] outlined@[i] == if spec_outlined(
                        i,
                        width as int,
                        max_x as int,
                        y as int + 2,
                    ) || (spec_outlined(i, width as int, max_x as int, y as int + 3) && (i / 4)
                        / (width as int) == y && (i / 4) % (width as int) < x) {
                        spec_outline_alpha(
                            data@,
                            width as int,
                            (i / 4) % (width as int),
                            (i / 4) / (width as int),
                        )
                    } else {
                        data@[i]
                    },
            decreases max_x - x,
        {
            proof {
                lemma_pixel_offset(x as int, y as int, width as int, height as int);
            }
            let mut sum: u32 = 0;
            sum = sum + alpha_at(data, width, height, x, y - 2);
            sum = sum + alpha_at(data, width, height, x, y - 1);
            sum = sum + alpha_at(data, width, height, x, y + 1);
            sum = sum + alpha_at(data, width, height, x, y + 2);
            sum = sum + alpha_at(data, width, height, x - 2, y);
            sum = sum + alpha_at(data, width, height, x - 1, y);
            sum = sum + alpha_at(data, width, height, x + 1, y);
            sum = sum + alpha_at(data, width, height, x + 2, y);
            sum = sum + alpha_at(data, width, height, x - 1, y - 1);
            sum = sum + alpha_at(data, width, height, x - 1, y + 1);
            sum = sum + alpha_at(data, width, height, x + 1, y - 1);
            sum = sum + alpha_at(data, width, height, x + 1, y + 1);
            let alpha: u8 = if sum < 255 {
                sum as u8
            } else {
                255
            };
            proof {
                assert((y as int) * 4 <= (y as int) * 4 * (width as int)) by (nonlinear_arith)
                    requires
                        width >= 1,
                ;
            }
            let offset = (x as usize) * 4 + (y as usize) * 4 * w + 3;
            outlined.set(offset, alpha);
            proof {
                assert forall|i: int| 0 <= i < outlined@.len() implies #[trigger] outlined@[i]
                    == if spec_outlined(i, width as int, max_x as int, y as int + 2) || (
                spec_outlined(i, width as int, max_x as int, y as int + 3) && (i / 4) / (
                width as int) == y && (i / 4) % (width as int) < x + 1) {
                    spec_outline_alpha(
                        data@,
                        width as int,
                        (i / 4) % (width as int),
                        (i / 4) / (width as int),
                    )
                } else {
                    data@[i]
                } by {
                    if i == offset {
                    } else {
                        if (i / 4) / (width as int) == y && (i / 4) % (width as int) == x && i % 4
                            == 3 {
                            lemma_same_pixel(i, offset as int, width as int);
                        }
                    }
                }
            }
            x = x + 1;
        }
        proof {
            assert forall|i: int| 0 <= i < outlined@.len() implies #[trigger] outlined@[i]
                == if spec_outlined(i, width as int, max_x as int, y as int + 3) {
                spec_outline_alpha(
                    data@,
                    width as int,
                    (i / 4) % (width as int),
                    (i / 4) / (width as int),
                )
            } else {
                data@[i]
            } by {
                lemma_row_split(i, width as int, max_x as int, y as int);
            }
        }
        y = y + 1;
    }
    proof {
        assert forall|i: int| 0 <= i < outlined@.len() implies #[trigger] outlined@[i] == if spec_outlined(
            i,
            width as int,
            max_x as int,
            max_y as int,
        ) {
            spec_outline_alpha(data@, width as int, (i / 4) % (width as int), (i / 4) / (
            width as int))
        } else {
            data@[i]
        } by {
            if max_y < 5 {
                assert(!spec_outlined(i, width as int, max_x as int, max_y as int));
                assert(!spec_outlined(i, width as int, max_x as int, y as int + 2));
            }
        }
    }
    outlined
}

proof fn lemma_same_pixel(i: int, offset: int, width: int)
    requires
        width > 0,
        i >= 0,
        offset >= 0,
        i % 4 == 3,
        offset % 4 == 3,
        (i / 4) % width == (offset / 4) % width,
        (i / 4) / width == (offset / 4) / width,
    ensures
        i == offset,
{
    assert(i / 4 == (i / 4) / width * width + (i / 4) % width) by (nonlinear_arith)
        requires
            width > 0,
            i >= 0,
    ;
    assert(offset / 4 == (offset / 4) / width * width + (offset / 4) % width) by (nonlinear_arith)
        requires
            width > 0,
            offset >= 0,
    ;
}

proof fn lemma_row_split(i: int, width: int, max_x: int, y: int)
    ensures
        spec_outlined(i, width, max_x, y + 3) <==> (spec_outlined(i, width, max_x, y + 2) || (
        spec_outlined(i, width, max_x, y + 3) && (i / 4) / width == y && (i / 4) % width
            < max_x - 2)),
{
}

fn alpha_at(data: &Vec<u8>, width: u32, height: u32, x: u32, y: u32) -> (r: u32)
    requires
        x < width,
        y < height,
        data@.len() == width * height * 4,
        width * height * 4 <= usize::MAX,
    ensures
        r == data@[(x as int) * 4 + (y as int) * 4 * (width as int) + 3] as int,
{
    proof {
        lemma_pixel_offset(x as int, y as int, width as int, height as int);
        assert((y as int) * 4 <= (y as int) * 4 * (width as int)) by (nonlinear_arith)
            requires
                width >= 1,
        ;
    }
    let offset = (x as usize) * 4 + (y as usize) * 4 * (width as usize) + 3;
    data[offset] as u32
}

/// The place of a glyph in the name tag texture: from column `dst_x` and row `dst_y`,
/// `glyph_width` by `glyph_height` pixels, read from the font texture from column `uv_x`
/// and row `uv_y`.
#[derive(Copy, Clone, Debug, PartialEq, Eq, Structural)]
pub struct GlyphCopy {
    pub dst_x: usize,
    pub dst_y: usize,
    pub glyph_width: usize,
    pub glyph_height: usize,
    pub uv_x: usize,
    pub uv_y: usize,
}

/// Whether byte `i` of an RGBA texture of width `width` belongs to a pixel of the glyph's
/// place, among the pixels copied so far: the rows before `row`, and the pixels of row
/// `row` before column `col`.
pub open spec fn spec_in_glyph_before(i: int, width: int, g: GlyphCopy, row: int, col: int) -> bool {
    let x = (i / 4) % width;
    let y = (i / 4) / width;
    &&& g.dst_x <= x < g.dst_x + g.glyph_width
    &&& g.dst_y <= y < g.dst_y + g.glyph_height
    &&& (y < row || (y == row && x < col))
}

/// The byte of the font texture (of width `font_width`) that byte `i` of the name tag
/// texture takes from the glyph.
pub open spec fn spec_font_byte(font: Seq<u8>, font_width: int, width: int, g: GlyphCopy, i: int) -> u8 {
    let x = (i / 4) % width;
    let y = (i / 4) / width;
    font[((g.uv_y + y - g.dst_y) * font_width + (g.uv_x + x - g.dst_x)) * 4 + i % 4]
}

/// The larger of two bytes.
pub open spec fn spec_max_u8(a: u8, b: u8) -> u8 {
    if a < b {
        b
    } else {
        a
    }
}

/// The name tag texture after a glyph is copied into it: each byte of the glyph's place
/// becomes the larger of its value and the glyph's byte; every other byte stays.
pub open spec fn spec_copied(data: Seq<u8>, font: Seq<u8>, font_width: int, width: int, g: GlyphCopy, row: int, col: int, i: int) -> u8 {
    if spec_in_glyph_before(i, width, g, row, col) {
        spec_max_u8(data[i], spec_font_byte(font, font_width, width, g, i))
    } else {
        data[i]
    }
}

proof fn lemma_channel_offset(x: int, y: int, width: int, height: int, c: int)
    requires
        0 <= x < width,
        0 <= y < height,
        0 <= c < 4,
    ensures
        x * 4 + y * 4 * width + c == (x + y * width) * 4 + c,
        0 <= (x + y * width) * 4 + c < width * height * 4,
        ((x + y * width) * 4 + c) % 4 == c,
        (((x + y * width) * 4 + c) / 4) % width == x,
        (((x + y * width) * 4 + c) / 4) / width == y,
{
    assert(x * 4 + y * 4 * width + c == (x + y * width) * 4 + c) by (nonlinear_arith);
    assert(0 <= x + y * width) by (nonlinear_arith)
        requires
            0 <= x,
            0 <= y,
            0 <= width,
    ;
    assert(((x + y * width) * 4 + c) % 4 == c) by (nonlinear_arith)
        requires
            x + y * width >= 0,
            0 <= c < 4,
    ;
    assert(((x + y * width) * 4 + c) / 4 == x + y * width) by (nonlinear_arith)
        requires
            x + y * width >= 0,
            0 <= c < 4,
    ;
    assert((x + y * width) % width == x) by (nonlinear_arith)
        requires
            0 <= x < width,
            0 <= y,
    ;
    assert((x + y * width) / width == y) by (nonlinear_arith)
        requires
            0 <= x < width,
            0 <= y,
    ;
    assert(x + y * width < width * height) by (nonlinear_arith)
        requires
            0 <= x < width,
            0 <= y < height,
    ;
    assert((x + y * width) * 4 + c < width * height * 4) by (nonlinear_arith)
        requires
            x + y * width < width * height,
            0 <= c < 4,
    ;
}

proof fn lemma_same_channel(i: int, x: int, y: int, width: int, c: int)
    requires
        width > 0,
        i >= 0,
        0 <= c < 4,
        i % 4 == c,
        (i / 4) % width == x,
        (i / 4) / width == y,
    ensures
        i == (x + y * width) * 4 + c,
{
    assert(i / 4 == (i / 4) / width * width + (i / 4) % width) by (nonlinear_arith)
        requires
            width > 0,
            i >= 0,
    ;
    assert(i == (i / 4) * 4 + i % 4);
}

fn max_u8(a: u8, b: u8) -> (r: u8)
    ensures
        r == spec_max_u8(a, b),
{
    if a < b {
        b
    } else {
        a
    }
}

/// Copies a glyph of the font texture into the name tag texture (see `spec_copied`): the
/// texture is `width` by `height` RGBA pixels, the font texture `font_width` by
/// `font_height`, and the glyph's place lies inside both.
pub fn copy_glyph(data: &mut Vec<u8>, width: usize, height: usize, font: &Vec<u8>, font_width: usize, font_height: usize, g: GlyphCopy)
    requires
        old(data)@.len() == width * height * 4,
        font@.len() == font_width * font_height * 4,
        g.dst_x + g.glyph_width <= width,
        g.dst_y + g.glyph_height <= height,
        g.uv_x + g.glyph_width <= font_width,
        g.uv_y + g.glyph_height <= font_height,
    ensures
        final(data)@.len() == old(data)@.len(),
        forall|i: int|
            0 <= i < final(data)@.len() ==> #[trigger] final(data)@[i] == spec_copied(
                old(data)@,
                font@,
                font_width as int,
                width as int,
                g,
                g.dst_y + g.glyph_height,
                0,
                i,
            ),
{
    if g.glyph_width == 0 || g.glyph_height == 0 {
        assert forall|i: int| 0 <= i < data@.len() implies #[trigger] data@[i] == spec_copied(
            old(data)@,
            font@,
            font_width as int,
            width as int,
            g,
            g.dst_y + g.glyph_height,
            0,
            i,
        ) by {}
        return;
    }
    let ghost start = data@;
    let mut y: usize = g.dst_y;
    while y < g.dst_y + g.glyph_height
        invariant
            start == old(data)@,
            data@.len() == start.len(),
            start.len() == width * height * 4,
            font@.len() == font_width * font_height * 4,
            g.dst_x + g.glyph_width <= width,
            g.dst_y + g.glyph_height <= height,
            g.uv_x + g.glyph_width <= font_width,
            g.uv_y + g.glyph_height <= font_height,
            g.glyph_width > 0,
            g.dst_y <= y <= g.dst_y + g.glyph_height,
            forall|i: int|
                0 <= i < data@.len() ==> #[trigger] data@[i] == spec_copied(
                    start,
                    font@,
                    font_width as int,
                    width as int,
                    g,
                    y as int,
                    0,
                    i,
                ),
        decreases g.dst_y + g.glyph_height - y,
    {
        let mut x: usize = g.dst_x;
        while x < g.dst_x + g.glyph_width
            invariant
                start == old(data)@,
                data@.len() == start.len(),
                start.len() == width * height * 4,
                font@.len() == font_width * font_height * 4,
                g.dst_x + g.glyph_width <= width,
                g.dst_y + g.glyph_height <= height,
                g.uv_x + g.glyph_width <= font_width,
                g.uv_y + g.glyph_height <= font_height,
                g.dst_y <= y < g.dst_y + g.glyph_height,
                g.dst_x <= x <= g.dst_x + g.glyph_width,
                forall|i: int|
                    0 <= i < data@.len() ==> #[trigger] data@[i] == spec_copied(
                        start,
                        font@,
                        font_width as int,
                        width as int,
                        g,
                        y as int,
                        x as int,
                        i,
                    ),
            decreases g.dst_x + g.glyph_width - x,
        {
            let src_x = g.uv_x + (x - g.dst_x);
            let src_y = g.uv_y + (y - g.dst_y);
            proof {
                lemma_channel_offset(x as int, y as int, width as int, height as int, 0);
                lemma_channel_offset(src_x as int, src_y as int, font_width as int, font_height as int, 0);
                lemma_channel_offset(x as int, y as int, width as int, height as int, 3);
                lemma_channel_offset(src_x as int, src_y as int, font_width as int, font_height as int, 3);
            }
            let data_len = data.len();
            let font_len = font.len();
            assert(data_len == data@.len() && font_len == font@.len());
            let dst = (x + y * width) * 4;
            let src = (src_x + src_y * font_width) * 4;
            let ghost before = data@;
            let mut c: usize = 0;
            while c < 4
                invariant
                    start == old(data)@,
                    data@.len() == start.len(),
                    start.len() == width * height * 4,
                    font@.len() == font_width * font_height * 4,
                    dst + 3 < data@.len(),
                    src + 3 < font@.len(),
                    dst == (x + y * width) * 4,
                    src == (src_x + src_y * font_width) * 4,
                    c <= 4,
                    forall|i: int|
                        0 <= i < data@.len() ==> #[trigger] data@[i] == if dst <= i < dst + c {
                            spec_max_u8(before[i], font@[src + (i - dst)])
                        } else {
                            before[i]
                        },
                decreases 4 - c,
            {
                let value = max_u8(data[dst + c], font[src + c]);
                data.set(dst + c, value);
                c = c + 1;
            }
            proof {
                assert forall|i: int| 0 <= i < data@.len() implies #[trigger] data@[i] == spec_copied(
                    start,
                    font@,
                    font_width as int,
                    width as int,
                    g,
                    y as int,
                    x as int + 1,
                    i,
                ) by {
                    let px = (i / 4) % (width as int);
                    let py = (i / 4) / (width as int);
                    if dst <= i < dst + 4 {
                        let c = i - dst;
                        lemma_channel_offset(x as int, y as int, width as int, height as int, c);
                        lemma_channel_offset(src_x as int, src_y as int, font_width as int, font_height as int, c);
                        assert(before[i] == start[i]);
                    } else if px == x && py == y {
                        lemma_same_channel(i, x as int, y as int, width as int, i % 4);
                        assert(false);
                    }
                }
            }
            x = x + 1;
        }
        proof {
            assert forall|i: int| 0 <= i < data@.len() implies #[trigger] data@[i] == spec_copied(
                start,
                font@,
                font_width as int,
                width as int,
                g,
                y as int + 1,
                0,
                i,
            ) by {
                assert(spec_in_glyph_before(i, width as int, g, y as int + 1, 0) == spec_in_glyph_before(
                    i,
                    width as int,
                    g,
                    y as int,
                    x as int,
                ));
            }
        }
        y = y + 1;
    }
}

/// The first of `p`, `2p`, `4p`, ... that is at least `n`.
pub open spec fn spec_power_of_two_from(n: nat, p: nat) -> nat
    decreases (if p >= n {
        0
    } else {
        n - p
    }),
{
    if p == 0 || p >= n {
        p
    } else {
        spec_power_of_two_from(n, 2 * p)
    }
}

/// The smallest power of two that is at least `n` (1 for 0), as `u32::next_power_of_two`
/// gives it.
pub open spec fn spec_next_power_of_two(n: nat) -> nat {
    spec_power_of_two_from(n, 1)
}

/// The smallest power of two that is at least `n` (see `spec_next_power_of_two`).
pub fn next_power_of_two(n: u32) -> (r: u32)
    requires
        n <= 0x8000_0000,
    ensures
        r == spec_next_power_of_two(n as nat),
{
    let mut p: u32 = 1;
    while p < n
        invariant
            1 <= p,
            n <= 0x8000_0000,
            spec_power_of_two_from(n as nat, p as nat) == spec_next_power_of_two(n as nat),
        decreases (if p >= n {
            0
        } else {
            n - p
        }),
    {
        p = p * 2;
    }
    p
}

/// The size of the texture for a name tag whose text spans `max_x` by `max_y` pixels:
/// each side the next power of two, and the number of bytes of its RGBA pixels.
pub fn name_tag_texture_size(max_x: u32, max_y: u32) -> (r: (u32, u32, usize))
    requires
        max_x <= 0x8000_0000,
        max_y <= 0x8000_0000,
        spec_next_power_of_two(max_x as nat) * spec_next_power_of_two(max_y as nat) * 4 <= u32::MAX,
    ensures
        r.0 == spec_next_power_of_two(max_x as nat),
        r.1 == spec_next_power_of_two(max_y as nat),
        r.2 == r.0 * r.1 * 4,
{
    let width = next_power_of_two(max_x);
    let height = next_power_of_two(max_y);
    assert(width * height <= width * height * 4) by (nonlinear_arith);
    let size = width * height * 4;
    (width, height, size as usize)
}

/// The two lines of an NPC's name of the form `job]name`: the job, trimmed, with the `]`
/// and a line break after it; and the name, trimmed. A name without `]` is not split.
#[verifier::spinoff_prover]
pub fn split_npc_name(name: &str) -> (r: Option<(String, String)>)
    ensures
        match spec_first_index(name@, ']') {
            Some(i) => r matches Some((job, rest)) && job@ == spec_trim(name@.take(i)) + seq![
                ']',
                '\n',
            ] && rest@ == spec_trim(name@.skip(i + 1)),
            None => r is None,
        },
{
    let chars = text_chars(name);
    assert(chars@.skip(0) =~= chars@);
    match find_char(&chars, 0, ']') {
        None => None,
        Some(split) => {
            proof {
                lemma_first_index(chars@, ']');
                assert(spec_first_index(chars@, ']') == Some(split as int));
                assert(split < chars@.len());
            }
            let mut job = trim_range(&chars, 0, split);
            job.push(']');
            job.push('\n');
            let n = chars.len();
            let rest = trim_range(&chars, split + 1, n);
            assert(chars@.subrange(0, split as int) =~= name@.take(split as int));
            assert(chars@.subrange(split + 1, chars@.len() as int) =~= name@.skip(split + 1));
            Some((chars_text(&job), chars_text(&rest)))
        },
    }
}

} // verus!
