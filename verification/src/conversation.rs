use vstd::prelude::*;

use crate::text::{
    ascii_lower, chars_text, find_char, lemma_first_index, push_decimal, spec_ascii_lower,
    spec_decimal_chars, spec_first_index, spec_starts_with, text_chars,
};

verus! {

/// The name and level of the player's character, which dialog texts can mention.
pub struct DialogPlayer {
    pub name: String,
    pub level: u32,
}

/// `<NAME>`
pub open spec fn spec_name_template() -> Seq<char> {
    seq!['<', 'N', 'A', 'M', 'E', '>']
}

/// `<LEVEL>`
pub open spec fn spec_level_template() -> Seq<char> {
    seq!['<', 'L', 'E', 'V', 'E', 'L', '>']
}

/// What a template of a dialog text becomes: `<NAME>` the player's name, `<LEVEL>` the
/// player's level in decimal, when there is a player; any other template stays.
pub open spec fn spec_substitute(template: Seq<char>, player: Option<(Seq<char>, u32)>) -> Seq<char> {
    match player {
        Some((name, level)) => if template == spec_name_template() {
            name
        } else if template == spec_level_template() {
            spec_decimal_chars(level as nat)
        } else {
            template
        },
        None => template,
    }
}

/// A dialog text with its templates filled in. A template runs from `<` to the next
/// `>`; text after a `<` that no `>` follows is dropped, with the text just before it.
pub open spec fn spec_parse_message(remaining: Seq<char>, player: Option<(Seq<char>, u32)>) -> Seq<
    char,
>
    decreases remaining.len(),
{
    match spec_first_index(remaining, '<') {
        None => remaining,
        Some(start) => {
            let template_part = remaining.skip(start);
            match spec_first_index(template_part, '>') {
                None => Seq::empty(),
                Some(end) => {
                    proof {
                        lemma_first_index(remaining, '<');
                        lemma_first_index(template_part, '>');
                    }
                    remaining.take(start) + spec_substitute(template_part.take(end + 1), player)
                        + spec_parse_message(template_part.skip(end + 1), player)
                },
            }
        },
    }
}

/// The player as plain values.
pub open spec fn spec_player(player: Option<&DialogPlayer>) -> Option<(Seq<char>, u32)> {
    match player {
        Some(p) => Some((p.name@, p.level)),
        None => None,
    }
}

fn same_chars(chars: &Vec<char>, from: usize, to: usize, expected: &[char]) -> (r: bool)
    requires
        from <= to <= chars@.len(),
    ensures
        r == (chars@.subrange(from as int, to as int) == expected@),
{
    if to - from != expected.len() {
        return false;
    }
    let mut i: usize = 0;
    while i < expected.len()
        invariant
            from <= to <= chars@.len(),
            to - from == expected@.len(),
            i <= expected@.len(),
            forall|j: int| 0 <= j < i ==> chars@[from + j] == expected@[j],
        decreases expected.len() - i,
    {
        if chars[from + i] != expected[i] {
            assert(chars@.subrange(from as int, to as int)[i as int] != expected@[i as int]);
            return false;
        }
        i = i + 1;
    }
    assert(chars@.subrange(from as int, to as int) =~= expected@);
    true
}

fn push_range(out: &mut Vec<char>, chars: &Vec<char>, from: usize, to: usize)
    requires
        from <= to <= chars@.len(),
    ensures
        final(out)@ == old(out)@ + chars@.subrange(from as int, to as int),
{
    let mut i = from;
    while i < to
        invariant
            from <= i <= to <= chars@.len(),
            out@ == old(out)@ + chars@.subrange(from as int, i as int),
        decreases to - i,
    {
        out.push(chars[i]);
        i = i + 1;
        assert(out@ =~= old(out)@ + chars@.subrange(from as int, i as int));
    }
}

/// Fills in the templates of a dialog text.
pub fn parse_message(message: &str, player: Option<&DialogPlayer>) -> (r: String)
    ensures
        r@ == spec_parse_message(message@, spec_player(player)),
{
    let chars = text_chars(message);
    let ghost all = chars@;
    let mut out: Vec<char> = Vec::new();
    let mut position: usize = 0;
    let name_template = ['<', 'N', 'A', 'M', 'E', '>'];
    let level_template = ['<', 'L', 'E', 'V', 'E', 'L', '>'];
    assert(name_template@ =~= spec_name_template());
    assert(level_template@ =~= spec_level_template());
    assert(all.skip(0) =~= all);
    while position < chars.len()
        invariant
            position <= chars@.len(),
            all == chars@,
            all == message@,
            name_template@ == spec_name_template(),
            level_template@ == spec_level_template(),
            out@ + spec_parse_message(all.skip(position as int), spec_player(player))
                == spec_parse_message(all, spec_player(player)),
        decreases chars.len() - position,
    {
        let ghost remaining = all.skip(position as int);
        let start = match find_char(&chars, position, '<') {
            None => {
                push_range(&mut out, &chars, position, chars.len());
                assert(remaining =~= all.subrange(position as int, all.len() as int));
                return chars_text(&out);
            },
            Some(start) => start,
        };
        proof {
            lemma_first_index(remaining, '<');
        }
        let template_start = position + start;
        assert(remaining.skip(start as int) =~= all.skip(template_start as int));
        let end = match find_char(&chars, template_start, '>') {
            None => {
                return chars_text(&out);
            },
            Some(end) => end,
        };
        proof {
            lemma_first_index(all.skip(template_start as int), '>');
        }
        let template_end = template_start + end + 1;
        push_range(&mut out, &chars, position, template_start);
        assert(remaining.take(start as int) =~= all.subrange(position as int, template_start as int));
        let ghost template = all.subrange(template_start as int, template_end as int);
        assert(all.skip(template_start as int).take(end + 1) =~= template);
        assert(all.skip(template_start as int).skip(end + 1) =~= all.skip(template_end as int));
        let is_name = same_chars(&chars, template_start, template_end, &name_template);
        let is_level = same_chars(&chars, template_start, template_end, &level_template);
        match player {
            Some(p) if is_name => {
                let name_chars = text_chars(p.name.as_str());
                let name_len = name_chars.len();
                push_range(&mut out, &name_chars, 0, name_len);
                assert(name_chars@.subrange(0, name_len as int) =~= name_chars@);
            },
            Some(p) if is_level => {
                push_decimal(&mut out, p.level as u64);
            },
            _ => {
                push_range(&mut out, &chars, template_start, template_end);
            },
        }
        position = template_end;
    }
    assert(all.skip(position as int) =~= Seq::<char>::empty());
    chars_text(&out)
}

/// The color of a run of dialog text: the default text color, or one of red, green and
/// blue.
#[derive(Copy, Clone, Debug, PartialEq, Eq, Structural)]
pub enum TextColor {
    Default,
    Rgb(u8, u8, u8),
}

/// How a run of dialog text is drawn.
#[derive(Copy, Clone, Debug, PartialEq, Eq, Structural)]
pub struct TextFormat {
    pub italics: bool,
    pub color: TextColor,
}

/// A run of dialog text and how it is drawn.
#[derive(Debug)]
pub struct TextSection {
    pub text: String,
    pub format: TextFormat,
}

/// A run of text as plain values.
pub open spec fn spec_section_view(section: TextSection) -> (Seq<char>, TextFormat) {
    (section.text@, section.format)
}

/// The text color that a `{fc=N}` tag selects.
pub open spec fn spec_color_index(index: int) -> TextColor {
    if index == 1 {
        TextColor::Rgb(0x80, 0, 0)
    } else if index == 2 {
        TextColor::Rgb(0, 0x80, 0)
    } else if index == 3 {
        TextColor::Rgb(0, 0, 0x80)
    } else if index == 4 {
        TextColor::Rgb(0x80, 0x80, 0)
    } else if index == 5 {
        TextColor::Rgb(0x80, 0, 0x80)
    } else if index == 6 {
        TextColor::Rgb(0, 0x80, 0x80)
    } else if index == 7 {
        TextColor::Rgb(0x80, 0x80, 0x80)
    } else if index == 8 {
        TextColor::Rgb(0xC0, 0xC0, 0xC0)
    } else if index == 9 {
        TextColor::Rgb(0xC0, 0xDC, 0xC0)
    } else if index == 10 {
        TextColor::Rgb(0xC0, 0xC0, 0xDC)
    } else if index == 11 {
        TextColor::Rgb(0xA6, 0xCA, 0xF0)
    } else if index == 12 {
        TextColor::Rgb(0xFF, 0, 0)
    } else if index == 13 {
        TextColor::Rgb(0, 0xFF, 0)
    } else if index == 14 {
        TextColor::Rgb(0, 0, 0xFF)
    } else if index == 15 {
        TextColor::Rgb(0xFF, 0xFF, 0)
    } else if index == 16 {
        TextColor::Rgb(0, 0xFF, 0xFF)
    } else if index == 17 {
        TextColor::Rgb(0xFF, 0xFB, 0xF0)
    } else if index == 18 {
        TextColor::Rgb(0xFF, 0xFF, 0xFF)
    } else {
        TextColor::Default
    }
}

/// The text color that a `{fc=N}` tag selects.
pub fn color_index(index: i32) -> (r: TextColor)
    ensures
        r == spec_color_index(index as int),
{
    match index {
        1 => TextColor::Rgb(0x80, 0, 0),
        2 => TextColor::Rgb(0, 0x80, 0),
        3 => TextColor::Rgb(0, 0, 0x80),
        4 => TextColor::Rgb(0x80, 0x80, 0),
        5 => TextColor::Rgb(0x80, 0, 0x80),
        6 => TextColor::Rgb(0, 0x80, 0x80),
        7 => TextColor::Rgb(0x80, 0x80, 0x80),
        8 => TextColor::Rgb(0xC0, 0xC0, 0xC0),
        9 => TextColor::Rgb(0xC0, 0xDC, 0xC0),
        10 => TextColor::Rgb(0xC0, 0xC0, 0xDC),
        11 => TextColor::Rgb(0xA6, 0xCA, 0xF0),
        12 => TextColor::Rgb(0xFF, 0, 0),
        13 => TextColor::Rgb(0, 0xFF, 0),
        14 => TextColor::Rgb(0, 0, 0xFF),
        15 => TextColor::Rgb(0xFF, 0xFF, 0),
        16 => TextColor::Rgb(0, 0xFF, 0xFF),
        17 => TextColor::Rgb(0xFF, 0xFB, 0xF0),
        18 => TextColor::Rgb(0xFF, 0xFF, 0xFF),
        _ => TextColor::Default,
    }
}

/// Whether a character is an ASCII decimal digit.
pub open spec fn spec_is_digit_char(c: char) -> bool {
    '0' <= c <= '9'
}

/// The decimal value of a sequence of digit characters.
pub open spec fn spec_digits_value(digits: Seq<char>) -> int
    decreases digits.len(),
{
    if digits.len() == 0 {
        0
    } else {
        spec_digits_value(digits.drop_last()) * 10 + ((digits.last() as u32) - 48)
    }
}

/// A text without the `+` or `-` that may open it.
pub open spec fn spec_unsigned_part(text: Seq<char>) -> Seq<char> {
    if text.len() > 0 && (text[0] == '+' || text[0] == '-') {
        text.drop_first()
    } else {
        text
    }
}

/// Whether a text is one or more decimal digits.
pub open spec fn spec_all_digits(digits: Seq<char>) -> bool {
    digits.len() > 0 && forall|i: int| 0 <= i < digits.len() ==> spec_is_digit_char(#[trigger] digits[i])
}

/// The integer that a sign and digits denote.
pub open spec fn spec_signed_value(text: Seq<char>) -> int {
    if text.len() > 0 && text[0] == '-' {
        -spec_digits_value(spec_unsigned_part(text))
    } else {
        spec_digits_value(spec_unsigned_part(text))
    }
}

/// The `i32` that a text denotes, as `str::parse::<i32>` reads it: an optional `+` or
/// `-` followed by one or more decimal digits and nothing else, whose value fits.
pub open spec fn spec_parse_i32(text: Seq<char>) -> Option<int> {
    if spec_all_digits(spec_unsigned_part(text)) && i32::MIN <= spec_signed_value(text) <= i32::MAX {
        Some(spec_signed_value(text))
    } else {
        None
    }
}

proof fn lemma_digits_value_grows(digits: Seq<char>, k: int)
    requires
        0 <= k <= digits.len(),
        forall|i: int| 0 <= i < digits.len() ==> spec_is_digit_char(#[trigger] digits[i]),
    ensures
        0 <= spec_digits_value(digits.take(k)) <= spec_digits_value(digits),
    decreases digits.len() - k,
{
    if k < digits.len() {
        lemma_digits_value_grows(digits, k + 1);
        assert(digits.take(k + 1).drop_last() =~= digits.take(k));
        assert(spec_is_digit_char(digits[k]));
    } else {
        assert(digits.take(k) =~= digits);
    }
    lemma_digits_value_nonnegative(digits.take(k));
}

proof fn lemma_digits_value_nonnegative(digits: Seq<char>)
    requires
        forall|i: int| 0 <= i < digits.len() ==> spec_is_digit_char(#[trigger] digits[i]),
    ensures
        spec_digits_value(digits) >= 0,
    decreases digits.len(),
{
    if digits.len() > 0 {
        assert(spec_is_digit_char(digits[digits.len() - 1]));
        lemma_digits_value_nonnegative(digits.drop_last());
    }
}

/// The `i32` that the characters `chars[from..to]` denote, read as `str::parse::<i32>`
/// reads a text.
pub fn parse_i32(chars: &Vec<char>, from: usize, to: usize) -> (r: Option<i32>)
    requires
        from <= to <= chars@.len(),
    ensures
        r matches Some(v) ==> spec_parse_i32(chars@.subrange(from as int, to as int)) == Some(
            v as int,
        ),
        r is None ==> spec_parse_i32(chars@.subrange(from as int, to as int)) is None,
{
    let ghost text = chars@.subrange(from as int, to as int);
    let negative = from < to && chars[from] == '-';
    let start = if from < to && (chars[from] == '+' || chars[from] == '-') {
        from + 1
    } else {
        from
    };
    let ghost digits = spec_unsigned_part(text);
    assert(digits =~= chars@.subrange(start as int, to as int));
    if start >= to {
        return None;
    }
    // the magnitude, bounded by 2^31 while it can still fit
    let mut value: i64 = 0;
    let mut i: usize = start;
    while i < to
        invariant
            start <= i <= to <= chars@.len(),
            from <= start,
            text == chars@.subrange(from as int, to as int),
            digits == spec_unsigned_part(text),
            negative == (text.len() > 0 && text[0] == '-'),
            digits == chars@.subrange(start as int, to as int),
            digits.len() > 0,
            forall|j: int| 0 <= j < i - start ==> spec_is_digit_char(#[trigger] digits[j]),
            value == spec_digits_value(digits.take(i - start)),
            0 <= value <= 0x8000_0000,
        decreases to - i,
    {
        let c = chars[i];
        assert(c == digits[i - start]);
        if c < '0' || c > '9' {
            assert(!spec_is_digit_char(digits[i - start]));
            assert(!spec_all_digits(digits));
            return None;
        }
        let d = ((c as u32) - 48) as i64;
        assert(digits.take(i - start + 1).drop_last() =~= digits.take(i - start));
        let next = value * 10 + d;
        if next > 0x8000_0000 {
            proof {
                assert(digits.take(i - start + 1).last() == c);
                assert(spec_digits_value(digits.take(i - start + 1)) == next);
                if spec_all_digits(digits) {
                    lemma_digits_value_grows(digits, i - start + 1);
                    assert(spec_digits_value(digits) > 0x8000_0000);
                }
            }
            return None;
        }
        value = next;
        i = i + 1;
    }
    assert(digits.take(digits.len() as int) =~= digits);
    assert(spec_all_digits(digits));
    if negative {
        Some((-value) as i32)
    } else if value <= 0x7fff_ffff {
        Some(value as i32)
    } else {
        None
    }
}

/// The format at the start of a dialog text: upright, default color.
pub open spec fn spec_default_format() -> TextFormat {
    TextFormat { italics: false, color: TextColor::Default }
}

/// A tag with its ASCII capital letters made small.
pub open spec fn spec_lower(tag: Seq<char>) -> Seq<char> {
    tag.map_values(|c: char| spec_ascii_lower(c))
}

/// What a markup tag does, given the text before it and the current format: the runs it
/// appends, and the format after it. `{br}` appends the text and a line break; `{b}` and
/// `{/b}` append the text and turn italics on and off; `{/fc}` appends the text and
/// restores the default color; `{fc=N}`, when `N` reads as an `i32`, appends the text and
/// selects color `N`. Any other tag appends nothing, dropping the text before it. Tags
/// are matched without regard to the case of ASCII letters.
pub open spec fn spec_tag_effect(tag: Seq<char>, before: Seq<char>, format: TextFormat) -> (Seq<
    (Seq<char>, TextFormat),
>, TextFormat) {
    let lower = spec_lower(tag);
    if lower == seq!['{', 'b', 'r', '}'] {
        (seq![(before, format), (seq!['\n'], format)], format)
    } else if lower == seq!['{', 'b', '}'] {
        (seq![(before, format)], TextFormat { italics: true, ..format })
    } else if lower == seq!['{', '/', 'b', '}'] {
        (seq![(before, format)], TextFormat { italics: false, ..format })
    } else if lower == seq!['{', '/', 'f', 'c', '}'] {
        (seq![(before, format)], TextFormat { color: TextColor::Default, ..format })
    } else if spec_starts_with(lower, seq!['{', 'f', 'c', '=']) {
        match spec_parse_i32(lower.subrange(4, lower.len() - 1)) {
            Some(index) => (
                seq![(before, format)],
                TextFormat { color: spec_color_index(index), ..format },
            ),
            None => (Seq::empty(), format),
        }
    } else {
        (Seq::empty(), format)
    }
}

/// The runs of a marked-up dialog text, from `remaining` on with the format `format`. A
/// tag runs from `{` to the next `}`; from a `{` that no `}` follows, the rest is one run.
pub open spec fn spec_layout(remaining: Seq<char>, format: TextFormat) -> Seq<(Seq<char>, TextFormat)>
    decreases remaining.len(),
{
    match spec_first_index(remaining, '{') {
        None => if remaining.len() > 0 {
            seq![(remaining, format)]
        } else {
            Seq::empty()
        },
        Some(start) => {
            let tag_part = remaining.skip(start);
            match spec_first_index(tag_part, '}') {
                None => seq![(remaining, format)],
                Some(end) => {
                    proof {
                        lemma_first_index(remaining, '{');
                        lemma_first_index(tag_part, '}');
                    }
                    let (runs, next_format) = spec_tag_effect(
                        tag_part.take(end + 1),
                        remaining.take(start),
                        format,
                    );
                    runs + spec_layout(tag_part.skip(end + 1), next_format)
                },
            }
        },
    }
}

fn push_section(
    out: &mut Vec<TextSection>,
    chars: &Vec<char>,
    from: usize,
    to: usize,
    format: TextFormat,
)
    requires
        from <= to <= chars@.len(),
    ensures
        final(out)@.map_values(|s: TextSection| spec_section_view(s)) == old(out)@.map_values(
            |s: TextSection| spec_section_view(s),
        ).push((chars@.subrange(from as int, to as int), format)),
{
    let mut text: Vec<char> = Vec::new();
    push_range(&mut text, chars, from, to);
    let section = TextSection { text: chars_text(&text), format };
    out.push(section);
    assert(out@.map_values(|s: TextSection| spec_section_view(s)) =~= old(out)@.map_values(
        |s: TextSection| spec_section_view(s),
    ).push((chars@.subrange(from as int, to as int), format)));
}

/// The runs of a marked-up dialog text.
pub fn message_layout_job(message: &str) -> (r: Vec<TextSection>)
    ensures
        r@.map_values(|s: TextSection| spec_section_view(s)) == spec_layout(
            message@,
            spec_default_format(),
        ),
{
    let chars = text_chars(message);
    let ghost all = chars@;
    let mut out: Vec<TextSection> = Vec::new();
    let mut format = TextFormat { italics: false, color: TextColor::Default };
    let mut position: usize = 0;
    assert(all.skip(0) =~= all);
    assert(out@.map_values(|s: TextSection| spec_section_view(s)) =~= Seq::empty());
    while position < chars.len()
        invariant
            position <= chars@.len(),
            all == chars@,
            all == message@,
            out@.map_values(|s: TextSection| spec_section_view(s)) + spec_layout(
                all.skip(position as int),
                format,
            ) == spec_layout(all, spec_default_format()),
        ensures
            position <= chars@.len(),
            all == chars@,
            out@.map_values(|s: TextSection| spec_section_view(s)) + spec_layout(
                all.skip(position as int),
                format,
            ) == spec_layout(all, spec_default_format()),
            spec_layout(all.skip(position as int), format) == (if position < all.len() {
                seq![(all.skip(position as int), format)]
            } else {
                Seq::empty()
            }),
        decreases chars.len() - position,
    {
        let ghost remaining = all.skip(position as int);
        let ghost before_out = out@.map_values(|s: TextSection| spec_section_view(s));
        let start = match find_char(&chars, position, '{') {
            None => {
                break;
            },
            Some(start) => start,
        };
        proof {
            lemma_first_index(remaining, '{');
        }
        let tag_start = position + start;
        assert(remaining.skip(start as int) =~= all.skip(tag_start as int));
        let end = match find_char(&chars, tag_start, '}') {
            None => {
                break;
            },
            Some(end) => end,
        };
        proof {
            lemma_first_index(all.skip(tag_start as int), '}');
        }
        let tag_end = tag_start + end + 1;
        let ghost tag = all.subrange(tag_start as int, tag_end as int);
        let ghost before = all.subrange(position as int, tag_start as int);
        assert(remaining.take(start as int) =~= before);
        assert(all.skip(tag_start as int).take(end + 1) =~= tag);
        assert(all.skip(tag_start as int).skip(end + 1) =~= all.skip(tag_end as int));
        // the tag with ASCII capitals made small
        let mut lower: Vec<char> = Vec::new();
        let mut k = tag_start;
        while k < tag_end
            invariant
                tag_start <= k <= tag_end <= chars@.len(),
                lower@ == chars@.subrange(tag_start as int, k as int).map_values(
                    |c: char| spec_ascii_lower(c),
                ),
            decreases tag_end - k,
        {
            lower.push(ascii_lower(chars[k]));
            k = k + 1;
            assert(lower@ =~= chars@.subrange(tag_start as int, k as int).map_values(
                |c: char| spec_ascii_lower(c),
            ));
        }
        assert(lower@ == spec_lower(tag));
        let lower_len = lower.len();
        let ghost old_format = format;
        if same_chars(&lower, 0, lower_len, &['{', 'b', 'r', '}']) {
            assert(lower@.subrange(0, lower_len as int) =~= lower@);
            push_section(&mut out, &chars, position, tag_start, format);
            let newline = vec!['\n'];
            push_section(&mut out, &newline, 0, 1, format);
            assert(newline@.subrange(0, 1) =~= seq!['\n']);
        } else if same_chars(&lower, 0, lower_len, &['{', 'b', '}']) {
            assert(lower@.subrange(0, lower_len as int) =~= lower@);
            push_section(&mut out, &chars, position, tag_start, format);
            format = TextFormat { italics: true, color: format.color };
        } else if same_chars(&lower, 0, lower_len, &['{', '/', 'b', '}']) {
            assert(lower@.subrange(0, lower_len as int) =~= lower@);
            push_section(&mut out, &chars, position, tag_start, format);
            format = TextFormat { italics: false, color: format.color };
        } else if same_chars(&lower, 0, lower_len, &['{', '/', 'f', 'c', '}']) {
            assert(lower@.subrange(0, lower_len as int) =~= lower@);
            push_section(&mut out, &chars, position, tag_start, format);
            format = TextFormat { italics: format.italics, color: TextColor::Default };
        } else if lower_len >= 4 && same_chars(&lower, 0, 4, &['{', 'f', 'c', '=']) {
            assert(lower@.subrange(0, lower_len as int) =~= lower@);
            assert(lower@.take(4) =~= lower@.subrange(0, 4));
            assert(spec_starts_with(lower@, seq!['{', 'f', 'c', '=']));
            // the tag ends with its `}`, so it holds at least five characters
            match parse_i32(&lower, 4, lower_len - 1) {
                Some(color) => {
                    push_section(&mut out, &chars, position, tag_start, format);
                    format = TextFormat { italics: format.italics, color: color_index(color) };
                },
                None => {},
            }
        } else {
            proof {
                assert(lower@.subrange(0, lower_len as int) =~= lower@);
                if lower_len >= 4 {
                    assert(lower@.take(4) =~= lower@.subrange(0, 4));
                }
            }
        }
        assert(out@.map_values(|s: TextSection| spec_section_view(s)) =~= before_out
            + spec_tag_effect(tag, before, old_format).0);
        assert(format == spec_tag_effect(tag, before, old_format).1);
        position = tag_end;
    }
    if position < chars.len() {
        push_section(&mut out, &chars, position, chars.len(), format);
        assert(all.skip(position as int) =~= all.subrange(position as int, all.len() as int));
    } else {
        assert(out@.map_values(|s: TextSection| spec_section_view(s)) + Seq::empty()
            =~= out@.map_values(|s: TextSection| spec_section_view(s)));
    }
    out
}

} // verus!
