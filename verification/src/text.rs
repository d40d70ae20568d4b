use vstd::prelude::*;
use vstd::std_specs::iter::IteratorSpec;

verus! {

/// The characters of a text, in order.
pub(crate) fn text_chars(text: &str) -> (r: Vec<char>)
    ensures
        r@ == text@,
{
    broadcast use vstd::string::axiom_spec_iter, vstd::string::next_postcondition;
    let mut chars = text.chars();
    let mut r: Vec<char> = Vec::new();
    loop
        invariant
            r@ + chars.remaining() == text@,
            chars.obeys_prophetic_iter_laws(),
            chars.decrease() is Some,
        ensures
            r@ == text@,
        decreases chars.decrease()->0,
    {
        match chars.next() {
            Some(c) => {
                r.push(c);
                assert(r@ + chars.remaining() =~= text@);
            },
            None => {
                assert(r@ =~= text@);
                break;
            },
        }
    }
    r
}

/// The text made of the given characters, in order.
///
/// Wraps `String::from_iter` over characters, which the standard library documents as
/// building the string of those characters; the contract states that.
#[verifier::external_body]
pub(crate) fn chars_text(chars: &Vec<char>) -> (r: String)
    ensures
        r@ == chars@,
{
    String::from_iter(chars.iter())
}

/// The index of the first occurrence of `c` in `s`.
pub open spec fn spec_first_index(s: Seq<char>, c: char) -> Option<int>
    decreases s.len(),
{
    if s.len() == 0 {
        None
    } else if s[0] == c {
        Some(0)
    } else {
        match spec_first_index(s.drop_first(), c) {
            Some(i) => Some(i + 1),
            None => None,
        }
    }
}

/// The first index is an occurrence, and nothing before it is one; without one, `c`
/// does not occur.
pub proof fn lemma_first_index(s: Seq<char>, c: char)
    ensures
        match spec_first_index(s, c) {
            Some(i) => 0 <= i < s.len() && s[i] == c && forall|j: int| 0 <= j < i ==> s[j] != c,
            None => forall|j: int| 0 <= j < s.len() ==> s[j] != c,
        },
    decreases s.len(),
{
    if s.len() > 0 && s[0] != c {
        lemma_first_index(s.drop_first(), c);
        let rest = s.drop_first();
        match spec_first_index(rest, c) {
            Some(i) => {
                assert forall|j: int| 0 <= j < i + 1 implies s[j] != c by {
                    if j > 0 {
                        assert(s[j] == rest[j - 1]);
                    }
                }
            },
            None => {
                assert forall|j: int| 0 <= j < s.len() implies s[j] != c by {
                    if j > 0 {
                        assert(s[j] == rest[j - 1]);
                    }
                }
            },
        }
    }
}

/// The index, counted from `from`, of the first `c` at or after `from` in `chars`.
pub fn find_char(chars: &Vec<char>, from: usize, c: char) -> (r: Option<usize>)
    requires
        from <= chars@.len(),
    ensures
        r matches Some(i) ==> spec_first_index(chars@.skip(from as int), c) == Some(i as int),
        r is None ==> spec_first_index(chars@.skip(from as int), c) is None,
{
    let ghost rest = chars@.skip(from as int);
    let mut i: usize = from;
    while i < chars.len()
        invariant
            from <= i <= chars@.len(),
            rest == chars@.skip(from as int),
            forall|j: int| 0 <= j < i - from ==> rest[j] != c,
        decreases chars.len() - i,
    {
        if chars[i] == c {
            proof {
                lemma_first_index(rest, c);
                assert(rest[i - from] == c);
                match spec_first_index(rest, c) {
                    Some(k) => {
                        if k < i - from {
                        } else if k > i - from {
                        }
                    },
                    None => {},
                }
            }
            return Some(i - from);
        }
        i = i + 1;
    }
    proof {
        lemma_first_index(rest, c);
        match spec_first_index(rest, c) {
            Some(k) => {
                assert(rest[k] != c);
            },
            None => {},
        }
    }
    None
}

/// Whether `s` starts with `prefix`.
pub open spec fn spec_starts_with(s: Seq<char>, prefix: Seq<char>) -> bool {
    prefix.len() <= s.len() && s.take(prefix.len() as int) == prefix
}

/// A character with its ASCII capital letters made small.
pub open spec fn spec_ascii_lower(c: char) -> char {
    if 'A' <= c <= 'Z' {
        ((c as u32) + 32) as char
    } else {
        c
    }
}

/// A character with its ASCII capital letters made small.
pub fn ascii_lower(c: char) -> (r: char)
    ensures
        r == spec_ascii_lower(c),
{
    if 'A' <= c && c <= 'Z' {
        ((c as u8) + 32) as char
    } else {
        c
    }
}

/// The decimal digit character of `d`.
pub open spec fn spec_digit_char(d: int) -> char {
    if d == 0 {
        '0'
    } else if d == 1 {
        '1'
    } else if d == 2 {
        '2'
    } else if d == 3 {
        '3'
    } else if d == 4 {
        '4'
    } else if d == 5 {
        '5'
    } else if d == 6 {
        '6'
    } else if d == 7 {
        '7'
    } else if d == 8 {
        '8'
    } else {
        '9'
    }
}

/// The decimal writing of a natural number, without leading zeros.
pub open spec fn spec_decimal_chars(n: nat) -> Seq<char>
    decreases n,
{
    if n < 10 {
        seq![spec_digit_char(n as int)]
    } else {
        spec_decimal_chars(n / 10) + seq![spec_digit_char((n % 10) as int)]
    }
}

fn digit_char(d: u32) -> (r: char)
    requires
        d < 10,
    ensures
        r == spec_digit_char(d as int),
{
    if d == 0 {
        '0'
    } else if d == 1 {
        '1'
    } else if d == 2 {
        '2'
    } else if d == 3 {
        '3'
    } else if d == 4 {
        '4'
    } else if d == 5 {
        '5'
    } else if d == 6 {
        '6'
    } else if d == 7 {
        '7'
    } else if d == 8 {
        '8'
    } else {
        '9'
    }
}

/// Appends the decimal writing of `n` to `out`.
pub fn push_decimal(out: &mut Vec<char>, n: u64)
    ensures
        final(out)@ == old(out)@ + spec_decimal_chars(n as nat),
    decreases n,
{
    if n >= 10 {
        push_decimal(out, n / 10);
    }
    out.push(digit_char((n % 10) as u32));
    assert(out@ =~= old(out)@ + spec_decimal_chars(n as nat));
}

/// The decimal writing of an integer: a `-` before the digits of a negative one.
pub open spec fn spec_signed_decimal_chars(n: int) -> Seq<char> {
    if n < 0 {
        seq!['-'] + spec_decimal_chars((-n) as nat)
    } else {
        spec_decimal_chars(n as nat)
    }
}

/// Appends the decimal writing of `n` to `out`, with a `-` where it is negative.
pub fn push_signed_decimal(out: &mut Vec<char>, n: i64)
    ensures
        final(out)@ == old(out)@ + spec_signed_decimal_chars(n as int),
{
    if n < 0 {
        out.push('-');
        let magnitude: i128 = -(n as i128);
        push_decimal(out, magnitude as u64);
        assert(out@ =~= old(out)@ + spec_signed_decimal_chars(n as int));
    } else {
        push_decimal(out, n as u64);
    }
}

/// Appends the characters of a text to `out`.
pub fn push_text(out: &mut Vec<char>, text: &str)
    ensures
        final(out)@ == old(out)@ + text@,
{
    let chars = text_chars(text);
    let mut i: usize = 0;
    while i < chars.len()
        invariant
            i <= chars@.len(),
            chars@ == text@,
            out@ == old(out)@ + chars@.take(i as int),
        decreases chars.len() - i,
    {
        out.push(chars[i]);
        i = i + 1;
        assert(out@ =~= old(out)@ + chars@.take(i as int));
    }
    assert(chars@.take(chars@.len() as int) =~= chars@);
}

/// Whether a character is white space, as Unicode defines it.
pub open spec fn spec_is_whitespace(c: char) -> bool {
    ('\u{9}' <= c <= '\u{d}') || c == ' ' || c == '\u{85}' || c == '\u{a0}' || c == '\u{1680}' || (
    '\u{2000}' <= c <= '\u{200a}') || c == '\u{2028}' || c == '\u{2029}' || c == '\u{202f}' || c
        == '\u{205f}' || c == '\u{3000}'
}

/// Whether a character is white space, as Unicode defines it.
pub fn is_whitespace(c: char) -> (r: bool)
    ensures
        r == spec_is_whitespace(c),
{
    ('\u{9}' <= c && c <= '\u{d}') || c == ' ' || c == '\u{85}' || c == '\u{a0}' || c == '\u{1680}'
        || ('\u{2000}' <= c && c <= '\u{200a}') || c == '\u{2028}' || c == '\u{2029}' || c
        == '\u{202f}' || c == '\u{205f}' || c == '\u{3000}'
}

/// A text without the white space at its start.
pub open spec fn spec_trim_start(s: Seq<char>) -> Seq<char>
    decreases s.len(),
{
    if s.len() > 0 && spec_is_whitespace(s[0]) {
        spec_trim_start(s.drop_first())
    } else {
        s
    }
}

/// A text without the white space at its end.
pub open spec fn spec_trim_end(s: Seq<char>) -> Seq<char>
    decreases s.len(),
{
    if s.len() > 0 && spec_is_whitespace(s.last()) {
        spec_trim_end(s.drop_last())
    } else {
        s
    }
}

/// A text without the white space at its start and end.
pub open spec fn spec_trim(s: Seq<char>) -> Seq<char> {
    spec_trim_end(spec_trim_start(s))
}

/// The characters `chars[from..to]` without the white space at their start and end.
pub fn trim_range(chars: &Vec<char>, from: usize, to: usize) -> (r: Vec<char>)
    requires
        from <= to <= chars@.len(),
    ensures
        r@ == spec_trim(chars@.subrange(from as int, to as int)),
{
    let ghost text = chars@.subrange(from as int, to as int);
    let mut start = from;
    while start < to && is_whitespace(chars[start])
        invariant
            from <= start <= to <= chars@.len(),
            text == chars@.subrange(from as int, to as int),
            spec_trim_start(text) == spec_trim_start(chars@.subrange(start as int, to as int)),
        decreases to - start,
    {
        assert(chars@.subrange(start as int, to as int).drop_first() =~= chars@.subrange(
            start + 1,
            to as int,
        ));
        start = start + 1;
    }
    let ghost trimmed_start = chars@.subrange(start as int, to as int);
    assert(spec_trim_start(text) == trimmed_start);
    let mut end = to;
    while end > start && is_whitespace(chars[end - 1])
        invariant
            from <= start <= end <= to <= chars@.len(),
            spec_trim_end(trimmed_start) == spec_trim_end(chars@.subrange(start as int, end as int)),
            trimmed_start == chars@.subrange(start as int, to as int),
        decreases end - start,
    {
        assert(chars@.subrange(start as int, end as int).drop_last() =~= chars@.subrange(
            start as int,
            end - 1,
        ));
        end = end - 1;
    }
    let mut out: Vec<char> = Vec::new();
    let mut i = start;
    while i < end
        invariant
            start <= i <= end <= chars@.len(),
            out@ == chars@.subrange(start as int, i as int),
        decreases end - i,
    {
        out.push(chars[i]);
        i = i + 1;
        assert(out@ =~= chars@.subrange(start as int, i as int));
    }
    out
}

} // verus!
