use vstd::prelude::*;
use vstd::utf8::encode_utf8;

use crate::lua4::number::{spec_checked_int, spec_saturating_int, Lua4Number};
use crate::lua4::value::{Lua4Value, LuaValueConversionError};

verus! {

/// Whether a byte is an ASCII decimal digit.
pub open spec fn spec_is_digit(b: u8) -> bool {
    48 <= b <= 57
}

/// The decimal value of a sequence of digits.
pub open spec fn spec_decimal_value(digits: Seq<u8>) -> int
    decreases digits.len(),
{
    if digits.len() == 0 {
        0
    } else {
        spec_decimal_value(digits.drop_last()) * 10 + (digits.last() - 48)
    }
}

/// The digits of an unsigned decimal number: the text without one leading `+`.
pub open spec fn spec_unsigned_digits(text: Seq<u8>) -> Seq<u8> {
    if text.len() > 0 && text[0] == 43 {
        text.drop_first()
    } else {
        text
    }
}

/// The `usize` that a text denotes, as `str::parse::<usize>` reads it: an optional `+`
/// followed by one or more decimal digits and nothing else, whose value fits.
pub open spec fn spec_parse_usize(text: Seq<u8>) -> Option<int> {
    let digits = spec_unsigned_digits(text);
    if digits.len() > 0 && (forall|i: int| 0 <= i < digits.len() ==> spec_is_digit(#[trigger] digits[i]))
        && spec_decimal_value(digits) <= usize::MAX {
        Some(spec_decimal_value(digits))
    } else {
        None
    }
}

/// The `usize` that a value converts to, if it converts: a number truncated toward
/// zero when it is finite and fits; a string read as a decimal `usize`.
pub open spec fn spec_value_to_usize(value: Lua4Value) -> Option<int> {
    match value {
        Lua4Value::Number(n) => spec_checked_int(n.bits, 0, usize::MAX as int),
        Lua4Value::String(s) => spec_parse_usize(encode_utf8(s@)),
        _ => None,
    }
}

proof fn lemma_decimal_value_grows(digits: Seq<u8>, k: int)
    requires
        0 <= k <= digits.len(),
        forall|i: int| 0 <= i < digits.len() ==> spec_is_digit(#[trigger] digits[i]),
    ensures
        spec_decimal_value(digits.take(k)) <= spec_decimal_value(digits),
        0 <= spec_decimal_value(digits.take(k)),
    decreases digits.len() - k,
{
    if k < digits.len() {
        lemma_decimal_value_grows(digits, k + 1);
        assert(digits.take(k + 1).drop_last() =~= digits.take(k));
        assert(spec_is_digit(digits[k]));
    } else {
        assert(digits.take(k) =~= digits);
    }
    lemma_decimal_value_nonnegative(digits.take(k));
}

proof fn lemma_decimal_value_nonnegative(digits: Seq<u8>)
    requires
        forall|i: int| 0 <= i < digits.len() ==> spec_is_digit(#[trigger] digits[i]),
    ensures
        spec_decimal_value(digits) >= 0,
    decreases digits.len(),
{
    if digits.len() > 0 {
        assert(spec_is_digit(digits[digits.len() - 1]));
        lemma_decimal_value_nonnegative(digits.drop_last());
    }
}

/// The `usize` that a text denotes, read as `str::parse::<usize>` reads it.
pub fn parse_usize(text: &str) -> (r: Option<usize>)
    ensures
        r matches Some(v) ==> spec_parse_usize(encode_utf8(text@)) == Some(v as int),
        r is None ==> spec_parse_usize(encode_utf8(text@)) is None,
{
    let bytes = text.as_bytes();
    let ghost all = bytes@;
    let start: usize = if bytes.len() > 0 && bytes[0] == 43 {
        1
    } else {
        0
    };
    let ghost digits = spec_unsigned_digits(all);
    assert(digits =~= all.skip(start as int));
    if start >= bytes.len() {
        return None;
    }
    let mut value: usize = 0;
    let mut i: usize = start;
    while i < bytes.len()
        invariant
            start <= i <= bytes@.len(),
            bytes@ == all,
            all == encode_utf8(text@),
            digits == spec_unsigned_digits(all),
            digits =~= all.skip(start as int),
            digits.len() > 0,
            forall|j: int| 0 <= j < i - start ==> spec_is_digit(#[trigger] digits[j]),
            value == spec_decimal_value(digits.take(i - start)),
        decreases bytes.len() - i,
    {
        let b = bytes[i];
        assert(b == digits[i - start]);
        if b < 48 || b > 57 {
            assert(!spec_is_digit(digits[i - start]));
            return None;
        }
        let d = (b - 48) as usize;
        assert(digits.take(i - start + 1).drop_last() =~= digits.take(i - start));
        if value > (usize::MAX - d) / 10 {
            proof {
                assert(value * 10 + d > usize::MAX) by (nonlinear_arith)
                    requires
                        value > (usize::MAX - d) / 10,
                        d <= 9,
                ;
                if forall|j: int| 0 <= j < digits.len() ==> spec_is_digit(#[trigger] digits[j]) {
                    lemma_decimal_value_grows(digits, i - start + 1);
                }
            }
            return None;
        }
        assert(value * 10 + d <= usize::MAX) by (nonlinear_arith)
            requires
                value <= (usize::MAX - d) / 10,
                d <= 9,
        ;
        value = value * 10 + d;
        i = i + 1;
    }
    assert(digits.take(digits.len() as int) =~= digits);
    Some(value)
}

impl Lua4Value {
    /// The value as a `usize`: a number truncated toward zero when it is finite and
    /// fits; a string read as a decimal `usize`.
    pub fn to_usize(&self) -> (r: Result<usize, LuaValueConversionError>)
        ensures
            r matches Ok(v) ==> spec_value_to_usize(*self) == Some(v as int),
            r is Err ==> spec_value_to_usize(*self) is None,
            match *self {
                Lua4Value::Number(n) => match spec_checked_int(n.bits, 0, usize::MAX as int) {
                    Some(v) => r == Ok::<usize, LuaValueConversionError>(v as usize),
                    None => r == Err::<usize, LuaValueConversionError>(
                        LuaValueConversionError::InvalidType,
                    ),
                },
                Lua4Value::String(s) => match spec_parse_usize(encode_utf8(s@)) {
                    Some(v) => r == Ok::<usize, LuaValueConversionError>(v as usize),
                    None => r == Err::<usize, LuaValueConversionError>(
                        LuaValueConversionError::InvalidType,
                    ),
                },
                _ => r == Err::<usize, LuaValueConversionError>(
                    LuaValueConversionError::InvalidType,
                ),
            },
    {
        match self {
            Lua4Value::Number(number) => match number.to_usize() {
                Some(v) => Ok(v),
                None => Err(LuaValueConversionError::InvalidType),
            },
            Lua4Value::String(string) => match parse_usize(string.as_str()) {
                Some(v) => Ok(v),
                None => Err(LuaValueConversionError::InvalidType),
            },
            _ => Err(LuaValueConversionError::InvalidType),
        }
    }

    /// The value as an `i32`: a number truncated toward zero when it is finite and fits;
    /// for a string, `parsed` is the number that the string denotes as a float, if it
    /// denotes one, converted as Rust's `as` converts a float.
    pub fn to_i32(&self, parsed: Option<Lua4Number>) -> (r: Result<i32, LuaValueConversionError>)
        ensures
            match *self {
                Lua4Value::Number(n) => match spec_checked_int(
                    n.bits,
                    i32::MIN as int,
                    i32::MAX as int,
                ) {
                    Some(v) => r == Ok::<i32, LuaValueConversionError>(v as i32),
                    None => r == Err::<i32, LuaValueConversionError>(
                        LuaValueConversionError::InvalidType,
                    ),
                },
                Lua4Value::String(_) => match parsed {
                    Some(p) => r == Ok::<i32, LuaValueConversionError>(
                        spec_saturating_int(p.bits, i32::MIN as int, i32::MAX as int) as i32,
                    ),
                    None => r == Err::<i32, LuaValueConversionError>(
                        LuaValueConversionError::InvalidType,
                    ),
                },
                _ => r == Err::<i32, LuaValueConversionError>(
                    LuaValueConversionError::InvalidType,
                ),
            },
    {
        match self {
            Lua4Value::Number(number) => match number.to_i32() {
                Some(v) => Ok(v),
                None => Err(LuaValueConversionError::InvalidType),
            },
            Lua4Value::String(_) => match parsed {
                Some(p) => Ok(p.to_i32_saturating()),
                None => Err(LuaValueConversionError::InvalidType),
            },
            _ => Err(LuaValueConversionError::InvalidType),
        }
    }

    /// The value as an `i64`: a number truncated toward zero when it is finite and fits;
    /// for a string, `parsed` is the number that the string denotes as a float, if it
    /// denotes one, converted as Rust's `as` converts a float.
    pub fn to_i64(&self, parsed: Option<Lua4Number>) -> (r: Result<i64, LuaValueConversionError>)
        ensures
            match *self {
                Lua4Value::Number(n) => match spec_checked_int(
                    n.bits,
                    i64::MIN as int,
                    i64::MAX as int,
                ) {
                    Some(v) => r == Ok::<i64, LuaValueConversionError>(v as i64),
                    None => r == Err::<i64, LuaValueConversionError>(
                        LuaValueConversionError::InvalidType,
                    ),
                },
                Lua4Value::String(_) => match parsed {
                    Some(p) => r == Ok::<i64, LuaValueConversionError>(
                        spec_saturating_int(p.bits, i64::MIN as int, i64::MAX as int) as i64,
                    ),
                    None => r == Err::<i64, LuaValueConversionError>(
                        LuaValueConversionError::InvalidType,
                    ),
                },
                _ => r == Err::<i64, LuaValueConversionError>(
                    LuaValueConversionError::InvalidType,
                ),
            },
    {
        match self {
            Lua4Value::Number(number) => match number.to_i64() {
                Some(v) => Ok(v),
                None => Err(LuaValueConversionError::InvalidType),
            },
            Lua4Value::String(_) => match parsed {
                Some(p) => Ok(p.to_i64_saturating()),
                None => Err(LuaValueConversionError::InvalidType),
            },
            _ => Err(LuaValueConversionError::InvalidType),
        }
    }

    /// The value as a number: a number itself; for a string, `parsed` is the number
    /// that the string denotes as a float, if it denotes one.
    pub fn to_number(&self, parsed: Option<Lua4Number>) -> (r: Result<
        Lua4Number,
        LuaValueConversionError,
    >)
        ensures
            match *self {
                Lua4Value::Number(n) => r == Ok::<Lua4Number, LuaValueConversionError>(n),
                Lua4Value::String(_) => match parsed {
                    Some(p) => r == Ok::<Lua4Number, LuaValueConversionError>(p),
                    None => r == Err::<Lua4Number, LuaValueConversionError>(
                        LuaValueConversionError::InvalidType,
                    ),
                },
                _ => r == Err::<Lua4Number, LuaValueConversionError>(
                    LuaValueConversionError::InvalidType,
                ),
            },
    {
        match self {
            Lua4Value::Number(number) => Ok(*number),
            Lua4Value::String(_) => match parsed {
                Some(p) => Ok(p),
                None => Err(LuaValueConversionError::InvalidType),
            },
            _ => Err(LuaValueConversionError::InvalidType),
        }
    }

    /// The value as text: a string itself; for a number, `formatted_number` is the
    /// number written as Rust's `Display` writes a float.
    pub fn to_string(&self, formatted_number: String) -> (r: Result<
        String,
        LuaValueConversionError,
    >)
        ensures
            match *self {
                Lua4Value::Number(_) => r == Ok::<String, LuaValueConversionError>(
                    formatted_number,
                ),
                Lua4Value::String(s) => r == Ok::<String, LuaValueConversionError>(s),
                _ => r == Err::<String, LuaValueConversionError>(
                    LuaValueConversionError::InvalidType,
                ),
            },
    {
        match self {
            Lua4Value::Number(_) => Ok(formatted_number),
            Lua4Value::String(string) => Ok(string.clone()),
            _ => Err(LuaValueConversionError::InvalidType),
        }
    }
}

} // verus!
