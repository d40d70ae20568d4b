use std::sync::Arc;

use vstd::prelude::*;
use vstd::utf8::encode_utf8;

use crate::lua4::instruction::Lua4Instruction;
use crate::lua4::number::{
    spec_number_eq, spec_number_le, spec_number_lt, Lua4Number,
};

verus! {

/// A compiled Lua 4.0 function prototype.
#[derive(Debug)]
pub struct Lua4Function {
    pub num_parameters: u32,
    pub max_stack_size: u32,
    pub instructions: Vec<Lua4Instruction>,
    pub constant_strings: Vec<String>,
    pub constant_numbers: Vec<Lua4Number>,
    pub constant_functions: Vec<Arc<Lua4Function>>,
}

/// A value of the Lua virtual machine.
///
/// `UserData` holds the key by which the embedding program finds its own value again.
#[derive(Debug)]
pub enum Lua4Value {
    Nil,
    UserData(u64),
    Number(Lua4Number),
    String(String),
    Table,
    Closure(Arc<Lua4Function>, Arc<Vec<Lua4Value>>),
    RustClosure(String),
}

/// Error of converting a value to another type.
#[derive(Copy, Clone, Debug, PartialEq, Eq, Structural)]
pub enum LuaValueConversionError {
    InvalidType,
}

/// Byte-wise lexicographic order: the order of `str` and `String`.
pub open spec fn spec_bytes_lt(a: Seq<u8>, b: Seq<u8>) -> bool
    decreases a.len(),
{
    if a.len() == 0 {
        b.len() > 0
    } else if b.len() == 0 {
        false
    } else if a[0] < b[0] {
        true
    } else if a[0] > b[0] {
        false
    } else {
        spec_bytes_lt(a.drop_first(), b.drop_first())
    }
}

/// String order: lexicographic over the UTF-8 bytes.
pub open spec fn spec_string_lt(a: Seq<char>, b: Seq<char>) -> bool {
    spec_bytes_lt(encode_utf8(a), encode_utf8(b))
}

/// Value equality: nil equals nil, numbers compare as IEEE 754 values, strings by their
/// characters; user data and closures equal nothing. Tables are left out: comparing one
/// is not implemented.
pub open spec fn spec_value_eq(a: Lua4Value, b: Lua4Value) -> bool {
    match a {
        Lua4Value::Nil => b is Nil,
        Lua4Value::Number(x) => b matches Lua4Value::Number(y) && spec_number_eq(x.bits, y.bits),
        Lua4Value::String(s) => b matches Lua4Value::String(t) && s@ == t@,
        _ => false,
    }
}

/// Value `<`: only two numbers or two strings are ordered.
pub open spec fn spec_value_lt(a: Lua4Value, b: Lua4Value) -> bool {
    match a {
        Lua4Value::Number(x) => b matches Lua4Value::Number(y) && spec_number_lt(x.bits, y.bits),
        Lua4Value::String(s) => b matches Lua4Value::String(t) && spec_string_lt(s@, t@),
        _ => false,
    }
}

/// Value `<=`: only two numbers or two strings are ordered.
pub open spec fn spec_value_le(a: Lua4Value, b: Lua4Value) -> bool {
    match a {
        Lua4Value::Number(x) => b matches Lua4Value::Number(y) && spec_number_le(x.bits, y.bits),
        Lua4Value::String(s) => b matches Lua4Value::String(t) && (spec_string_lt(s@, t@) || s@
            == t@),
        _ => false,
    }
}

/// Another pointer to the same shared value.
///
/// Wraps `Arc::clone`, which the standard library documents as making a new `Arc`
/// pointing to the same allocation; the contract states that the result is the same
/// value.
#[verifier::external_body]
pub(crate) fn share<T>(shared: &Arc<T>) -> (r: Arc<T>)
    ensures
        r == *shared,
{
    Arc::clone(shared)
}

/// Whether `a` orders before `b` byte by byte.
pub fn bytes_less(a: &[u8], b: &[u8]) -> (r: bool)
    ensures
        r == spec_bytes_lt(a@, b@),
{
    let mut i: usize = 0;
    assert(a@.skip(0) =~= a@);
    assert(b@.skip(0) =~= b@);
    while i < a.len() && i < b.len()
        invariant
            i <= a.len(),
            i <= b.len(),
            spec_bytes_lt(a@, b@) == spec_bytes_lt(a@.skip(i as int), b@.skip(i as int)),
        decreases a.len() - i,
    {
        if a[i] < b[i] {
            return true;
        }
        if a[i] > b[i] {
            return false;
        }
        assert(a@.skip(i as int).drop_first() =~= a@.skip(i + 1));
        assert(b@.skip(i as int).drop_first() =~= b@.skip(i + 1));
        i = i + 1;
    }
    i == a.len() && i < b.len()
}

/// Whether `a` orders before `b` as strings.
pub fn string_less(a: &String, b: &String) -> (r: bool)
    ensures
        r == spec_string_lt(a@, b@),
{
    bytes_less(a.as_str().as_bytes(), b.as_str().as_bytes())
}

impl Lua4Value {
    /// A copy of the value, equal to it.
    pub fn duplicate(&self) -> (r: Self)
        ensures
            r == *self,
    {
        match self {
            Lua4Value::Nil => Lua4Value::Nil,
            Lua4Value::UserData(key) => Lua4Value::UserData(*key),
            Lua4Value::Number(n) => Lua4Value::Number(*n),
            Lua4Value::String(s) => Lua4Value::String(s.clone()),
            Lua4Value::Table => Lua4Value::Table,
            Lua4Value::Closure(function, upvalues) => Lua4Value::Closure(
                share(function),
                share(upvalues),
            ),
            Lua4Value::RustClosure(name) => Lua4Value::RustClosure(name.clone()),
        }
    }

    /// Value equality. Comparing a table is not implemented.
    pub fn eq(&self, other: &Self) -> (r: bool)
        requires
            !(self is Table),
        ensures
            r == spec_value_eq(*self, *other),
    {
        match self {
            Lua4Value::Nil => matches!(other, Lua4Value::Nil),
            Lua4Value::Number(value) => {
                if let Lua4Value::Number(other) = other {
                    value.num_eq(other)
                } else {
                    false
                }
            },
            Lua4Value::String(value) => {
                if let Lua4Value::String(other) = other {
                    *value == *other
                } else {
                    false
                }
            },
            _ => false,
        }
    }

    /// Value `<`.
    pub fn lt(&self, other: &Self) -> (r: bool)
        ensures
            r == spec_value_lt(*self, *other),
    {
        match self {
            Lua4Value::Number(value) => {
                if let Lua4Value::Number(other) = other {
                    value.num_lt(other)
                } else {
                    false
                }
            },
            Lua4Value::String(value) => {
                if let Lua4Value::String(other) = other {
                    string_less(value, other)
                } else {
                    false
                }
            },
            _ => false,
        }
    }

    /// Value `<=`.
    pub fn le(&self, other: &Self) -> (r: bool)
        ensures
            r == spec_value_le(*self, *other),
    {
        match self {
            Lua4Value::Number(value) => {
                if let Lua4Value::Number(other) = other {
                    value.num_le(other)
                } else {
                    false
                }
            },
            Lua4Value::String(value) => {
                if let Lua4Value::String(other) = other {
                    string_less(value, other) || *value == *other
                } else {
                    false
                }
            },
            _ => false,
        }
    }

    /// Value `>`: `other < self`.
    pub fn gt(&self, other: &Self) -> (r: bool)
        ensures
            r == spec_value_lt(*other, *self),
    {
        other.lt(self)
    }

    /// Value `>=`: `other <= self`.
    pub fn ge(&self, other: &Self) -> (r: bool)
        ensures
            r == spec_value_le(*other, *self),
    {
        other.le(self)
    }
}

/// Copies of a sequence of values, equal to them.
pub fn duplicate_values(values: &[Lua4Value]) -> (r: Vec<Lua4Value>)
    ensures
        r@ == values@,
{
    let mut result: Vec<Lua4Value> = Vec::new();
    let mut i: usize = 0;
    while i < values.len()
        invariant
            i <= values.len(),
            result@ == values@.subrange(0, i as int),
        decreases values.len() - i,
    {
        result.push(values[i].duplicate());
        assert(result@ =~= values@.subrange(0, i + 1));
        i = i + 1;
    }
    assert(values@.subrange(0, values.len() as int) =~= values@);
    result
}

} // verus!
