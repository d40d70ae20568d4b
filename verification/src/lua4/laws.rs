use vstd::arithmetic::div_mod::lemma_div_by_multiple;
use vstd::arithmetic::power2::{lemma2_to64, lemma_pow2_pos, pow2};
use vstd::prelude::*;

use crate::lua4::instruction::{
    spec_arg_a, spec_arg_b, spec_arg_u, spec_argument_bits_of, spec_decode, spec_opcode, spec_opcode_of,
    LUA4_OPCODE_COUNT,
};
use crate::lua4::number::{
    spec_checked_int, spec_denotes_integer, spec_exponent, spec_fraction, spec_is_nan,
    spec_magnitude_bits, spec_number_eq, spec_number_le, spec_number_lt, spec_saturating_int,
    spec_sign_set, spec_trunc_magnitude, Lua4Number, NUMBER_SIGN_BIT,
};
use crate::lua4::vm::spec_negated;
use crate::lua4::value::{spec_value_eq, spec_value_le, spec_value_lt, Lua4Function, Lua4Value};
use crate::lua4::vm::spec_step;
use crate::lua4::instruction::Lua4Instruction;
use crate::lua4::vm::Lua4Step;

verus! {

/// The unsigned argument of an instruction word is its `A` argument followed by its `B`
/// argument: `U = A * 512 + B`.
pub proof fn law_arguments_partition_word(instruction: u32)
    ensures
        spec_arg_u(instruction) == spec_arg_a(instruction) * 512 + spec_arg_b(instruction),
{
    let u = instruction / 64;
    assert(instruction / 32768 == u / 512) by {
        vstd::arithmetic::div_mod::lemma_div_denominator(instruction as int, 64, 512);
    }
}

/// A 32-bit integer converted to a number converts back to itself: the number that
/// denotes `v` truncates to `v` and fits every integer range that holds `v`.
pub proof fn law_integer_round_trip(bits: u64, v: int, lo: int, hi: int)
    requires
        spec_denotes_integer(bits, v),
        lo <= v <= hi,
        i32::MIN <= v <= i32::MAX,
    ensures
        spec_checked_int(bits, lo, hi) == Some(v),
        spec_saturating_int(bits, lo, hi) == v,
{
    if v == 0 {
        assert(bits == 0);
        assert(spec_exponent(0) == 0);
        assert(spec_fraction(0) == 0);
        assert(!spec_sign_set(0));
    } else {
        let e = spec_exponent(bits);
        let k = (1075 - e) as nat;
        let magnitude = if v < 0 {
            -v
        } else {
            v
        };
        let significand = pow2(52) + spec_fraction(bits);
        assert(significand == magnitude * pow2(k));
        lemma_pow2_pos(k);
        if e == 1075 {
            lemma2_to64();
            assert(spec_trunc_magnitude(bits) == significand * pow2(0));
            assert(significand * pow2(0) == significand);
            assert(magnitude * pow2(0) == magnitude);
        } else {
            assert(spec_trunc_magnitude(bits) == significand / (pow2(k) as int));
            lemma_div_by_multiple(magnitude, pow2(k) as int);
        }
        assert(spec_trunc_magnitude(bits) == magnitude);
        assert(!spec_is_nan(bits));
    }
}

/// Negating a number twice gives the number back.
pub proof fn law_negation_involutive(n: Lua4Number)
    ensures
        spec_negated(Lua4Number { bits: spec_negated(n) }) == n.bits,
{
}

/// IEEE 754 equality is symmetric, and no NaN equals itself while every other number
/// does.
pub proof fn law_number_equality(a: u64, b: u64)
    ensures
        spec_number_eq(a, b) == spec_number_eq(b, a),
        spec_number_eq(a, a) == !spec_is_nan(a),
{
}

/// `<=` on numbers is `<` or `==`, `<` is irreflexive and asymmetric, and of two
/// numbers that are not NaN one is `<=` the other.
pub proof fn law_number_order(a: u64, b: u64)
    ensures
        spec_number_le(a, b) == (spec_number_lt(a, b) || spec_number_eq(a, b)),
        !spec_number_lt(a, a),
        spec_number_lt(a, b) ==> !spec_number_lt(b, a),
        !spec_is_nan(a) && !spec_is_nan(b) ==> spec_number_le(a, b) || spec_number_le(b, a),
{
}

/// `<` on numbers is transitive.
pub proof fn law_number_lt_transitive(a: u64, b: u64, c: u64)
    requires
        spec_number_lt(a, b),
        spec_number_lt(b, c),
    ensures
        spec_number_lt(a, c),
{
}

/// Positive and negative zero are equal numbers.
pub proof fn law_zeros_equal()
    ensures
        spec_number_eq(0, NUMBER_SIGN_BIT),
{
    assert(spec_exponent(0) == 0);
    assert(spec_fraction(0) == 0);
    assert(spec_exponent(NUMBER_SIGN_BIT) == 0);
    assert(spec_fraction(NUMBER_SIGN_BIT) == 0);
    assert(spec_magnitude_bits(NUMBER_SIGN_BIT) == 0);
}

/// Value equality is symmetric for values that are not tables.
pub proof fn law_value_equality_symmetric(a: Lua4Value, b: Lua4Value)
    requires
        !(a is Table),
        !(b is Table),
    ensures
        spec_value_eq(a, b) == spec_value_eq(b, a),
{
}

/// Value `<` is irreflexive and asymmetric, and `<=` holds of `<` and of equality.
pub proof fn law_value_order(a: Lua4Value, b: Lua4Value)
    ensures
        !spec_value_lt(a, a),
        spec_value_lt(a, b) ==> !spec_value_lt(b, a),
        spec_value_lt(a, b) ==> spec_value_le(a, b),
        !(a is Table) && spec_value_eq(a, b) && !(a is Nil) ==> spec_value_le(a, b),
{
    match (a, b) {
        (Lua4Value::String(s), Lua4Value::String(t)) => {
            lemma_bytes_lt_irreflexive(vstd::utf8::encode_utf8(s@));
            if spec_value_lt(a, b) {
                lemma_bytes_lt_asymmetric(vstd::utf8::encode_utf8(s@), vstd::utf8::encode_utf8(t@));
            }
        },
        (Lua4Value::String(s), _) => {
            lemma_bytes_lt_irreflexive(vstd::utf8::encode_utf8(s@));
        },
        _ => {},
    }
}

proof fn lemma_bytes_lt_irreflexive(a: Seq<u8>)
    ensures
        !crate::lua4::value::spec_bytes_lt(a, a),
    decreases a.len(),
{
    if a.len() > 0 {
        lemma_bytes_lt_irreflexive(a.drop_first());
    }
}

proof fn lemma_bytes_lt_asymmetric(a: Seq<u8>, b: Seq<u8>)
    requires
        crate::lua4::value::spec_bytes_lt(a, b),
    ensures
        !crate::lua4::value::spec_bytes_lt(b, a),
    decreases a.len(),
{
    if a.len() > 0 && b.len() > 0 && a[0] == b[0] {
        lemma_bytes_lt_asymmetric(a.drop_first(), b.drop_first());
    }
}

/// Pushing `k` nils and then popping `k` values leaves the stack and the globals as
/// they were.
pub proof fn law_push_nil_then_pop(
    function: Lua4Function,
    pc: int,
    k: u32,
    g: Map<Seq<char>, Lua4Value>,
    s: Seq<Lua4Value>,
    g1: Map<Seq<char>, Lua4Value>,
    s1: Seq<Lua4Value>,
    pc1: int,
    step1: Lua4Step,
    g2: Map<Seq<char>, Lua4Value>,
    s2: Seq<Lua4Value>,
    pc2: int,
    step2: Lua4Step,
)
    requires
        0 <= pc,
        pc + 1 < function.instructions@.len(),
        function.instructions@[pc] == Lua4Instruction::OP_PUSHNIL(k),
        function.instructions@[pc + 1] == Lua4Instruction::OP_POP(k),
        spec_step(function, g, s, pc, g1, s1, pc1, step1),
        spec_step(function, g1, s1, pc1, g2, s2, pc2, step2),
    ensures
        step1 is Continue,
        step2 is Continue,
        g2 == g,
        s2 == s,
        pc2 == pc + 2,
{
    assert(s1.len() == s.len() + k);
    assert(s1.subrange(0, s.len() as int) =~= s);
}

/// Setting a global and reading it back gives the value set; every other global keeps
/// its value.
pub proof fn law_global_read_after_write(
    globals: Map<Seq<char>, Lua4Value>,
    name: Seq<char>,
    value: Lua4Value,
    other: Seq<char>,
)
    ensures
        globals.insert(name, value).contains_key(name),
        globals.insert(name, value)[name] == value,
        other != name ==> globals.insert(name, value).contains_key(other) == globals.contains_key(
            other,
        ),
        other != name && globals.contains_key(other) ==> globals.insert(name, value)[other]
            == globals[other],
{
}

/// The number that `OP_PUSHINT(v)` pushes converts back to `v`.
pub proof fn law_pushed_integer_reads_back(
    function: Lua4Function,
    pc: int,
    v: i32,
    g: Map<Seq<char>, Lua4Value>,
    s: Seq<Lua4Value>,
    g1: Map<Seq<char>, Lua4Value>,
    s1: Seq<Lua4Value>,
    pc1: int,
    step: Lua4Step,
)
    requires
        0 <= pc < function.instructions@.len(),
        function.instructions@[pc] == Lua4Instruction::OP_PUSHINT(v),
        spec_step(function, g, s, pc, g1, s1, pc1, step),
    ensures
        s1.len() == s.len() + 1,
        s1.last() matches Lua4Value::Number(x) && spec_checked_int(
            x.bits,
            i32::MIN as int,
            i32::MAX as int,
        ) == Some(v as int),
{
    let n = s.len() as int;
    if let Lua4Value::Number(x) = s1[n] {
        law_integer_round_trip(x.bits, v as int, i32::MIN as int, i32::MAX as int);
    }
}

/// Of `OP_JMPEQ` and `OP_JMPNE` on the same stack, exactly one jumps, when the stack
/// holds two operands and the lower is not a table.
pub proof fn law_equality_jumps_complementary(s: Seq<Lua4Value>, t: i32)
    requires
        s.len() >= 2,
        !(s[s.len() - 2] is Table),
    ensures
        crate::lua4::vm::spec_jump_taken(Lua4Instruction::OP_JMPEQ(t), s)
            != crate::lua4::vm::spec_jump_taken(Lua4Instruction::OP_JMPNE(t), s),
{
}

/// `OP_JMPGT` jumps exactly where `OP_JMPLT` would with the operands swapped.
pub proof fn law_greater_is_swapped_less(lhs: Lua4Value, rhs: Lua4Value, t: i32)
    ensures
        crate::lua4::vm::spec_jump_taken(Lua4Instruction::OP_JMPGT(t), seq![lhs, rhs])
            == crate::lua4::vm::spec_jump_taken(Lua4Instruction::OP_JMPLT(t), seq![rhs, lhs]),
{
}

/// Only a `SETGLOBAL` that goes on changes the globals: every other step, and every
/// step that returns, calls or fails, leaves them as they were.
pub proof fn law_only_setglobal_changes_globals(
    function: Lua4Function,
    g: Map<Seq<char>, Lua4Value>,
    s: Seq<Lua4Value>,
    pc: int,
    g1: Map<Seq<char>, Lua4Value>,
    s1: Seq<Lua4Value>,
    pc1: int,
    step: Lua4Step,
)
    requires
        0 <= pc < function.instructions@.len(),
        spec_step(function, g, s, pc, g1, s1, pc1, step),
        !(function.instructions@[pc] is OP_SETGLOBAL && step is Continue),
    ensures
        g1 == g,
{
}

/// Of two numbers that are not NaN, `OP_JMPGE` jumps exactly where `OP_JMPLT` does not,
/// and `OP_JMPLE` exactly where `OP_JMPGT` does not: in particular both jump on two equal
/// numbers. `OP_JMPGE` jumps exactly where `OP_JMPLE` would with the operands swapped,
/// whatever the operands.
pub proof fn law_ordered_jumps_on_numbers(lhs: Lua4Value, rhs: Lua4Value, t: i32)
    ensures
        crate::lua4::vm::spec_jump_taken(Lua4Instruction::OP_JMPGE(t), seq![lhs, rhs])
            == crate::lua4::vm::spec_jump_taken(Lua4Instruction::OP_JMPLE(t), seq![rhs, lhs]),
        (lhs is Number && rhs is Number && !spec_is_nan(lhs->Number_0.bits) && !spec_is_nan(
            rhs->Number_0.bits,
        )) ==> {
            &&& crate::lua4::vm::spec_jump_taken(Lua4Instruction::OP_JMPGE(t), seq![lhs, rhs])
                == !crate::lua4::vm::spec_jump_taken(Lua4Instruction::OP_JMPLT(t), seq![lhs, rhs])
            &&& crate::lua4::vm::spec_jump_taken(Lua4Instruction::OP_JMPLE(t), seq![lhs, rhs])
                == !crate::lua4::vm::spec_jump_taken(Lua4Instruction::OP_JMPGT(t), seq![lhs, rhs])
        },
        (lhs is Number && !spec_is_nan(lhs->Number_0.bits)) ==> {
            &&& crate::lua4::vm::spec_jump_taken(Lua4Instruction::OP_JMPGE(t), seq![lhs, lhs])
            &&& crate::lua4::vm::spec_jump_taken(Lua4Instruction::OP_JMPLE(t), seq![lhs, lhs])
            &&& !crate::lua4::vm::spec_jump_taken(Lua4Instruction::OP_JMPGT(t), seq![lhs, lhs])
            &&& !crate::lua4::vm::spec_jump_taken(Lua4Instruction::OP_JMPLT(t), seq![lhs, lhs])
        },
{
}

/// Decoding gives back the instruction a word encodes: a word decodes exactly when its
/// low 6 bits are one of the instruction set's opcodes, and then to the instruction at
/// that position in the set, whose arguments make the bits above the opcode (an
/// instruction without arguments ignores them).
pub proof fn law_decode_inverts_encoding(word: u32)
    ensures
        spec_decode(word) is Some <==> spec_opcode(word) < LUA4_OPCODE_COUNT,
        spec_decode(word) matches Some(instruction) ==> spec_opcode_of(instruction) == spec_opcode(
            word,
        ),
        spec_decode(word) matches Some(instruction) ==> (spec_argument_bits_of(instruction) matches Some(
            bits,
        ) ==> bits == spec_arg_u(word)),
{
    law_arguments_partition_word(word);
    assert(spec_arg_u(word) <= 67108863) by {
        assert(word / 64 <= 67108863) by (bit_vector);
    }
}

} // verus!
