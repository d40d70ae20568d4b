use vstd::prelude::*;

use crate::text::{chars_text, push_decimal, spec_decimal_chars};

verus! {

/// A decoded Lua 4.0 virtual machine instruction.
///
/// An instruction word holds the opcode in its low 6 bits. The remaining 26 bits are
/// either one unsigned argument `U`, one signed argument `S` (stored with an excess of
/// `2^25 - 1`), or two unsigned arguments: `A` in the high 17 bits and `B` in the 9 bits
/// above the opcode.
#[allow(non_camel_case_types)]
#[derive(Debug, Copy, Clone, PartialEq, Eq, Structural)]
pub enum Lua4Instruction {
    OP_END,
    OP_RETURN(u32),
    OP_CALL(u32, u32),
    OP_TAILCALL(u32, u32),
    OP_PUSHNIL(u32),
    OP_POP(u32),
    OP_PUSHINT(i32),
    OP_PUSHSTRING(u32),
    OP_PUSHNUM(u32),
    OP_PUSHNEGNUM(u32),
    OP_PUSHUPVALUE(u32),
    OP_GETLOCAL(u32),
    OP_GETGLOBAL(u32),
    OP_GETTABLE,
    OP_GETDOTTED(u32),
    OP_GETINDEXED(u32),
    OP_PUSHSELF(u32),
    OP_CREATETABLE(u32),
    OP_SETLOCAL(u32),
    OP_SETGLOBAL(u32),
    OP_SETTABLE(u32, u32),
    OP_SETLIST(u32, u32),
    OP_SETMAP(u32),
    OP_ADD,
    OP_ADDI(i32),
    OP_SUB,
    OP_MULT,
    OP_DIV,
    OP_POW,
    OP_CONCAT(u32),
    OP_MINUS,
    OP_NOT,
    OP_JMPNE(i32),
    OP_JMPEQ(i32),
    OP_JMPLT(i32),
    OP_JMPLE(i32),
    OP_JMPGT(i32),
    OP_JMPGE(i32),
    OP_JMPT(i32),
    OP_JMPF(i32),
    OP_JMPONT(i32),
    OP_JMPONF(i32),
    OP_JMP(i32),
    OP_PUSHNILJMP,
    OP_FORPREP(i32),
    OP_FORLOOP(i32),
    OP_LFORPREP(i32),
    OP_LFORLOOP(i32),
    OP_CLOSURE(u32, u32),
}

/// Number of distinct opcodes of the instruction set.
pub const LUA4_OPCODE_COUNT: u32 = 49;

/// The excess with which the signed argument `S` is stored: `(2^26 - 1) / 2`.
pub const LUA4_ARG_S_EXCESS: u32 = 33554431;

/// The opcode field of an instruction word: its low 6 bits.
pub open spec fn spec_opcode(instruction: u32) -> u32 {
    instruction % 64
}

/// The unsigned argument `U`: every bit above the opcode.
pub open spec fn spec_arg_u(instruction: u32) -> u32 {
    instruction / 64
}

/// The signed argument `S`: `U` minus the excess `(2^26 - 1) / 2`.
pub open spec fn spec_arg_s(instruction: u32) -> int {
    spec_arg_u(instruction) - LUA4_ARG_S_EXCESS
}

/// The argument `A`: the high 17 bits of the word.
pub open spec fn spec_arg_a(instruction: u32) -> u32 {
    instruction / 32768
}

/// The argument `B`: the 9 bits directly above the opcode.
pub open spec fn spec_arg_b(instruction: u32) -> u32 {
    (instruction / 64) % 512
}

/// The instruction that a word encodes, or `None` when its opcode is not one of the
/// instruction set.
pub open spec fn spec_decode(instruction: u32) -> Option<Lua4Instruction> {
    let opcode = spec_opcode(instruction);
    if opcode == 0 {
        Some(Lua4Instruction::OP_END)
    } else if opcode == 1 {
        Some(Lua4Instruction::OP_RETURN(spec_arg_u(instruction)))
    } else if opcode == 2 {
        Some(Lua4Instruction::OP_CALL(spec_arg_a(instruction), spec_arg_b(instruction)))
    } else if opcode == 3 {
        Some(Lua4Instruction::OP_TAILCALL(spec_arg_a(instruction), spec_arg_b(instruction)))
    } else if opcode == 4 {
        Some(Lua4Instruction::OP_PUSHNIL(spec_arg_u(instruction)))
    } else if opcode == 5 {
        Some(Lua4Instruction::OP_POP(spec_arg_u(instruction)))
    } else if opcode == 6 {
        Some(Lua4Instruction::OP_PUSHINT(spec_arg_s(instruction) as i32))
    } else if opcode == 7 {
        Some(Lua4Instruction::OP_PUSHSTRING(spec_arg_u(instruction)))
    } else if opcode == 8 {
        Some(Lua4Instruction::OP_PUSHNUM(spec_arg_u(instruction)))
    } else if opcode == 9 {
        Some(Lua4Instruction::OP_PUSHNEGNUM(spec_arg_u(instruction)))
    } else if opcode == 10 {
        Some(Lua4Instruction::OP_PUSHUPVALUE(spec_arg_u(instruction)))
    } else if opcode == 11 {
        Some(Lua4Instruction::OP_GETLOCAL(spec_arg_u(instruction)))
    } else if opcode == 12 {
        Some(Lua4Instruction::OP_GETGLOBAL(spec_arg_u(instruction)))
    } else if opcode == 13 {
        Some(Lua4Instruction::OP_GETTABLE)
    } else if opcode == 14 {
        Some(Lua4Instruction::OP_GETDOTTED(spec_arg_u(instruction)))
    } else if opcode == 15 {
        Some(Lua4Instruction::OP_GETINDEXED(spec_arg_u(instruction)))
    } else if opcode == 16 {
        Some(Lua4Instruction::OP_PUSHSELF(spec_arg_u(instruction)))
    } else if opcode == 17 {
        Some(Lua4Instruction::OP_CREATETABLE(spec_arg_u(instruction)))
    } else if opcode == 18 {
        Some(Lua4Instruction::OP_SETLOCAL(spec_arg_u(instruction)))
    } else if opcode == 19 {
        Some(Lua4Instruction::OP_SETGLOBAL(spec_arg_u(instruction)))
    } else if opcode == 20 {
        Some(Lua4Instruction::OP_SETTABLE(spec_arg_a(instruction), spec_arg_b(instruction)))
    } else if opcode == 21 {
        Some(Lua4Instruction::OP_SETLIST(spec_arg_a(instruction), spec_arg_b(instruction)))
    } else if opcode == 22 {
        Some(Lua4Instruction::OP_SETMAP(spec_arg_u(instruction)))
    } else if opcode == 23 {
        Some(Lua4Instruction::OP_ADD)
    } else if opcode == 24 {
        Some(Lua4Instruction::OP_ADDI(spec_arg_s(instruction) as i32))
    } else if opcode == 25 {
        Some(Lua4Instruction::OP_SUB)
    } else if opcode == 26 {
        Some(Lua4Instruction::OP_MULT)
    } else if opcode == 27 {
        Some(Lua4Instruction::OP_DIV)
    } else if opcode == 28 {
        Some(Lua4Instruction::OP_POW)
    } else if opcode == 29 {
        Some(Lua4Instruction::OP_CONCAT(spec_arg_u(instruction)))
    } else if opcode == 30 {
        Some(Lua4Instruction::OP_MINUS)
    } else if opcode == 31 {
        Some(Lua4Instruction::OP_NOT)
    } else if opcode == 32 {
        Some(Lua4Instruction::OP_JMPNE(spec_arg_s(instruction) as i32))
    } else if opcode == 33 {
        Some(Lua4Instruction::OP_JMPEQ(spec_arg_s(instruction) as i32))
    } else if opcode == 34 {
        Some(Lua4Instruction::OP_JMPLT(spec_arg_s(instruction) as i32))
    } else if opcode == 35 {
        Some(Lua4Instruction::OP_JMPLE(spec_arg_s(instruction) as i32))
    } else if opcode == 36 {
        Some(Lua4Instruction::OP_JMPGT(spec_arg_s(instruction) as i32))
    } else if opcode == 37 {
        Some(Lua4Instruction::OP_JMPGE(spec_arg_s(instruction) as i32))
    } else if opcode == 38 {
        Some(Lua4Instruction::OP_JMPT(spec_arg_s(instruction) as i32))
    } else if opcode == 39 {
        Some(Lua4Instruction::OP_JMPF(spec_arg_s(instruction) as i32))
    } else if opcode == 40 {
        Some(Lua4Instruction::OP_JMPONT(spec_arg_s(instruction) as i32))
    } else if opcode == 41 {
        Some(Lua4Instruction::OP_JMPONF(spec_arg_s(instruction) as i32))
    } else if opcode == 42 {
        Some(Lua4Instruction::OP_JMP(spec_arg_s(instruction) as i32))
    } else if opcode == 43 {
        Some(Lua4Instruction::OP_PUSHNILJMP)
    } else if opcode == 44 {
        Some(Lua4Instruction::OP_FORPREP(spec_arg_s(instruction) as i32))
    } else if opcode == 45 {
        Some(Lua4Instruction::OP_FORLOOP(spec_arg_s(instruction) as i32))
    } else if opcode == 46 {
        Some(Lua4Instruction::OP_LFORPREP(spec_arg_s(instruction) as i32))
    } else if opcode == 47 {
        Some(Lua4Instruction::OP_LFORLOOP(spec_arg_s(instruction) as i32))
    } else if opcode == 48 {
        Some(Lua4Instruction::OP_CLOSURE(spec_arg_a(instruction), spec_arg_b(instruction)))
    } else {
        None
    }
}

/// The opcode of an instruction: its position in the instruction set, counted from 0 in
/// the order the instructions are listed.
pub open spec fn spec_opcode_of(instruction: Lua4Instruction) -> u32 {
    match instruction {
        Lua4Instruction::OP_END => 0,
        Lua4Instruction::OP_RETURN(_) => 1,
        Lua4Instruction::OP_CALL(_, _) => 2,
        Lua4Instruction::OP_TAILCALL(_, _) => 3,
        Lua4Instruction::OP_PUSHNIL(_) => 4,
        Lua4Instruction::OP_POP(_) => 5,
        Lua4Instruction::OP_PUSHINT(_) => 6,
        Lua4Instruction::OP_PUSHSTRING(_) => 7,
        Lua4Instruction::OP_PUSHNUM(_) => 8,
        Lua4Instruction::OP_PUSHNEGNUM(_) => 9,
        Lua4Instruction::OP_PUSHUPVALUE(_) => 10,
        Lua4Instruction::OP_GETLOCAL(_) => 11,
        Lua4Instruction::OP_GETGLOBAL(_) => 12,
        Lua4Instruction::OP_GETTABLE => 13,
        Lua4Instruction::OP_GETDOTTED(_) => 14,
        Lua4Instruction::OP_GETINDEXED(_) => 15,
        Lua4Instruction::OP_PUSHSELF(_) => 16,
        Lua4Instruction::OP_CREATETABLE(_) => 17,
        Lua4Instruction::OP_SETLOCAL(_) => 18,
        Lua4Instruction::OP_SETGLOBAL(_) => 19,
        Lua4Instruction::OP_SETTABLE(_, _) => 20,
        Lua4Instruction::OP_SETLIST(_, _) => 21,
        Lua4Instruction::OP_SETMAP(_) => 22,
        Lua4Instruction::OP_ADD => 23,
        Lua4Instruction::OP_ADDI(_) => 24,
        Lua4Instruction::OP_SUB => 25,
        Lua4Instruction::OP_MULT => 26,
        Lua4Instruction::OP_DIV => 27,
        Lua4Instruction::OP_POW => 28,
        Lua4Instruction::OP_CONCAT(_) => 29,
        Lua4Instruction::OP_MINUS => 30,
        Lua4Instruction::OP_NOT => 31,
        Lua4Instruction::OP_JMPNE(_) => 32,
        Lua4Instruction::OP_JMPEQ(_) => 33,
        Lua4Instruction::OP_JMPLT(_) => 34,
        Lua4Instruction::OP_JMPLE(_) => 35,
        Lua4Instruction::OP_JMPGT(_) => 36,
        Lua4Instruction::OP_JMPGE(_) => 37,
        Lua4Instruction::OP_JMPT(_) => 38,
        Lua4Instruction::OP_JMPF(_) => 39,
        Lua4Instruction::OP_JMPONT(_) => 40,
        Lua4Instruction::OP_JMPONF(_) => 41,
        Lua4Instruction::OP_JMP(_) => 42,
        Lua4Instruction::OP_PUSHNILJMP => 43,
        Lua4Instruction::OP_FORPREP(_) => 44,
        Lua4Instruction::OP_FORLOOP(_) => 45,
        Lua4Instruction::OP_LFORPREP(_) => 46,
        Lua4Instruction::OP_LFORLOOP(_) => 47,
        Lua4Instruction::OP_CLOSURE(_, _) => 48,
    }
}

/// The bits above the opcode that an instruction's arguments make: `U` itself, `S` plus
/// the excess, or `A * 512 + B`; none for an instruction without arguments.
pub open spec fn spec_argument_bits_of(instruction: Lua4Instruction) -> Option<int> {
    match instruction {
        Lua4Instruction::OP_END => None,
        Lua4Instruction::OP_RETURN(u) => Some(u as int),
        Lua4Instruction::OP_CALL(a, b) => Some(a * 512 + b),
        Lua4Instruction::OP_TAILCALL(a, b) => Some(a * 512 + b),
        Lua4Instruction::OP_PUSHNIL(u) => Some(u as int),
        Lua4Instruction::OP_POP(u) => Some(u as int),
        Lua4Instruction::OP_PUSHINT(s) => Some(s + LUA4_ARG_S_EXCESS),
        Lua4Instruction::OP_PUSHSTRING(u) => Some(u as int),
        Lua4Instruction::OP_PUSHNUM(u) => Some(u as int),
        Lua4Instruction::OP_PUSHNEGNUM(u) => Some(u as int),
        Lua4Instruction::OP_PUSHUPVALUE(u) => Some(u as int),
        Lua4Instruction::OP_GETLOCAL(u) => Some(u as int),
        Lua4Instruction::OP_GETGLOBAL(u) => Some(u as int),
        Lua4Instruction::OP_GETTABLE => None,
        Lua4Instruction::OP_GETDOTTED(u) => Some(u as int),
        Lua4Instruction::OP_GETINDEXED(u) => Some(u as int),
        Lua4Instruction::OP_PUSHSELF(u) => Some(u as int),
        Lua4Instruction::OP_CREATETABLE(u) => Some(u as int),
        Lua4Instruction::OP_SETLOCAL(u) => Some(u as int),
        Lua4Instruction::OP_SETGLOBAL(u) => Some(u as int),
        Lua4Instruction::OP_SETTABLE(a, b) => Some(a * 512 + b),
        Lua4Instruction::OP_SETLIST(a, b) => Some(a * 512 + b),
        Lua4Instruction::OP_SETMAP(u) => Some(u as int),
        Lua4Instruction::OP_ADD => None,
        Lua4Instruction::OP_ADDI(s) => Some(s + LUA4_ARG_S_EXCESS),
        Lua4Instruction::OP_SUB => None,
        Lua4Instruction::OP_MULT => None,
        Lua4Instruction::OP_DIV => None,
        Lua4Instruction::OP_POW => None,
        Lua4Instruction::OP_CONCAT(u) => Some(u as int),
        Lua4Instruction::OP_MINUS => None,
        Lua4Instruction::OP_NOT => None,
        Lua4Instruction::OP_JMPNE(s) => Some(s + LUA4_ARG_S_EXCESS),
        Lua4Instruction::OP_JMPEQ(s) => Some(s + LUA4_ARG_S_EXCESS),
        Lua4Instruction::OP_JMPLT(s) => Some(s + LUA4_ARG_S_EXCESS),
        Lua4Instruction::OP_JMPLE(s) => Some(s + LUA4_ARG_S_EXCESS),
        Lua4Instruction::OP_JMPGT(s) => Some(s + LUA4_ARG_S_EXCESS),
        Lua4Instruction::OP_JMPGE(s) => Some(s + LUA4_ARG_S_EXCESS),
        Lua4Instruction::OP_JMPT(s) => Some(s + LUA4_ARG_S_EXCESS),
        Lua4Instruction::OP_JMPF(s) => Some(s + LUA4_ARG_S_EXCESS),
        Lua4Instruction::OP_JMPONT(s) => Some(s + LUA4_ARG_S_EXCESS),
        Lua4Instruction::OP_JMPONF(s) => Some(s + LUA4_ARG_S_EXCESS),
        Lua4Instruction::OP_JMP(s) => Some(s + LUA4_ARG_S_EXCESS),
        Lua4Instruction::OP_PUSHNILJMP => None,
        Lua4Instruction::OP_FORPREP(s) => Some(s + LUA4_ARG_S_EXCESS),
        Lua4Instruction::OP_FORLOOP(s) => Some(s + LUA4_ARG_S_EXCESS),
        Lua4Instruction::OP_LFORPREP(s) => Some(s + LUA4_ARG_S_EXCESS),
        Lua4Instruction::OP_LFORLOOP(s) => Some(s + LUA4_ARG_S_EXCESS),
        Lua4Instruction::OP_CLOSURE(a, b) => Some(a * 512 + b),
    }
}

/// Error of decoding an instruction word.
#[derive(Debug, Copy, Clone, PartialEq, Eq, Structural)]
pub enum Lua4InstructionError {
    /// The opcode field holds a value that no instruction uses.
    InvalidOpcode(u32),
}

impl Lua4InstructionError {
    /// The message of the error: `Invalid instruction opcode ` and the opcode.
    pub fn message(&self) -> (r: String)
        ensures
            r@ == match *self {
                Lua4InstructionError::InvalidOpcode(op) => seq![
                    'I', 'n', 'v', 'a', 'l', 'i', 'd', ' ', 'i', 'n', 's', 't', 'r', 'u', 'c', 't',
                    'i', 'o', 'n', ' ', 'o', 'p', 'c', 'o', 'd', 'e', ' ',
                ] + spec_decimal_chars(op as nat),
            },
    {
        match self {
            Lua4InstructionError::InvalidOpcode(op) => {
                let mut chars: Vec<char> = vec![
                    'I', 'n', 'v', 'a', 'l', 'i', 'd', ' ', 'i', 'n', 's', 't', 'r', 'u', 'c', 't',
                    'i', 'o', 'n', ' ', 'o', 'p', 'c', 'o', 'd', 'e', ' ',
                ];
                let ghost start = chars@;
                push_decimal(&mut chars, *op as u64);
                assert(chars@ =~= start + spec_decimal_chars(*op as nat));
                chars_text(&chars)
            },
        }
    }
}

/// The unsigned argument of an instruction word: the bits above the opcode.
pub fn get_arg_u(instruction: u32) -> (u: u32)
    ensures
        u == spec_arg_u(instruction),
{
    assert(instruction >> 6u32 == instruction / 64) by (bit_vector);
    instruction >> 6
}

/// The signed argument of an instruction word: the unsigned one less half its range.
pub fn get_arg_s(instruction: u32) -> (s: i32)
    ensures
        s == spec_arg_s(instruction),
{
    let u = get_arg_u(instruction);
    assert(u <= 67108863) by {
        assert(instruction / 64 <= 67108863) by (bit_vector);
    }
    assert(1i32 << 26u32 == 67108864i32) by (bit_vector);
    assert(67108863i32 >> 1u32 == 33554431i32) by (bit_vector);
    u as i32 - (((1i32 << 26u32) - 1) >> 1u32)
}

/// The `A` argument of an instruction word: the bits above the opcode and `B`.
pub fn get_arg_a(instruction: u32) -> (a: u32)
    ensures
        a == spec_arg_a(instruction),
{
    assert(instruction >> 15u32 == instruction / 32768) by (bit_vector);
    instruction >> (6 + 9)
}

/// The `B` argument of an instruction word: the nine bits above the opcode.
pub fn get_arg_b(instruction: u32) -> (b: u32)
    ensures
        b == spec_arg_b(instruction),
{
    assert((instruction >> 6u32) & 511u32 == (instruction / 64) % 512) by (bit_vector);
    (instruction >> 6) & 0b111111111
}

impl Lua4Instruction {
    /// Decodes an instruction word.
    pub fn from_u32(instruction: u32) -> (result: Result<Self, Lua4InstructionError>)
        ensures
            spec_opcode(instruction) < LUA4_OPCODE_COUNT ==> result == Ok::<Self, Lua4InstructionError>(
                spec_decode(instruction)->0,
            ),
            spec_opcode(instruction) >= LUA4_OPCODE_COUNT ==> result == Err::<Self, Lua4InstructionError>(
                Lua4InstructionError::InvalidOpcode(spec_opcode(instruction)),
            ),
    {
        assert(instruction & 63u32 == instruction % 64) by (bit_vector);
        let opcode = instruction & 0b111111;
        let u = get_arg_u(instruction);
        let s = get_arg_s(instruction);
        let a = get_arg_a(instruction);
        let b = get_arg_b(instruction);

        match opcode {
            0 => Ok(Lua4Instruction::OP_END),
            1 => Ok(Lua4Instruction::OP_RETURN(u)),
            2 => Ok(Lua4Instruction::OP_CALL(a, b)),
            3 => Ok(Lua4Instruction::OP_TAILCALL(a, b)),
            4 => Ok(Lua4Instruction::OP_PUSHNIL(u)),
            5 => Ok(Lua4Instruction::OP_POP(u)),
            6 => Ok(Lua4Instruction::OP_PUSHINT(s)),
            7 => Ok(Lua4Instruction::OP_PUSHSTRING(u)),
            8 => Ok(Lua4Instruction::OP_PUSHNUM(u)),
            9 => Ok(Lua4Instruction::OP_PUSHNEGNUM(u)),
            10 => Ok(Lua4Instruction::OP_PUSHUPVALUE(u)),
            11 => Ok(Lua4Instruction::OP_GETLOCAL(u)),
            12 => Ok(Lua4Instruction::OP_GETGLOBAL(u)),
            13 => Ok(Lua4Instruction::OP_GETTABLE),
            14 => Ok(Lua4Instruction::OP_GETDOTTED(u)),
            15 => Ok(Lua4Instruction::OP_GETINDEXED(u)),
            16 => Ok(Lua4Instruction::OP_PUSHSELF(u)),
            17 => Ok(Lua4Instruction::OP_CREATETABLE(u)),
            18 => Ok(Lua4Instruction::OP_SETLOCAL(u)),
            19 => Ok(Lua4Instruction::OP_SETGLOBAL(u)),
            20 => Ok(Lua4Instruction::OP_SETTABLE(a, b)),
            21 => Ok(Lua4Instruction::OP_SETLIST(a, b)),
            22 => Ok(Lua4Instruction::OP_SETMAP(u)),
            23 => Ok(Lua4Instruction::OP_ADD),
            24 => Ok(Lua4Instruction::OP_ADDI(s)),
            25 => Ok(Lua4Instruction::OP_SUB),
            26 => Ok(Lua4Instruction::OP_MULT),
            27 => Ok(Lua4Instruction::OP_DIV),
            28 => Ok(Lua4Instruction::OP_POW),
            29 => Ok(Lua4Instruction::OP_CONCAT(u)),
            30 => Ok(Lua4Instruction::OP_MINUS),
            31 => Ok(Lua4Instruction::OP_NOT),
            32 => Ok(Lua4Instruction::OP_JMPNE(s)),
            33 => Ok(Lua4Instruction::OP_JMPEQ(s)),
            34 => Ok(Lua4Instruction::OP_JMPLT(s)),
            35 => Ok(Lua4Instruction::OP_JMPLE(s)),
            36 => Ok(Lua4Instruction::OP_JMPGT(s)),
            37 => Ok(Lua4Instruction::OP_JMPGE(s)),
            38 => Ok(Lua4Instruction::OP_JMPT(s)),
            39 => Ok(Lua4Instruction::OP_JMPF(s)),
            40 => Ok(Lua4Instruction::OP_JMPONT(s)),
            41 => Ok(Lua4Instruction::OP_JMPONF(s)),
            42 => Ok(Lua4Instruction::OP_JMP(s)),
            43 => Ok(Lua4Instruction::OP_PUSHNILJMP),
            44 => Ok(Lua4Instruction::OP_FORPREP(s)),
            45 => Ok(Lua4Instruction::OP_FORLOOP(s)),
            46 => Ok(Lua4Instruction::OP_LFORPREP(s)),
            47 => Ok(Lua4Instruction::OP_LFORLOOP(s)),
            48 => Ok(Lua4Instruction::OP_CLOSURE(a, b)),
            invalid => Err(Lua4InstructionError::InvalidOpcode(invalid)),
        }
    }
}

} // verus!
