use std::sync::Arc;

use vstd::prelude::*;

use crate::lua4::instruction::Lua4Instruction;
use crate::lua4::number::{spec_denotes_integer, spec_sign_set, Lua4Number, NUMBER_SIGN_BIT};
use crate::lua4::value::{
    duplicate_values, share, spec_value_eq, spec_value_le, spec_value_lt, Lua4Function,
    Lua4Value,
};

verus! {

/// Error of running Lua code.
#[derive(Debug)]
pub enum Lua4VMError {
    MissingStackValue,
    GlobalNotFound(String),
    NotClosure,
    Unimplemented(Lua4Instruction),
}

/// What one executed instruction asks of the caller.
#[derive(Debug)]
pub enum Lua4Step {
    /// Go on with the instruction at the new program counter.
    Continue,
    /// The function has finished with these results.
    Return(Vec<Lua4Value>),
    /// Call a Lua function with these parameters; the given number of its results is to
    /// be pushed afterwards.
    CallLua(Arc<Lua4Function>, Vec<Lua4Value>, u32),
    /// Call the named host closure with these parameters; the given number of its
    /// results is to be pushed afterwards.
    CallRust(String, Vec<Lua4Value>, u32),
    /// Execution failed.
    Error(Lua4VMError),
}

/// The Lua virtual machine's global variables.
pub struct Lua4VM {
    globals: Vec<(String, Lua4Value)>,
}

/// The program counter after a jump by `offset` from `next`, as a 32-bit signed sum
/// converted to `usize`.
pub open spec fn spec_jump(next: int, offset: i32) -> int {
    ((next + offset) as usize) as int
}

/// A jump by `offset` from `next` computes its target without overflow.
pub open spec fn spec_jump_defined(next: int, offset: i32) -> bool {
    next <= i32::MAX && i32::MIN <= next + offset <= i32::MAX
}

/// The comparison that a conditional jump on two operands tests, for
/// `lhs` below `rhs` on the stack.
pub open spec fn spec_compare(instruction: Lua4Instruction, lhs: Lua4Value, rhs: Lua4Value) -> bool {
    match instruction {
        Lua4Instruction::OP_JMPNE(_) => !spec_value_eq(lhs, rhs),
        Lua4Instruction::OP_JMPEQ(_) => spec_value_eq(lhs, rhs),
        Lua4Instruction::OP_JMPLT(_) => spec_value_lt(lhs, rhs),
        Lua4Instruction::OP_JMPLE(_) => spec_value_le(lhs, rhs),
        Lua4Instruction::OP_JMPGT(_) => spec_value_lt(rhs, lhs),
        Lua4Instruction::OP_JMPGE(_) => spec_value_le(rhs, lhs),
        _ => false,
    }
}

/// Whether an instruction is one of the six jumps that compare two operands.
pub open spec fn spec_is_compare_jump(instruction: Lua4Instruction) -> bool {
    instruction is OP_JMPNE || instruction is OP_JMPEQ || instruction is OP_JMPLT
        || instruction is OP_JMPLE || instruction is OP_JMPGT || instruction is OP_JMPGE
}

/// The jump offset of a jump instruction.
pub open spec fn spec_jump_offset(instruction: Lua4Instruction) -> i32 {
    match instruction {
        Lua4Instruction::OP_JMPNE(t) => t,
        Lua4Instruction::OP_JMPEQ(t) => t,
        Lua4Instruction::OP_JMPLT(t) => t,
        Lua4Instruction::OP_JMPLE(t) => t,
        Lua4Instruction::OP_JMPGT(t) => t,
        Lua4Instruction::OP_JMPGE(t) => t,
        Lua4Instruction::OP_JMPT(t) => t,
        Lua4Instruction::OP_JMPF(t) => t,
        Lua4Instruction::OP_JMPONT(t) => t,
        Lua4Instruction::OP_JMPONF(t) => t,
        Lua4Instruction::OP_JMP(t) => t,
        _ => 0,
    }
}

/// Whether a jump instruction jumps from the stack `s`, given that it finds the values
/// it inspects there.
pub open spec fn spec_jump_taken(instruction: Lua4Instruction, s: Seq<Lua4Value>) -> bool {
    let n = s.len() as int;
    if spec_is_compare_jump(instruction) {
        n >= 2 && spec_compare(instruction, s[n - 2], s[n - 1])
    } else {
        match instruction {
            Lua4Instruction::OP_JMPT(_) => n >= 1 && !(s[n - 1] is Nil),
            Lua4Instruction::OP_JMPF(_) => n >= 1 && s[n - 1] is Nil,
            Lua4Instruction::OP_JMPONT(_) => n >= 1 && !(s[n - 1] is Nil),
            Lua4Instruction::OP_JMPONF(_) => n >= 1 && s[n - 1] is Nil,
            Lua4Instruction::OP_JMP(_) => true,
            _ => false,
        }
    }
}

/// Whether an instruction is a jump.
pub open spec fn spec_is_jump(instruction: Lua4Instruction) -> bool {
    spec_is_compare_jump(instruction) || instruction is OP_JMPT || instruction is OP_JMPF
        || instruction is OP_JMPONT || instruction is OP_JMPONF || instruction is OP_JMP
}

/// The instruction at `pc` of `function` can be executed on the stack `s`: every index
/// it uses lies in range, a jump it takes computes its target without overflow, and an
/// equality test does not compare a table.
pub open spec fn spec_instruction_defined(function: Lua4Function, s: Seq<Lua4Value>, pc: int) -> bool {
    0 <= pc < function.instructions@.len() && {
        let instruction = function.instructions@[pc];
        let next = pc + 1;
        let n = s.len() as int;
        let strings = function.constant_strings@.len();
        &&& (spec_is_jump(instruction) && spec_jump_taken(instruction, s)) ==> spec_jump_defined(
            next,
            spec_jump_offset(instruction),
        )
        &&& match instruction {
            Lua4Instruction::OP_RETURN(k) => k <= n,
            Lua4Instruction::OP_CALL(a, _) => a + 1 <= n,
            Lua4Instruction::OP_PUSHSTRING(k) => k < strings,
            Lua4Instruction::OP_GETGLOBAL(k) => k < strings,
            Lua4Instruction::OP_SETGLOBAL(k) => k < strings,
            Lua4Instruction::OP_PUSHNUM(k) => k < function.constant_numbers@.len(),
            Lua4Instruction::OP_PUSHNEGNUM(k) => k < function.constant_numbers@.len(),
            Lua4Instruction::OP_SETLOCAL(i) => n == 0 || i < n - 1,
            Lua4Instruction::OP_JMPNE(_) => n >= 2 ==> !(s[n - 2] is Table),
            Lua4Instruction::OP_JMPEQ(_) => n >= 2 ==> !(s[n - 2] is Table),
            Lua4Instruction::OP_PUSHNILJMP => next + 1 <= i32::MAX,
            Lua4Instruction::OP_CLOSURE(k, b) => b <= n && k < function.constant_functions@.len(),
            _ => true,
        }
    }
}

/// The step ends in the error `MissingStackValue` and leaves the globals `g` as `g2`.
pub open spec fn spec_missing(step: Lua4Step, g: Map<Seq<char>, Lua4Value>, g2: Map<Seq<char>, Lua4Value>) -> bool {
    &&& step matches Lua4Step::Error(e) && e is MissingStackValue
    &&& g2 == g
}

/// The step continues at `pc2` with the stack `s2` and the globals `g2`.
pub open spec fn spec_continues(
    step: Lua4Step,
    g: Map<Seq<char>, Lua4Value>,
    g2: Map<Seq<char>, Lua4Value>,
    s2: Seq<Lua4Value>,
    pc2: int,
    expected_stack: Seq<Lua4Value>,
    expected_pc: int,
) -> bool {
    &&& step is Continue
    &&& g2 == g
    &&& s2 == expected_stack
    &&& pc2 == expected_pc
}

/// The sign-flipped bit pattern of a number.
pub open spec fn spec_negated(n: Lua4Number) -> u64 {
    if spec_sign_set(n.bits) {
        (n.bits - NUMBER_SIGN_BIT) as u64
    } else {
        (n.bits + NUMBER_SIGN_BIT) as u64
    }
}

/// Executing the instruction at `pc` of `function`, with the globals `g` and the stack
/// `s`, gives `step` and leaves the globals `g2`, the stack `s2` and the program
/// counter `pc2`.
pub open spec fn spec_step(
    function: Lua4Function,
    g: Map<Seq<char>, Lua4Value>,
    s: Seq<Lua4Value>,
    pc: int,
    g2: Map<Seq<char>, Lua4Value>,
    s2: Seq<Lua4Value>,
    pc2: int,
    step: Lua4Step,
) -> bool {
    let instruction = function.instructions@[pc];
    let next = pc + 1;
    let n = s.len() as int;
    let target = if spec_jump_taken(instruction, s) {
        spec_jump(next, spec_jump_offset(instruction))
    } else {
        next
    };
    if spec_is_compare_jump(instruction) {
        if n < 2 {
            spec_missing(step, g, g2)
        } else {
            spec_continues(step, g, g2, s2, pc2, s.subrange(0, n - 2), target)
        }
    } else {
        match instruction {
            Lua4Instruction::OP_END => step matches Lua4Step::Return(r) && r@ == s && g2 == g,
            Lua4Instruction::OP_RETURN(k) => step matches Lua4Step::Return(r) && r@ == s.subrange(
                k as int,
                n,
            ) && g2 == g,
            Lua4Instruction::OP_CALL(a, b) => {
                let parameters = s.subrange(a + 1, n);
                match s[a as int] {
                    Lua4Value::Closure(callee, _) => {
                        &&& step matches Lua4Step::CallLua(f2, p, r) && f2 == callee && p@
                            == parameters && r == b
                        &&& g2 == g
                        &&& s2 == s.subrange(0, a as int)
                        &&& pc2 == next
                    },
                    Lua4Value::RustClosure(name) => {
                        &&& step matches Lua4Step::CallRust(name2, p, r) && name2@ == name@
                            && p@ == parameters && r == b
                        &&& g2 == g
                        &&& s2 == s.subrange(0, a as int)
                        &&& pc2 == next
                    },
                    _ => step matches Lua4Step::Error(e) && e is NotClosure && g2 == g,
                }
            },
            Lua4Instruction::OP_PUSHNIL(k) => spec_continues(
                step,
                g,
                g2,
                s2,
                pc2,
                s + Seq::new(k as nat, |i: int| Lua4Value::Nil),
                next,
            ),
            Lua4Instruction::OP_POP(k) => spec_continues(
                step,
                g,
                g2,
                s2,
                pc2,
                s.subrange(
                    0,
                    if n >= k {
                        n - k
                    } else {
                        0
                    },
                ),
                next,
            ),
            Lua4Instruction::OP_PUSHINT(v) => {
                &&& step is Continue
                &&& g2 == g
                &&& pc2 == next
                &&& s2.len() == n + 1
                &&& s2.subrange(0, n as int) == s
                &&& s2[n as int] matches Lua4Value::Number(x) && spec_denotes_integer(x.bits, v as int)
            },
            Lua4Instruction::OP_PUSHSTRING(k) => spec_continues(
                step,
                g,
                g2,
                s2,
                pc2,
                s.push(Lua4Value::String(function.constant_strings@[k as int])),
                next,
            ),
            Lua4Instruction::OP_PUSHNUM(k) => spec_continues(
                step,
                g,
                g2,
                s2,
                pc2,
                s.push(Lua4Value::Number(function.constant_numbers@[k as int])),
                next,
            ),
            Lua4Instruction::OP_PUSHNEGNUM(k) => spec_continues(
                step,
                g,
                g2,
                s2,
                pc2,
                s.push(
                    Lua4Value::Number(
                        Lua4Number { bits: spec_negated(function.constant_numbers@[k as int]) },
                    ),
                ),
                next,
            ),
            Lua4Instruction::OP_GETLOCAL(i) => if i < n {
                spec_continues(step, g, g2, s2, pc2, s.push(s[i as int]), next)
            } else {
                spec_missing(step, g, g2)
            },
            Lua4Instruction::OP_GETGLOBAL(k) => {
                let name = function.constant_strings@[k as int]@;
                if g.contains_key(name) {
                    spec_continues(step, g, g2, s2, pc2, s.push(g[name]), next)
                } else {
                    step matches Lua4Step::Error(e) && e matches Lua4VMError::GlobalNotFound(
                        missing,
                    ) && missing@ == name && g2 == g
                }
            },
            Lua4Instruction::OP_SETLOCAL(i) => if n == 0 {
                spec_missing(step, g, g2)
            } else {
                spec_continues(step, g, g2, s2, pc2, s.drop_last().update(i as int, s.last()), next)
            },
            Lua4Instruction::OP_SETGLOBAL(k) => if n == 0 {
                spec_missing(step, g, g2)
            } else {
                &&& step is Continue
                &&& g2 == g.insert(function.constant_strings@[k as int]@, s.last())
                &&& s2 == s.drop_last()
                &&& pc2 == next
            },
            Lua4Instruction::OP_JMPT(_) => if n == 0 {
                spec_missing(step, g, g2)
            } else {
                spec_continues(step, g, g2, s2, pc2, s.drop_last(), target)
            },
            Lua4Instruction::OP_JMPF(_) => if n == 0 {
                spec_missing(step, g, g2)
            } else {
                spec_continues(step, g, g2, s2, pc2, s.drop_last(), target)
            },
            Lua4Instruction::OP_JMPONT(_) => if n == 0 {
                spec_missing(step, g, g2)
            } else if s.last() is Nil {
                spec_continues(step, g, g2, s2, pc2, s.drop_last(), next)
            } else {
                spec_continues(step, g, g2, s2, pc2, s, target)
            },
            Lua4Instruction::OP_JMPONF(_) => if n == 0 {
                spec_missing(step, g, g2)
            } else if !(s.last() is Nil) {
                spec_continues(step, g, g2, s2, pc2, s.drop_last(), next)
            } else {
                spec_continues(step, g, g2, s2, pc2, s, target)
            },
            Lua4Instruction::OP_JMP(_) => spec_continues(step, g, g2, s2, pc2, s, target),
            Lua4Instruction::OP_PUSHNILJMP => spec_continues(
                step,
                g,
                g2,
                s2,
                pc2,
                s.push(Lua4Value::Nil),
                next + 1,
            ),
            Lua4Instruction::OP_CLOSURE(k, b) => {
                let kept = n - b;
                &&& step is Continue
                &&& g2 == g
                &&& pc2 == next
                &&& s2.len() == kept + 1
                &&& s2.subrange(0, kept) == s.subrange(0, kept)
                &&& s2[kept] matches Lua4Value::Closure(callee, upvalues) && callee
                    == function.constant_functions@[k as int] && (*upvalues)@ == s.subrange(
                    kept,
                    n,
                )
            },
            _ => step matches Lua4Step::Error(e) && e matches Lua4VMError::Unimplemented(i) && i
                == instruction && g2 == g,
        }
    }
}

impl Lua4VM {
    /// The global names are pairwise distinct.
    pub closed spec fn wf(&self) -> bool {
        forall|i: int, j: int|
            0 <= i < j < self.globals@.len() ==> self.globals@[i].0@ != self.globals@[j].0@
    }

    /// The index of the global with the given name.
    closed spec fn index_of(&self, name: Seq<char>) -> int {
        choose|i: int| 0 <= i < self.globals@.len() && self.globals@[i].0@ == name
    }

    /// The globals as a map from names to values.
    pub closed spec fn globals_map(&self) -> Map<Seq<char>, Lua4Value> {
        Map::new(
            |name: Seq<char>|
                exists|i: int| 0 <= i < self.globals@.len() && self.globals@[i].0@ == name,
            |name: Seq<char>| self.globals@[self.index_of(name)].1,
        )
    }

    proof fn lemma_lookup(&self, i: int)
        requires
            self.wf(),
            0 <= i < self.globals@.len(),
        ensures
            self.globals_map().contains_key(self.globals@[i].0@),
            self.globals_map()[self.globals@[i].0@] == self.globals@[i].1,
    {
        let name = self.globals@[i].0@;
        assert(self.globals_map().dom().contains(name));
        let j = self.index_of(name);
        assert(0 <= j < self.globals@.len() && self.globals@[j].0@ == name);
        if j != i {
            if j < i {
                assert(self.globals@[j].0@ != self.globals@[i].0@);
            } else {
                assert(self.globals@[i].0@ != self.globals@[j].0@);
            }
        }
    }

    /// A machine without globals.
    pub fn new() -> (vm: Self)
        ensures
            vm.wf(),
            vm.globals_map() == Map::<Seq<char>, Lua4Value>::empty(),
    {
        let vm = Lua4VM { globals: Vec::new() };
        assert(vm.globals_map() =~= Map::<Seq<char>, Lua4Value>::empty());
        vm
    }

    /// The index of the global named `name`, if there is one.
    fn find_global(&self, name: &String) -> (r: Option<usize>)
        requires
            self.wf(),
        ensures
            r matches Some(i) ==> i < self.globals@.len() && self.globals@[i as int].0@ == name@,
            r is None ==> !self.globals_map().contains_key(name@),
    {
        let mut i: usize = 0;
        while i < self.globals.len()
            invariant
                i <= self.globals@.len(),
                forall|j: int| 0 <= j < i ==> self.globals@[j].0@ != name@,
            decreases self.globals.len() - i,
        {
            if self.globals[i].0 == *name {
                return Some(i);
            }
            i = i + 1;
        }
        None
    }

    /// Sets the global `name` to `value`.
    pub fn set_global(&mut self, name: String, value: Lua4Value)
        requires
            old(self).wf(),
        ensures
            final(self).wf(),
            final(self).globals_map() == old(self).globals_map().insert(name@, value),
    {
        let ghost key = name@;
        let ghost value_ghost = value;
        match self.find_global(&name) {
            Some(i) => {
                let ghost before = *self;
                self.globals.set(i, (name, value));
                proof {
                    assert forall|j: int, k: int|
                        0 <= j < k < self.globals@.len() implies self.globals@[j].0@
                        != self.globals@[k].0@ by {
                        assert(before.globals@[j].0@ != before.globals@[k].0@);
                    }
                    assert forall|other: Seq<char>|
                        #![trigger self.globals_map().contains_key(other)]
                        self.globals_map().contains_key(other) == before.globals_map().insert(
                            key,
                            value_ghost,
                        ).contains_key(other) by {
                        if other != key {
                            if before.globals_map().contains_key(other) {
                                let j = before.index_of(other);
                                assert(self.globals@[j].0@ == other);
                            }
                            if self.globals_map().contains_key(other) {
                                let j = self.index_of(other);
                                assert(before.globals@[j].0@ == other);
                            }
                        } else {
                            assert(self.globals@[i as int].0@ == key);
                        }
                    }
                    assert forall|other: Seq<char>|
                        #![trigger self.globals_map()[other]]
                        self.globals_map().contains_key(other) implies self.globals_map()[other]
                        == before.globals_map().insert(key, value_ghost)[other] by {
                        if other != key {
                            let j = self.index_of(other);
                            assert(before.globals@[j].0@ == other);
                            before.lemma_lookup(j);
                            self.lemma_lookup(j);
                        } else {
                            self.lemma_lookup(i as int);
                        }
                    }
                    assert(self.globals_map() =~= before.globals_map().insert(key, value_ghost));
                }
            },
            None => {
                let ghost before = *self;
                self.globals.push((name, value));
                proof {
                    let last = before.globals@.len() as int;
                    assert forall|j: int, k: int|
                        0 <= j < k < self.globals@.len() implies self.globals@[j].0@
                        != self.globals@[k].0@ by {
                        if k < last {
                            assert(before.globals@[j].0@ != before.globals@[k].0@);
                        } else {
                            assert(before.globals@[j].0@ != key);
                        }
                    }
                    assert forall|other: Seq<char>|
                        #![trigger self.globals_map().contains_key(other)]
                        self.globals_map().contains_key(other) == before.globals_map().insert(
                            key,
                            value_ghost,
                        ).contains_key(other) by {
                        if other != key {
                            if before.globals_map().contains_key(other) {
                                let j = before.index_of(other);
                                assert(self.globals@[j].0@ == other);
                            }
                            if self.globals_map().contains_key(other) {
                                let j = self.index_of(other);
                                assert(j != last);
                                assert(before.globals@[j].0@ == other);
                            }
                        } else {
                            assert(self.globals@[last].0@ == key);
                        }
                    }
                    assert forall|other: Seq<char>|
                        #![trigger self.globals_map()[other]]
                        self.globals_map().contains_key(other) implies self.globals_map()[other]
                        == before.globals_map().insert(key, value_ghost)[other] by {
                        if other != key {
                            let j = self.index_of(other);
                            assert(j != last);
                            assert(before.globals@[j].0@ == other);
                            before.lemma_lookup(j);
                            self.lemma_lookup(j);
                        } else {
                            self.lemma_lookup(last);
                        }
                    }
                    assert(self.globals_map() =~= before.globals_map().insert(key, value_ghost));
                }
            },
        }
    }

    /// The value of the global `name`, if it is set.
    pub fn get_global(&self, name: &str) -> (r: Option<&Lua4Value>)
        requires
            self.wf(),
        ensures
            r matches Some(v) ==> self.globals_map().contains_key(name@) && *v
                == self.globals_map()[name@],
            r is None ==> !self.globals_map().contains_key(name@),
    {
        let key = name.to_owned();
        match self.find_global(&key) {
            Some(i) => {
                proof {
                    self.lemma_lookup(i as int);
                }
                Some(&self.globals[i].1)
            },
            None => None,
        }
    }
}

/// The program counter after a jump by `offset` from `next`.
fn jump_target(next: usize, offset: i32) -> (r: usize)
    requires
        spec_jump_defined(next as int, offset),
    ensures
        r == spec_jump(next as int, offset),
{
    ((next as i32) + offset) as usize
}

/// Pops the two operands of a comparison: the right one from the top, then the left one.
fn pop_operands(stack: &mut Vec<Lua4Value>) -> (r: Option<(Lua4Value, Lua4Value)>)
    ensures
        old(stack)@.len() < 2 ==> r is None,
        old(stack)@.len() >= 2 ==> (r matches Some((lhs, rhs)) && lhs == old(stack)@[old(
            stack,
        )@.len() - 2] && rhs == old(stack)@[old(stack)@.len() - 1] && final(stack)@ == old(
            stack,
        )@.subrange(0, old(stack)@.len() - 2)),
{
    if stack.len() < 2 {
        return None;
    }
    let rhs = stack.pop().unwrap();
    let lhs = stack.pop().unwrap();
    Some((lhs, rhs))
}

impl Lua4VM {
    /// Executes the instruction at `pc` of `function` on `stack`, advancing `pc`.
    pub fn execute_instruction(
        &mut self,
        function: &Lua4Function,
        stack: &mut Vec<Lua4Value>,
        pc: &mut usize,
    ) -> (step: Lua4Step)
        requires
            old(self).wf(),
            spec_instruction_defined(*function, old(stack)@, *old(pc) as int),
        ensures
            final(self).wf(),
            spec_step(
                *function,
                old(self).globals_map(),
                old(stack)@,
                *old(pc) as int,
                final(self).globals_map(),
                final(stack)@,
                *final(pc) as int,
                step,
            ),
    {
        let ghost s = stack@;
        let ghost g = self.globals_map();
        let instruction_count = function.instructions.len();
        let stack_size = stack.len();
        let instruction = function.instructions[*pc];
        let next = *pc + 1;
        *pc = next;
        match instruction {
            Lua4Instruction::OP_END => {
                let results = stack.split_off(0);
                assert(results@ =~= s);
                Lua4Step::Return(results)
            },
            Lua4Instruction::OP_RETURN(k) => Lua4Step::Return(stack.split_off(k as usize)),
            Lua4Instruction::OP_CALL(a, b) => {
                let parameters = stack.split_off(a as usize + 1);
                let closure = stack.pop();
                assert(stack@ =~= s.subrange(0, a as int));
                match closure {
                    Some(Lua4Value::Closure(callee, _upvalues)) => Lua4Step::CallLua(
                        callee,
                        parameters,
                        b,
                    ),
                    Some(Lua4Value::RustClosure(name)) => Lua4Step::CallRust(name, parameters, b),
                    _ => Lua4Step::Error(Lua4VMError::NotClosure),
                }
            },
            Lua4Instruction::OP_PUSHNIL(count) => {
                let mut i: u32 = 0;
                while i < count
                    invariant
                        i <= count,
                        stack@ == s + Seq::new(i as nat, |j: int| Lua4Value::Nil),
                    decreases count - i,
                {
                    stack.push(Lua4Value::Nil);
                    i = i + 1;
                    assert(stack@ =~= s + Seq::new(i as nat, |j: int| Lua4Value::Nil));
                }
                Lua4Step::Continue
            },
            Lua4Instruction::OP_POP(count) => {
                let mut i: u32 = 0;
                while i < count
                    invariant
                        i <= count,
                        stack@ == s.subrange(
                            0,
                            if s.len() >= i {
                                s.len() - i
                            } else {
                                0
                            },
                        ),
                    decreases count - i,
                {
                    stack.pop();
                    i = i + 1;
                }
                Lua4Step::Continue
            },
            Lua4Instruction::OP_PUSHINT(value) => {
                stack.push(Lua4Value::Number(Lua4Number::from_i32(value)));
                assert(stack@.subrange(0, s.len() as int) =~= s);
                Lua4Step::Continue
            },
            Lua4Instruction::OP_PUSHSTRING(k) => {
                stack.push(Lua4Value::String(function.constant_strings[k as usize].clone()));
                Lua4Step::Continue
            },
            Lua4Instruction::OP_PUSHNUM(k) => {
                stack.push(Lua4Value::Number(function.constant_numbers[k as usize]));
                Lua4Step::Continue
            },
            Lua4Instruction::OP_PUSHNEGNUM(k) => {
                stack.push(Lua4Value::Number(function.constant_numbers[k as usize].neg()));
                Lua4Step::Continue
            },
            Lua4Instruction::OP_GETLOCAL(index) => {
                if (index as usize) < stack.len() {
                    let value = stack[index as usize].duplicate();
                    stack.push(value);
                    Lua4Step::Continue
                } else {
                    Lua4Step::Error(Lua4VMError::MissingStackValue)
                }
            },
            Lua4Instruction::OP_GETGLOBAL(k) => {
                let name = &function.constant_strings[k as usize];
                match self.find_global(name) {
                    Some(i) => {
                        proof {
                            self.lemma_lookup(i as int);
                        }
                        let value = self.globals[i].1.duplicate();
                        stack.push(value);
                        Lua4Step::Continue
                    },
                    None => Lua4Step::Error(Lua4VMError::GlobalNotFound(name.clone())),
                }
            },
            Lua4Instruction::OP_SETLOCAL(index) => {
                match stack.pop() {
                    Some(value) => {
                        stack.set(index as usize, value);
                        Lua4Step::Continue
                    },
                    None => Lua4Step::Error(Lua4VMError::MissingStackValue),
                }
            },
            Lua4Instruction::OP_SETGLOBAL(k) => {
                let name = function.constant_strings[k as usize].clone();
                match stack.pop() {
                    Some(value) => {
                        self.set_global(name, value);
                        Lua4Step::Continue
                    },
                    None => Lua4Step::Error(Lua4VMError::MissingStackValue),
                }
            },
            Lua4Instruction::OP_JMPNE(offset) => match pop_operands(stack) {
                Some((lhs, rhs)) => {
                    if !lhs.eq(&rhs) {
                        *pc = jump_target(next, offset);
                    }
                    Lua4Step::Continue
                },
                None => Lua4Step::Error(Lua4VMError::MissingStackValue),
            },
            Lua4Instruction::OP_JMPEQ(offset) => match pop_operands(stack) {
                Some((lhs, rhs)) => {
                    if lhs.eq(&rhs) {
                        *pc = jump_target(next, offset);
                    }
                    Lua4Step::Continue
                },
                None => Lua4Step::Error(Lua4VMError::MissingStackValue),
            },
            Lua4Instruction::OP_JMPLT(offset) => match pop_operands(stack) {
                Some((lhs, rhs)) => {
                    if lhs.lt(&rhs) {
                        *pc = jump_target(next, offset);
                    }
                    Lua4Step::Continue
                },
                None => Lua4Step::Error(Lua4VMError::MissingStackValue),
            },
            Lua4Instruction::OP_JMPLE(offset) => match pop_operands(stack) {
                Some((lhs, rhs)) => {
                    if lhs.le(&rhs) {
                        *pc = jump_target(next, offset);
                    }
                    Lua4Step::Continue
                },
                None => Lua4Step::Error(Lua4VMError::MissingStackValue),
            },
            Lua4Instruction::OP_JMPGT(offset) => match pop_operands(stack) {
                Some((lhs, rhs)) => {
                    if lhs.gt(&rhs) {
                        *pc = jump_target(next, offset);
                    }
                    Lua4Step::Continue
                },
                None => Lua4Step::Error(Lua4VMError::MissingStackValue),
            },
            Lua4Instruction::OP_JMPGE(offset) => match pop_operands(stack) {
                Some((lhs, rhs)) => {
                    if lhs.ge(&rhs) {
                        *pc = jump_target(next, offset);
                    }
                    Lua4Step::Continue
                },
                None => Lua4Step::Error(Lua4VMError::MissingStackValue),
            },
            Lua4Instruction::OP_JMPT(offset) => match stack.pop() {
                Some(value) => {
                    if !matches!(value, Lua4Value::Nil) {
                        *pc = jump_target(next, offset);
                    }
                    Lua4Step::Continue
                },
                None => Lua4Step::Error(Lua4VMError::MissingStackValue),
            },
            Lua4Instruction::OP_JMPF(offset) => match stack.pop() {
                Some(value) => {
                    if matches!(value, Lua4Value::Nil) {
                        *pc = jump_target(next, offset);
                    }
                    Lua4Step::Continue
                },
                None => Lua4Step::Error(Lua4VMError::MissingStackValue),
            },
            Lua4Instruction::OP_JMPONT(offset) => {
                if stack.len() == 0 {
                    return Lua4Step::Error(Lua4VMError::MissingStackValue);
                }
                let top_is_nil = matches!(stack[stack.len() - 1], Lua4Value::Nil);
                if top_is_nil {
                    stack.pop();
                } else {
                    *pc = jump_target(next, offset);
                }
                Lua4Step::Continue
            },
            Lua4Instruction::OP_JMPONF(offset) => {
                if stack.len() == 0 {
                    return Lua4Step::Error(Lua4VMError::MissingStackValue);
                }
                let top_is_nil = matches!(stack[stack.len() - 1], Lua4Value::Nil);
                if !top_is_nil {
                    stack.pop();
                } else {
                    *pc = jump_target(next, offset);
                }
                Lua4Step::Continue
            },
            Lua4Instruction::OP_JMP(offset) => {
                *pc = jump_target(next, offset);
                Lua4Step::Continue
            },
            Lua4Instruction::OP_PUSHNILJMP => {
                stack.push(Lua4Value::Nil);
                *pc = next + 1;
                Lua4Step::Continue
            },
            Lua4Instruction::OP_CLOSURE(k, count) => {
                let upvalues = stack.split_off(stack.len() - count as usize);
                let callee = share(&function.constant_functions[k as usize]);
                stack.push(Lua4Value::Closure(callee, Arc::new(upvalues)));
                assert(stack@.subrange(0, s.len() - count) =~= s.subrange(0, s.len() - count));
                Lua4Step::Continue
            },
            _ => Lua4Step::Error(Lua4VMError::Unimplemented(instruction)),
        }
    }
}

/// The stack with which a call of `function` starts: each of its parameters, taken from
/// `parameters` in order, or nil where `parameters` has none.
pub fn new_call_stack(function: &Lua4Function, parameters: &[Lua4Value]) -> (stack: Vec<
    Lua4Value,
>)
    ensures
        stack@ == Seq::new(
            function.num_parameters as nat,
            |i: int|
                if i < parameters@.len() {
                    parameters@[i]
                } else {
                    Lua4Value::Nil
                },
        ),
{
    let ghost expected = |j: int|
        if j < parameters@.len() {
            parameters@[j]
        } else {
            Lua4Value::Nil
        };
    let mut stack: Vec<Lua4Value> = Vec::new();
    let mut i: usize = 0;
    let count = function.num_parameters as usize;
    while i < count
        invariant
            i <= count,
            count == function.num_parameters,
            stack@ == Seq::new(i as nat, expected),
            expected == (|j: int|
                if j < parameters@.len() {
                    parameters@[j]
                } else {
                    Lua4Value::Nil
                }),
        decreases count - i,
    {
        if i < parameters.len() {
            stack.push(parameters[i].duplicate());
        } else {
            stack.push(Lua4Value::Nil);
        }
        i = i + 1;
        assert(stack@ =~= Seq::new(i as nat, expected));
    }
    stack
}

/// Pushes the first `num_results` results of a finished call onto `stack`, with nil in
/// place of each result the call did not give.
pub fn complete_call(stack: &mut Vec<Lua4Value>, results: Vec<Lua4Value>, num_results: u32)
    ensures
        final(stack)@ == old(stack)@ + Seq::new(
            num_results as nat,
            |i: int|
                if i < results@.len() {
                    results@[i]
                } else {
                    Lua4Value::Nil
                },
        ),
{
    let ghost s = stack@;
    let ghost expected = |j: int|
        if j < results@.len() {
            results@[j]
        } else {
            Lua4Value::Nil
        };
    let mut i: u32 = 0;
    while i < num_results
        invariant
            i <= num_results,
            stack@ == s + Seq::new(i as nat, expected),
            expected == (|j: int|
                if j < results@.len() {
                    results@[j]
                } else {
                    Lua4Value::Nil
                }),
        decreases num_results - i,
    {
        if (i as usize) < results.len() {
            stack.push(results[i as usize].duplicate());
        } else {
            stack.push(Lua4Value::Nil);
        }
        i = i + 1;
        assert(stack@ =~= s + Seq::new(i as nat, expected));
    }
}

/// Whether a jump instruction jumps from `stack`.
fn jump_taken(instruction: Lua4Instruction, stack: &Vec<Lua4Value>) -> (r: bool)
    requires
        spec_is_jump(instruction),
        (instruction is OP_JMPNE || instruction is OP_JMPEQ) && stack@.len() >= 2 ==> !(
        stack@[stack@.len() - 2] is Table),
    ensures
        r == spec_jump_taken(instruction, stack@),
{
    let n = stack.len();
    match instruction {
        Lua4Instruction::OP_JMPNE(_) => n >= 2 && !stack[n - 2].eq(&stack[n - 1]),
        Lua4Instruction::OP_JMPEQ(_) => n >= 2 && stack[n - 2].eq(&stack[n - 1]),
        Lua4Instruction::OP_JMPLT(_) => n >= 2 && stack[n - 2].lt(&stack[n - 1]),
        Lua4Instruction::OP_JMPLE(_) => n >= 2 && stack[n - 2].le(&stack[n - 1]),
        Lua4Instruction::OP_JMPGT(_) => n >= 2 && stack[n - 2].gt(&stack[n - 1]),
        Lua4Instruction::OP_JMPGE(_) => n >= 2 && stack[n - 2].ge(&stack[n - 1]),
        Lua4Instruction::OP_JMPT(_) => n >= 1 && !matches!(stack[n - 1], Lua4Value::Nil),
        Lua4Instruction::OP_JMPF(_) => n >= 1 && matches!(stack[n - 1], Lua4Value::Nil),
        Lua4Instruction::OP_JMPONT(_) => n >= 1 && !matches!(stack[n - 1], Lua4Value::Nil),
        Lua4Instruction::OP_JMPONF(_) => n >= 1 && matches!(stack[n - 1], Lua4Value::Nil),
        _ => true,
    }
}

/// The offset of a jump instruction.
fn jump_offset(instruction: Lua4Instruction) -> (r: i32)
    ensures
        r == spec_jump_offset(instruction),
{
    match instruction {
        Lua4Instruction::OP_JMPNE(t) => t,
        Lua4Instruction::OP_JMPEQ(t) => t,
        Lua4Instruction::OP_JMPLT(t) => t,
        Lua4Instruction::OP_JMPLE(t) => t,
        Lua4Instruction::OP_JMPGT(t) => t,
        Lua4Instruction::OP_JMPGE(t) => t,
        Lua4Instruction::OP_JMPT(t) => t,
        Lua4Instruction::OP_JMPF(t) => t,
        Lua4Instruction::OP_JMPONT(t) => t,
        Lua4Instruction::OP_JMPONF(t) => t,
        Lua4Instruction::OP_JMP(t) => t,
        _ => 0,
    }
}

/// Whether the instruction at `pc` of `function` can be executed on `stack`.
pub fn instruction_defined(function: &Lua4Function, stack: &Vec<Lua4Value>, pc: usize) -> (r: bool)
    ensures
        r == spec_instruction_defined(*function, stack@, pc as int),
{
    if pc >= function.instructions.len() {
        return false;
    }
    let instruction = function.instructions[pc];
    let next = pc + 1;
    let n = stack.len();
    let strings = function.constant_strings.len();
    let operands_fit = match instruction {
        Lua4Instruction::OP_RETURN(k) => (k as usize) <= n,
        Lua4Instruction::OP_CALL(a, _) => (a as usize) < n,
        Lua4Instruction::OP_PUSHSTRING(k) => (k as usize) < strings,
        Lua4Instruction::OP_GETGLOBAL(k) => (k as usize) < strings,
        Lua4Instruction::OP_SETGLOBAL(k) => (k as usize) < strings,
        Lua4Instruction::OP_PUSHNUM(k) => (k as usize) < function.constant_numbers.len(),
        Lua4Instruction::OP_PUSHNEGNUM(k) => (k as usize) < function.constant_numbers.len(),
        Lua4Instruction::OP_SETLOCAL(i) => n == 0 || (i as usize) < n - 1,
        Lua4Instruction::OP_JMPNE(_) => n < 2 || !matches!(stack[n - 2], Lua4Value::Table),
        Lua4Instruction::OP_JMPEQ(_) => n < 2 || !matches!(stack[n - 2], Lua4Value::Table),
        Lua4Instruction::OP_PUSHNILJMP => next < i32::MAX as usize,
        Lua4Instruction::OP_CLOSURE(k, b) => (b as usize) <= n && (k as usize)
            < function.constant_functions.len(),
        _ => true,
    };
    if !operands_fit {
        return false;
    }
    let is_jump = match instruction {
        Lua4Instruction::OP_JMPNE(_) | Lua4Instruction::OP_JMPEQ(_) | Lua4Instruction::OP_JMPLT(_)
        | Lua4Instruction::OP_JMPLE(_) | Lua4Instruction::OP_JMPGT(_) | Lua4Instruction::OP_JMPGE(
            _,
        ) | Lua4Instruction::OP_JMPT(_) | Lua4Instruction::OP_JMPF(_) | Lua4Instruction::OP_JMPONT(
            _,
        ) | Lua4Instruction::OP_JMPONF(_) | Lua4Instruction::OP_JMP(_) => true,
        _ => false,
    };
    if is_jump && jump_taken(instruction, stack) {
        let offset = jump_offset(instruction) as i64;
        next <= i32::MAX as usize && i32::MIN as i64 <= next as i64 + offset && next as i64
            + offset <= i32::MAX as i64
    } else {
        true
    }
}

impl Lua4VM {
    /// The function that the global `name` holds, for a call of it: an error when the
    /// global is not set or holds no Lua closure.
    pub fn global_closure(&self, name: &str) -> (r: Result<Arc<Lua4Function>, Lua4VMError>)
        requires
            self.wf(),
        ensures
            !self.globals_map().contains_key(name@) ==> (r matches Err(e) && e matches Lua4VMError::GlobalNotFound(
                missing,
            ) && missing@ == name@),
            self.globals_map().contains_key(name@) ==> match self.globals_map()[name@] {
                Lua4Value::Closure(function, _) => r matches Ok(f) && f == function,
                _ => r matches Err(e) && e is NotClosure,
            },
    {
        match self.get_global(name) {
            None => Err(Lua4VMError::GlobalNotFound(name.to_owned())),
            Some(Lua4Value::Closure(function, _upvalues)) => Ok(share(function)),
            Some(_) => Err(Lua4VMError::NotClosure),
        }
    }
}

} // verus!
