use std::sync::Arc;

use rose_offline_client::lua4::instruction::{get_arg_a, get_arg_b, get_arg_s, get_arg_u, Lua4InstructionError};
use rose_offline_client::lua4::convert::parse_usize;
use rose_offline_client::lua4::vm::{complete_call, instruction_defined, new_call_stack};
use rose_offline_client::lua4::{
    Lua4Function, Lua4Instruction, Lua4Number, Lua4Step, Lua4VM, Lua4VMError, Lua4Value,
    LuaValueConversionError,
};

fn num(x: f64) -> Lua4Value {
    Lua4Value::Number(Lua4Number::from_bits(x.to_bits()))
}

fn as_f64(v: &Lua4Value) -> f64 {
    match v {
        Lua4Value::Number(n) => f64::from_bits(n.bits),
        _ => panic!("not a number"),
    }
}

fn function(instructions: Vec<Lua4Instruction>, strings: Vec<&str>) -> Lua4Function {
    Lua4Function {
        num_parameters: 0,
        max_stack_size: 8,
        instructions,
        constant_strings: strings.into_iter().map(|s| s.to_string()).collect(),
        constant_numbers: vec![Lua4Number::from_bits(2.5f64.to_bits())],
        constant_functions: vec![],
    }
}

#[test]
fn decodes_instruction_words() {
    // OP_PUSHINT (6) with S = 5: U = 5 + excess
    let word = ((5u32 + 33554431) << 6) | 6;
    assert_eq!(Lua4Instruction::from_u32(word), Ok(Lua4Instruction::OP_PUSHINT(5)));
    assert_eq!(Lua4Instruction::from_u32(0), Ok(Lua4Instruction::OP_END));
    // OP_CALL (2) with A = 3, B = 1
    let word = (3u32 << 15) | (1 << 6) | 2;
    assert_eq!(Lua4Instruction::from_u32(word), Ok(Lua4Instruction::OP_CALL(3, 1)));
    assert_eq!(Lua4Instruction::from_u32(49), Err(Lua4InstructionError::InvalidOpcode(49)));
    assert_eq!(Lua4Instruction::from_u32(63), Err(Lua4InstructionError::InvalidOpcode(63)));
}

#[test]
fn instruction_arguments() {
    let word = (7u32 << 15) | (300 << 6) | 21;
    assert_eq!(get_arg_a(word), 7);
    assert_eq!(get_arg_b(word), 300);
    assert_eq!(get_arg_u(word), (7 << 9) | 300);
    assert_eq!(get_arg_s(33554431 << 6), 0);
    assert_eq!(get_arg_s(0), -33554431);
}

#[test]
fn numbers_compare_as_floats() {
    let n = |x: f64| Lua4Number::from_bits(x.to_bits());
    assert!(n(1.0).num_lt(&n(2.0)));
    assert!(n(-0.0).num_eq(&n(0.0)));
    assert!(!n(f64::NAN).num_eq(&n(f64::NAN)));
    assert!(n(f64::NAN).is_nan());
    assert!(n(2.0).num_le(&n(2.0)));
    assert_eq!(f64::from_bits(n(3.5).neg().bits), -3.5);
    assert_eq!(f64::from_bits(Lua4Number::from_i32(-7).bits), -7.0);
}

#[test]
fn numbers_convert_to_integers() {
    let n = |x: f64| Lua4Number::from_bits(x.to_bits());
    assert_eq!(n(3.9).to_i32(), Some(3));
    assert_eq!(n(-3.9).to_i32(), Some(-3));
    assert_eq!(n(3e10).to_i32(), None);
    assert_eq!(n(f64::NAN).to_i32(), None);
    assert_eq!(n(3e10).to_i64(), Some(30000000000));
    assert_eq!(n(-1.0).to_usize(), None);
    assert_eq!(n(12.0).to_usize(), Some(12));
    // saturating as Rust's `as` does
    assert_eq!(n(3e10).to_i32_saturating(), i32::MAX);
    assert_eq!(n(f64::NAN).to_i32_saturating(), 0);
    assert_eq!(n(-1e300).to_i64_saturating(), i64::MIN);
    for x in [0.0, 1.5, -2.75, 1e9, -1e9, 2147483647.0, -2147483648.0] {
        assert_eq!(n(x).to_i32(), num_traits::ToPrimitive::to_i32(&x));
        assert_eq!(n(x).to_i32_saturating(), x as i32);
    }
}

#[test]
fn values_convert() {
    assert_eq!(num(7.0).to_usize(), Ok(7));
    assert_eq!(Lua4Value::String("42".to_string()).to_usize(), Ok(42));
    assert_eq!(Lua4Value::String("4x".to_string()).to_usize(), Err(LuaValueConversionError::InvalidType));
    assert_eq!(Lua4Value::Nil.to_usize(), Err(LuaValueConversionError::InvalidType));
    assert_eq!(num(-2.5).to_i32(None), Ok(-2));
    let parsed = Some(Lua4Number::from_bits(12.75f64.to_bits()));
    assert_eq!(Lua4Value::String("12.75".to_string()).to_i32(parsed), Ok(12));
    assert_eq!(Lua4Value::String("abc".to_string()).to_i32(None), Err(LuaValueConversionError::InvalidType));
    assert_eq!(Lua4Value::Table.to_i64(None), Err(LuaValueConversionError::InvalidType));
    assert_eq!(Lua4Value::String("s".to_string()).to_string(String::new()), Ok("s".to_string()));
    assert_eq!(num(1.0).to_string("1".to_string()), Ok("1".to_string()));
    assert_eq!(parse_usize("0017"), Some(17));
    assert_eq!(parse_usize(""), None);
    assert_eq!(parse_usize("-1"), None);
}

#[test]
fn values_compare() {
    assert!(num(1.0).eq(&num(1.0)));
    assert!(!num(1.0).eq(&Lua4Value::String("1".to_string())));
    assert!(Lua4Value::Nil.eq(&Lua4Value::Nil));
    assert!(Lua4Value::String("a".to_string()).lt(&Lua4Value::String("b".to_string())));
    assert!(Lua4Value::String("ab".to_string()).gt(&Lua4Value::String("a".to_string())));
    assert!(num(2.0).ge(&num(2.0)));
    let f = Arc::new(function(vec![], vec![]));
    let closure = Lua4Value::Closure(f.clone(), Arc::new(vec![]));
    let copy = closure.duplicate();
    match copy {
        Lua4Value::Closure(g, _) => assert!(Arc::ptr_eq(&f, &g)),
        _ => panic!("not a closure"),
    }
}

#[test]
fn globals_read_back_what_was_written() {
    let mut vm = Lua4VM::new();
    assert!(vm.get_global("x").is_none());
    vm.set_global("x".to_string(), num(1.0));
    vm.set_global("x".to_string(), num(2.0));
    assert_eq!(as_f64(vm.get_global("x").unwrap()), 2.0);
    assert!(matches!(vm.global_closure("x"), Err(Lua4VMError::NotClosure)));
    assert!(matches!(vm.global_closure("y"), Err(Lua4VMError::GlobalNotFound(name)) if name == "y"));
    let f = Arc::new(function(vec![Lua4Instruction::OP_END], vec![]));
    vm.set_global("f".to_string(), Lua4Value::Closure(f.clone(), Arc::new(vec![])));
    assert!(Arc::ptr_eq(&vm.global_closure("f").unwrap(), &f));
}

#[test]
fn executes_pushes_and_return() {
    let f = function(
        vec![
            Lua4Instruction::OP_PUSHINT(5),
            Lua4Instruction::OP_PUSHNIL(2),
            Lua4Instruction::OP_POP(1),
            Lua4Instruction::OP_PUSHNEGNUM(0),
            Lua4Instruction::OP_RETURN(1),
        ],
        vec![],
    );
    let mut vm = Lua4VM::new();
    let mut stack = new_call_stack(&f, &[]);
    let mut pc = 0usize;
    let mut result = None;
    while result.is_none() {
        assert!(instruction_defined(&f, &stack, pc));
        match vm.execute_instruction(&f, &mut stack, &mut pc) {
            Lua4Step::Continue => {},
            Lua4Step::Return(values) => result = Some(values),
            other => panic!("unexpected step {:?}", other),
        }
    }
    // the results are the stack from index 1 on
    let values = result.unwrap();
    assert_eq!(values.len(), 2);
    assert!(matches!(values[0], Lua4Value::Nil));
    assert_eq!(as_f64(&values[1]), -2.5);
}

#[test]
fn arithmetic_is_not_implemented() {
    let f = function(vec![Lua4Instruction::OP_ADD], vec![]);
    let mut vm = Lua4VM::new();
    let mut stack = vec![num(1.0), num(2.0)];
    let mut pc = 0usize;
    assert!(matches!(
        vm.execute_instruction(&f, &mut stack, &mut pc),
        Lua4Step::Error(Lua4VMError::Unimplemented(Lua4Instruction::OP_ADD))
    ));
}

#[test]
fn executes_globals_and_jumps() {
    let f = function(
        vec![
            Lua4Instruction::OP_PUSHINT(1),
            Lua4Instruction::OP_SETGLOBAL(0),
            Lua4Instruction::OP_GETGLOBAL(0),
            Lua4Instruction::OP_JMPF(1),
            Lua4Instruction::OP_PUSHSTRING(1),
            Lua4Instruction::OP_END,
        ],
        vec!["flag", "taken"],
    );
    let mut vm = Lua4VM::new();
    let mut stack = Vec::new();
    let mut pc = 0usize;
    for _ in 0..4 {
        assert!(matches!(vm.execute_instruction(&f, &mut stack, &mut pc), Lua4Step::Continue));
    }
    // 1 is true: the jump is not taken
    assert_eq!(pc, 4);
    assert!(matches!(vm.execute_instruction(&f, &mut stack, &mut pc), Lua4Step::Continue));
    assert!(matches!(&stack[0], Lua4Value::String(s) if s == "taken"));
    assert_eq!(as_f64(vm.get_global("flag").unwrap()), 1.0);
    // the end gives back the whole stack
    assert!(matches!(vm.execute_instruction(&f, &mut stack, &mut pc), Lua4Step::Return(v) if v.len() == 1));
}

#[test]
fn calls_ask_the_caller() {
    let f = function(
        vec![
            Lua4Instruction::OP_GETGLOBAL(0),
            Lua4Instruction::OP_PUSHINT(3),
            Lua4Instruction::OP_CALL(0, 2),
        ],
        vec!["host"],
    );
    let mut vm = Lua4VM::new();
    vm.set_global("host".to_string(), Lua4Value::RustClosure("host".to_string()));
    let mut stack = Vec::new();
    let mut pc = 0usize;
    vm.execute_instruction(&f, &mut stack, &mut pc);
    vm.execute_instruction(&f, &mut stack, &mut pc);
    match vm.execute_instruction(&f, &mut stack, &mut pc) {
        Lua4Step::CallRust(name, parameters, results) => {
            assert_eq!(name, "host");
            assert_eq!(parameters.len(), 1);
            assert_eq!(as_f64(&parameters[0]), 3.0);
            assert_eq!(results, 2);
            complete_call(&mut stack, vec![num(9.0)], results);
        },
        other => panic!("unexpected step {:?}", other),
    }
    assert_eq!(stack.len(), 2);
    assert_eq!(as_f64(&stack[0]), 9.0);
    assert!(matches!(stack[1], Lua4Value::Nil));
}

#[test]
fn missing_global_is_an_error() {
    let f = function(vec![Lua4Instruction::OP_GETGLOBAL(0)], vec!["nothing"]);
    let mut vm = Lua4VM::new();
    let mut stack = Vec::new();
    let mut pc = 0usize;
    match vm.execute_instruction(&f, &mut stack, &mut pc) {
        Lua4Step::Error(Lua4VMError::GlobalNotFound(name)) => assert_eq!(name, "nothing"),
        other => panic!("unexpected step {:?}", other),
    }
}

#[test]
fn call_stack_starts_with_parameters() {
    let mut f = function(vec![], vec![]);
    f.num_parameters = 3;
    let stack = new_call_stack(&f, &[num(1.0), num(2.0), num(3.0), num(4.0)]);
    assert_eq!(stack.len(), 3);
    let stack = new_call_stack(&f, &[num(1.0)]);
    assert!(matches!(stack[1], Lua4Value::Nil));
    assert!(!instruction_defined(&f, &stack, 0));
}

#[test]
fn invalid_opcode_message() {
    assert_eq!(Lua4InstructionError::InvalidOpcode(49).message(), "Invalid instruction opcode 49");
}

#[test]
fn only_setglobal_changes_globals_in_a_run() {
    // A run of OP_END (opcode 0) returns the stack and leaves the globals alone.
    let mut vm = Lua4VM::new();
    vm.set_global("kept".to_string(), Lua4Value::Nil);
    let function = function(vec![Lua4Instruction::OP_END], vec![]);
    let mut stack = vec![];
    let mut pc = 0usize;
    assert!(matches!(vm.execute_instruction(&function, &mut stack, &mut pc), Lua4Step::Return(_)));
    assert!(matches!(vm.get_global("kept"), Some(Lua4Value::Nil)));
}
