pub mod convert;
pub mod instruction;
pub mod laws;
pub mod number;
pub mod value;
pub mod vm;

pub use instruction::Lua4Instruction;
pub use number::Lua4Number;
pub use value::{Lua4Function, Lua4Value, LuaValueConversionError};
pub use vm::{Lua4Step, Lua4VM, Lua4VMError};
