//! Bytecode and the machine that runs it.
pub mod chunk;
pub mod disassembly;
pub mod error;
pub mod machine;
pub mod machine_laws;
pub mod op_code;
pub mod vm;

pub use chunk::{Bytecode, Chunk, Constant, ConstantView};
pub use error::{ExecutionError, ExecutionFault, ExecutionResult};
pub use machine::{Machine, Number, Reply, Request, Step, Waiting, STACK_SIZE};
pub use vm::VM;
