//! A small scripting engine for short programs that are made of
//! expressions: a lexer and a Pratt parser that write bytecode, and a stack
//! machine that runs it with the variables of its host.
//!
//! A [`Runtime`] compiles a script to a [`Chunk`] and runs it. The
//! variables of a script live in an [`Environment`] of the host. The machine
//! computes with integers, truth values and texts; a floating-point number
//! it keeps as its bits, and where one is to be read, computed with or
//! shown, the run stops with a request and goes on with the host's reply.
//!
//! What the lexer, the compiler and the machine do is defined in
//! [`compilation::lexer::scan`], [`compilation::grammar::compile`] and
//! [`execution::machine::run`], and the code is proved to do just that.
pub mod compilation;
pub mod conversion;
pub mod environment;
pub mod error;
pub mod execution;
pub mod prelude;
pub mod runtime;
pub mod script_enum;
pub mod scripting_value;
pub mod table;
pub mod text;

pub use environment::{DefaultEnvironment, Environment};
pub use error::{Error, Failure, Result};
pub use execution::Chunk;
pub use runtime::Runtime;
pub use script_enum::{EnumTable, ScriptEnum};
pub use scripting_value::{ScriptingValue, Value};
