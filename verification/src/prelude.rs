//! What most hosts need of the library.
pub use crate::{DefaultEnvironment, Environment, Runtime, ScriptEnum, ScriptingValue};
