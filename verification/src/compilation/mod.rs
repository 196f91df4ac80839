//! From source text to bytecode.
pub mod error;
pub mod grammar;
pub mod grammar_laws;
pub mod lexer;
pub mod lexer_laws;
pub mod parselets;
pub mod parser;
pub mod precedence;
pub mod token;

pub use error::{CompilationError, CompilationFault, CompilationResult};
pub use lexer::{Lexer, LexerState};
pub use parser::Parser;
pub use precedence::Precedence;
pub use token::{Lexeme, Token, TokenKind};
