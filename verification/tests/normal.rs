//! The types of the library can be sent to other threads and shared with
//! them.
use tinyscript::compilation::{Lexer, Parser};
use tinyscript::execution::VM;
use tinyscript::Runtime;

const fn is_normal<T: Sized + Send + Sync>() {}

#[test]
fn normal_types() {
    is_normal::<Lexer>();
    is_normal::<Parser>();
    is_normal::<Runtime>();
    is_normal::<VM>();
}
