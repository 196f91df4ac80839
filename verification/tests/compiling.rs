//! Scripts, from their text to their bytecode.
use tinyscript::compilation::{CompilationError, Lexer, Parser, Token, TokenKind};
use tinyscript::execution::op_code::OpCode;
use tinyscript::execution::{Chunk, Constant};
use tinyscript::{EnumTable, Error, Runtime, ScriptingValue};

fn compile(script: &str) -> Result<Chunk, CompilationError> {
    let enums = EnumTable::new();
    Parser::new().parse(&enums, script)
}

fn code_of(script: &str) -> Vec<u8> {
    compile(script).expect("compiles").code().clone()
}

fn tokens(script: &str) -> Vec<Token> {
    let enums = EnumTable::new();
    let mut lexer = Lexer::new(&enums, script);
    let mut all = Vec::new();
    while let Some(item) = lexer.next() {
        all.push(item.expect("a token"));
    }
    all
}

#[test]
fn an_empty_script_returns() {
    assert_eq!(code_of(""), vec![25]);
    assert_eq!(code_of("  \n\t "), vec![25]);
}

#[test]
fn constants_and_operators() {
    assert_eq!(code_of("print 1 + 2;"), vec![1, 0, 1, 1, 15, 254, 25]);
    assert_eq!(code_of("1 - 2 * 3"), vec![1, 0, 1, 1, 1, 2, 17, 16, 25]);
    assert_eq!(code_of("(1 - 2) / 3"), vec![1, 0, 1, 1, 16, 1, 2, 18, 25]);
    assert_eq!(code_of("true; false; nil"), vec![3, 4, 2, 25]);
    assert_eq!(code_of("!true"), vec![3, 23, 25]);
    assert_eq!(code_of("-1"), vec![1, 0, 24, 25]);
    assert_eq!(code_of("+1"), vec![1, 0, 25]);
    assert_eq!(code_of("~1"), vec![1, 0, 19, 25]);
    assert_eq!(code_of("1 & 2 | 3 ^ 4"), vec![1, 0, 1, 1, 20, 1, 2, 1, 3, 22, 21, 25]);
}

#[test]
fn comparisons_are_negated_where_needed() {
    assert_eq!(code_of("1 == 2"), vec![1, 0, 1, 1, 9, 25]);
    assert_eq!(code_of("1 != 2"), vec![1, 0, 1, 1, 9, 23, 25]);
    assert_eq!(code_of("1 > 2"), vec![1, 0, 1, 1, 10, 25]);
    assert_eq!(code_of("1 >= 2"), vec![1, 0, 1, 1, 11, 23, 25]);
    assert_eq!(code_of("1 < 2"), vec![1, 0, 1, 1, 11, 25]);
    assert_eq!(code_of("1 <= 2"), vec![1, 0, 1, 1, 10, 23, 25]);
}

#[test]
fn variables() {
    assert_eq!(code_of("x"), vec![7, 0, 25]);
    assert_eq!(code_of("x := 1"), vec![1, 0, 6, 1, 25]);
    assert_eq!(code_of("x = 1"), vec![1, 0, 8, 1, 25]);
    assert_eq!(code_of("x += 1"), vec![7, 0, 1, 1, 15, 8, 0, 25]);
    assert_eq!(code_of("x -= 1"), vec![7, 0, 1, 1, 16, 8, 0, 25]);
    assert_eq!(code_of("x *= 1"), vec![7, 0, 1, 1, 17, 8, 0, 25]);
    assert_eq!(code_of("x /= 1"), vec![7, 0, 1, 1, 18, 8, 0, 25]);
}

#[test]
fn jumps_are_patched() {
    assert_eq!(code_of("true && false"), vec![3, 14, 0, 6, 5, 4, 25]);
    assert_eq!(code_of("true || false"), vec![3, 13, 0, 6, 5, 4, 25]);
    assert_eq!(
        code_of("true ? 1 : 2"),
        vec![3, 14, 0, 10, 5, 1, 0, 12, 0, 13, 5, 1, 1, 25]
    );
}

#[test]
fn a_long_jump_takes_two_bytes() {
    let mut script = String::from("true && (");
    for _ in 0..200 {
        script.push_str("1+");
    }
    script.push_str("1)");
    let code = code_of(&script);
    // behind the jump stand a pop, two bytes for each of 201 constants and
    // 200 additions
    let target = 4 + 1 + 2 * 201 + 200;
    assert_eq!(code[1], 14);
    assert_eq!(code[2] as usize, target / 256);
    assert_eq!(code[3] as usize, target % 256);
    assert_eq!(code[target], 25);
    assert_eq!(code.len(), target + 1);
}

#[test]
fn constants_are_kept_in_their_order() {
    let chunk = compile("x := 'text'; 0x10 + 2.50 + 7").expect("compiles");
    assert_eq!(chunk.constants(), 5);
    match chunk.read_constant(0) {
        Some(Constant::Value(ScriptingValue::String(text))) => assert_eq!(text, "text"),
        other => panic!("{other:?}"),
    }
    match chunk.read_constant(1) {
        Some(Constant::Value(ScriptingValue::String(text))) => assert_eq!(text, "x"),
        other => panic!("{other:?}"),
    }
    match chunk.read_constant(2) {
        Some(Constant::Value(ScriptingValue::Int64(16))) => {}
        other => panic!("{other:?}"),
    }
    match chunk.read_constant(3) {
        Some(Constant::Float(text)) => assert_eq!(text, "2.50"),
        other => panic!("{other:?}"),
    }
    match chunk.read_constant(4) {
        Some(Constant::Value(ScriptingValue::Int64(7))) => {}
        other => panic!("{other:?}"),
    }
    assert!(chunk.read_constant(5).is_none());
}

#[test]
fn constants_are_not_shared() {
    let chunk = compile("1 + 1 + 1").expect("compiles");
    assert_eq!(chunk.constants(), 3);
}

#[test]
fn each_byte_has_its_line() {
    let chunk = compile("1 +\n2;\n\nprint 3").expect("compiles");
    assert_eq!(chunk.code().clone(), vec![1, 0, 1, 1, 15, 1, 2, 254, 25]);
    let lines: Vec<Option<usize>> = (0..10).map(|i| chunk.line(i)).collect();
    assert_eq!(
        lines,
        vec![Some(1), Some(1), Some(2), Some(2), Some(2), Some(4), Some(4), Some(4), Some(4), None]
    );
    assert_eq!(chunk.len(), 9);
}

#[test]
fn constant_pool_bound() {
    let mut script = String::new();
    for i in 0..256 {
        script.push_str(&format!("{i};"));
    }
    let chunk = compile(&script).expect("compiles");
    assert_eq!(chunk.constants(), 256);
    match chunk.read_constant(255) {
        Some(Constant::Value(ScriptingValue::Int64(255))) => {}
        other => panic!("{other:?}"),
    }
    script.push_str("256;");
    match compile(&script) {
        Err(CompilationError::ConstantStorageOverflow) => {}
        other => panic!("{other:?}"),
    }
    match Runtime::default().parse(&script) {
        Err(Error::Compilation { source: CompilationError::ConstantStorageOverflow }) => {}
        other => panic!("{other:?}"),
    }
}

#[test]
fn parser_determinism() {
    let script = "a := 1; b := a > 0 ? 'yes' : 'no'; print b + 2.5 && true;";
    let one = compile(script).expect("compiles");
    let other = compile(script).expect("compiles");
    assert_eq!(one.code(), other.code());
    assert_eq!(one.constants(), other.constants());
    assert_eq!(one.disassemble("script"), other.disassemble("script"));
    let mut parser = Parser::new();
    let enums = EnumTable::new();
    let third = parser.parse(&enums, script).expect("compiles");
    let fourth = parser.parse(&enums, script).expect("compiles");
    assert_eq!(third.code(), one.code());
    assert_eq!(fourth.code(), one.code());
}

#[test]
fn the_first_error_is_returned() {
    match compile("1 +; 2 'open") {
        Err(CompilationError::ExpressionExpected { token, pos }) => {
            assert_eq!(token, ";");
            assert_eq!(pos, 1);
        }
        other => panic!("{other:?}"),
    }
    match compile("'open; 1 +") {
        Err(CompilationError::UnterminatedString { str, pos }) => {
            assert_eq!(str, "'open; 1 +");
            assert_eq!(pos, 1);
        }
        other => panic!("{other:?}"),
    }
}

#[test]
fn compilation_errors() {
    match compile("print ;") {
        Err(CompilationError::ExpressionExpected { token, pos }) => {
            assert_eq!(token, ";");
            assert_eq!(pos, 1);
        }
        other => panic!("{other:?}"),
    }
    match compile("\n\n-") {
        Err(CompilationError::ExpressionExpected { token, pos }) => {
            assert_eq!(token, "");
            assert_eq!(pos, 0);
        }
        other => panic!("{other:?}"),
    }
    match compile("(1 + 2") {
        Err(CompilationError::TokenExpected { expected, found, pos }) => {
            assert_eq!(expected, ")");
            assert_eq!(found, "NONE");
            assert_eq!(pos, 0);
        }
        other => panic!("{other:?}"),
    }
    match compile("1 2") {
        Err(CompilationError::TokenExpected { expected, found, pos }) => {
            assert_eq!(expected, ";");
            assert_eq!(found, "a 'IntNumber'");
            assert_eq!(pos, 1);
        }
        other => panic!("{other:?}"),
    }
    match compile("true ? 1 ; 2") {
        Err(CompilationError::TokenExpected { expected, found, .. }) => {
            assert_eq!(expected, ":");
            assert_eq!(found, ";");
        }
        other => panic!("{other:?}"),
    }
    match compile("\n9223372036854775808") {
        Err(CompilationError::ParseInt { token, pos }) => {
            assert_eq!(token, "9223372036854775808");
            assert_eq!(pos, 2);
        }
        other => panic!("{other:?}"),
    }
    match compile("0x8000000000000000") {
        Err(CompilationError::ParseHex { token, pos }) => {
            assert_eq!(token, "8000000000000000");
            assert_eq!(pos, 1);
        }
        other => panic!("{other:?}"),
    }
    match compile("0x") {
        Err(CompilationError::ParseHex { token, .. }) => assert_eq!(token, ""),
        other => panic!("{other:?}"),
    }
    match compile("5x1F") {
        Err(CompilationError::ParseHex { token, .. }) => assert_eq!(token, "5x1F"),
        other => panic!("{other:?}"),
    }
    match compile("1 # 2") {
        Err(CompilationError::UnexpectedChar { c, pos }) => {
            assert_eq!(c, '#');
            assert_eq!(pos, 1);
        }
        other => panic!("{other:?}"),
    }
    match compile("1..2") {
        Err(CompilationError::UnexpectedChar { c, .. }) => assert_eq!(c, '.'),
        other => panic!("{other:?}"),
    }
}

#[test]
fn numbers_that_fit() {
    let chunk = compile("9223372036854775807; 0x7FFFFFFFFFFFFFFF; 0xff; 007").expect("compiles");
    match chunk.read_constant(0) {
        Some(Constant::Value(ScriptingValue::Int64(i64::MAX))) => {}
        other => panic!("{other:?}"),
    }
    match chunk.read_constant(1) {
        Some(Constant::Value(ScriptingValue::Int64(i64::MAX))) => {}
        other => panic!("{other:?}"),
    }
    match chunk.read_constant(2) {
        Some(Constant::Value(ScriptingValue::Int64(255))) => {}
        other => panic!("{other:?}"),
    }
    match chunk.read_constant(3) {
        Some(Constant::Value(ScriptingValue::Int64(7))) => {}
        other => panic!("{other:?}"),
    }
}

#[test]
fn tokens_know_where_they_come_from() {
    let all = tokens("x :=\n  'päng' + 12.5;");
    let seen: Vec<(TokenKind, &str, usize, usize)> =
        all.iter().map(|t| (t.kind(), t.origin.as_str(), t.offset, t.line)).collect();
    assert_eq!(
        seen,
        vec![
            (TokenKind::Ident, "x", 0, 1),
            (TokenKind::ColonEqual, ":=", 2, 1),
            (TokenKind::String, "päng", 7, 2),
            (TokenKind::Plus, "+", 15, 2),
            (TokenKind::FloatNumber, "12.5", 17, 2),
            (TokenKind::Semicolon, ";", 21, 2),
        ]
    );
}

#[test]
fn whitespace_in_compound_operators() {
    for (first, second, kind) in [
        (":", "=", TokenKind::ColonEqual),
        ("=", "=", TokenKind::EqualEqual),
        ("!", "=", TokenKind::BangEqual),
        ("+", "=", TokenKind::PlusEqual),
        ("-", "=", TokenKind::MinusEqual),
        ("*", "=", TokenKind::StarEqual),
        ("/", "=", TokenKind::SlashEqual),
        ("<", "=", TokenKind::LessEqual),
        (">", "=", TokenKind::GreaterEqual),
        ("&", "&", TokenKind::And),
        ("|", "|", TokenKind::Or),
    ] {
        for gap in ["", " ", "   ", "\t", " \n ", "\u{a0}\u{2003}"] {
            let script = format!("{first}{gap}{second}");
            let all = tokens(&script);
            assert_eq!(all.len(), 1, "{script:?}");
            assert_eq!(all[0].kind(), kind, "{script:?}");
            assert_eq!(all[0].origin, script);
            assert_eq!(all[0].offset, 0);
            assert_eq!(all[0].line, 1);
        }
    }
}

#[test]
fn line_breaks_are_counted() {
    let all = tokens("a <\n\n b\nc :\n= 'two\nlines' d");
    let seen: Vec<(TokenKind, usize)> = all.iter().map(|t| (t.kind(), t.line)).collect();
    assert_eq!(
        seen,
        vec![
            (TokenKind::Ident, 1),
            (TokenKind::Less, 1),
            (TokenKind::Ident, 3),
            (TokenKind::Ident, 4),
            (TokenKind::ColonEqual, 4),
            (TokenKind::String, 5),
            (TokenKind::Ident, 5),
        ]
    );
}

#[test]
fn numbers_take_one_dot() {
    let kinds = |script: &str| -> Vec<(TokenKind, String)> {
        let enums = EnumTable::new();
        let mut lexer = Lexer::new(&enums, script);
        let mut all = Vec::new();
        while let Some(Ok(token)) = lexer.next() {
            all.push((token.kind(), token.origin));
        }
        all
    };
    assert_eq!(kinds("1.5"), vec![(TokenKind::FloatNumber, "1.5".to_string())]);
    assert_eq!(kinds("1."), vec![(TokenKind::IntNumber, "1".to_string())]);
    assert_eq!(kinds("1.."), vec![(TokenKind::FloatNumber, "1.".to_string())]);
    assert_eq!(kinds("1.2.3"), vec![(TokenKind::FloatNumber, "1.2".to_string())]);
    assert_eq!(
        kinds("12abc"),
        vec![(TokenKind::IntNumber, "12".to_string()), (TokenKind::Ident, "abc".to_string())]
    );
    assert_eq!(
        kinds("0x1Fg"),
        vec![(TokenKind::HexNumber, "0x1F".to_string()), (TokenKind::Ident, "g".to_string())]
    );
}

#[test]
fn the_lexer_goes_on_after_an_error() {
    let enums = EnumTable::new();
    let mut lexer = Lexer::new(&enums, "a # b");
    assert_eq!(lexer.next().expect("more").expect("a token").kind(), TokenKind::Ident);
    match lexer.next() {
        Some(Err(CompilationError::UnexpectedChar { c, pos })) => {
            assert_eq!(c, '#');
            assert_eq!(pos, 1);
        }
        other => panic!("{other:?}"),
    }
    assert_eq!(lexer.next().expect("more").expect("a token").kind(), TokenKind::Ident);
    assert!(lexer.next().is_none());
}

#[test]
fn the_lexer_starts_anew() {
    let enums = EnumTable::new();
    let mut lexer = Lexer::new(&enums, "\n\na b");
    assert_eq!(lexer.next().expect("more").expect("a token").line, 3);
    lexer.set_input("c");
    let token = lexer.next().expect("more").expect("a token");
    assert_eq!((token.origin.as_str(), token.offset, token.line), ("c", 0, 1));
    assert!(lexer.next().is_none());
    assert!(lexer.enums().get("c").is_none());
}

#[test]
fn the_end_of_the_input_is_a_token_of_its_own() {
    let none = Token::none();
    assert_eq!(none.kind(), TokenKind::EndOfInput);
    assert_eq!(none.origin, "");
    assert_eq!(none.offset, 0);
    assert_eq!(none.line, 0);
    assert_eq!(none.clone().kind(), TokenKind::EndOfInput);
}

#[test]
fn whitespace_is_what_unicode_calls_so() {
    let enums = EnumTable::new();
    for code in 0..=0x10FFFFu32 {
        let Some(c) = char::from_u32(code) else { continue };
        if c == '\n' {
            continue;
        }
        let text = c.to_string();
        let mut lexer = Lexer::new(&enums, &text);
        let skipped = lexer.next().is_none();
        assert_eq!(skipped, c.is_whitespace(), "{code:x}");
    }
}

#[test]
fn listing() {
    let chunk = compile("x := 1 + 2.5;\nprint x > 0 && true").expect("compiles");
    let expected = "\
== script ==
0000    1 OP_CONSTANT        0 1
0002    | OP_CONSTANT        1 2.5
0004    | OP_ADD          
0005    | OP_DEFINE_GLOBAL   2 x
0007    2 OP_GET_GLOBAL      3 x
0009    | OP_CONSTANT        4 0
0011    | OP_GREATER      
0012    | OP_JMP_IF_FALSE  00012 00017
0015    | OP_POP          
0016    | OP_TRUE         
0017    | OP_PRINT        
0018    | OP_RETURN       
";
    assert_eq!(chunk.disassemble("script"), expected);
    assert_eq!(Chunk::default().disassemble(""), "==  ==\n");
}

/// Walks through the instructions of a chunk: each is known and has its
/// operand, each constant that is named is there, and each jump leads
/// ahead, to an instruction.
fn walk(chunk: &Chunk) {
    let code = chunk.code();
    let mut starts = vec![false; code.len() + 1];
    let mut targets = Vec::new();
    let mut at = 0;
    while at < code.len() {
        starts[at] = true;
        let op = OpCode::from(code[at]);
        assert_ne!(op, OpCode::NoOperation, "at {at}");
        at += 1;
        match op {
            OpCode::Constant | OpCode::DefineExternal | OpCode::GetExternal | OpCode::SetExternal => {
                assert!(at < code.len());
                assert!(chunk.read_constant(code[at]).is_some());
                at += 1;
            }
            OpCode::Jmp | OpCode::JmpIfTrue | OpCode::JmpIfFalse => {
                assert!(at + 1 < code.len());
                let target = code[at] as usize * 256 + code[at + 1] as usize;
                assert!(target > at + 1 && target < code.len(), "at {at}");
                targets.push(target);
                at += 2;
            }
            _ => {}
        }
    }
    assert_eq!(at, code.len());
    for target in targets {
        assert!(starts[target], "to {target}");
    }
}

#[test]
fn chunks_are_made_of_instructions() {
    for script in [
        "",
        "1",
        "x := 1; print x + 2.5 * (3 - y);",
        "a && b || c ? d : e ? f : g",
        "x += true ? 1 : 2; y = !x & ~3 | 4 ^ 5",
        "print 'a' + 'b' == 'ab' != (1 <= 2) >= false",
    ] {
        walk(&compile(script).expect("compiles"));
    }
}

/// Numbers that follow from one another, for scripts made by chance.
fn next_number(seed: &mut u64) -> usize {
    *seed = seed.wrapping_mul(6364136223846793005).wrapping_add(1442695040888963407);
    (*seed >> 33) as usize
}

#[test]
fn scripts_made_by_chance_compile_or_fail() {
    let pieces = [
        "1", "23", "0x1f", "4.5", "'text'", "x", "y_2", "@z", "true", "false", "nil", "print", "(", ")",
        ";", "+", "-", "*", "/", "+=", "-=", "*=", "/=", ":=", "=", "==", "!=", "<", "<=", ">", ">=",
        "&&", "||", "&", "|", "^", "~", "!", "?", ":", " ", "\n", "#", "'", ".", "RED",
    ];
    let mut enums = EnumTable::new();
    enums.insert("RED".to_string(), 7);
    let mut seed = 42;
    let mut compiled = 0;
    for _ in 0..3000 {
        let mut script = String::new();
        for _ in 0..(1 + next_number(&mut seed) % 12) {
            script.push_str(pieces[next_number(&mut seed) % pieces.len()]);
        }
        let one = Parser::new().parse(&enums, &script);
        let other = Parser::new().parse(&enums, &script);
        match (one, other) {
            (Ok(a), Ok(b)) => {
                compiled += 1;
                assert_eq!(a.code(), b.code(), "{script:?}");
                assert_eq!(a.code().last(), Some(&25), "{script:?}");
                assert!(a.constants() <= 256);
                assert_eq!(a.disassemble("a"), b.disassemble("a"));
                walk(&a);
            }
            (Err(a), Err(b)) => assert_eq!(a.to_string(), b.to_string(), "{script:?}"),
            (a, b) => panic!("{script:?}: {a:?} {b:?}"),
        }
    }
    assert!(compiled > 100, "{compiled}");
}

#[test]
fn a_compiled_chunk_is_marked_as_finished() {
    let mut chunk = Chunk::default();
    assert!(!chunk.is_finalized());
    chunk.write(25, 1);
    assert!(!chunk.is_finalized());
    chunk.finalize();
    assert!(chunk.is_finalized());
    assert_eq!(chunk.code().clone(), vec![25]);
    assert_eq!(chunk.line(0), Some(1));
    assert_eq!(chunk.constants(), 0);
    assert!(compile("").expect("compiles").is_finalized());
    assert!(compile("x := 1; print x").expect("compiles").is_finalized());
    assert!(Runtime::default().parse("1 + 2").expect("compiles").is_finalized());
}
