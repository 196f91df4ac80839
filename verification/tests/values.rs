//! Values, their texts and their conversions.
use tinyscript::compilation::{CompilationError, Precedence, TokenKind};
use tinyscript::environment;
use tinyscript::execution::op_code::OpCode;
use tinyscript::execution::vm::{
    arithmetic_values, bitwise_values, compare_values, equal_values, negate_value, not_value, Evaluated,
};
use tinyscript::execution::{ExecutionError, Number, Request, Waiting};
use tinyscript::script_enum::discriminants;
use tinyscript::text::{decimal_text, parse_decimal, parse_hex, unsigned_text};
use tinyscript::{Error, ScriptingValue};

fn value_of(result: Result<Evaluated, ExecutionError>) -> ScriptingValue {
    match result {
        Ok(Evaluated::Value(value)) => value,
        other => panic!("{other:?}"),
    }
}

fn text(s: &str) -> ScriptingValue {
    ScriptingValue::String(s.to_string())
}

#[test]
fn equality_is_reflexive_within_a_kind() {
    let values = [
        ScriptingValue::Nil(),
        ScriptingValue::Boolean(true),
        ScriptingValue::Boolean(false),
        ScriptingValue::Int64(0),
        ScriptingValue::Int64(i64::MIN),
        text(""),
        text("text"),
    ];
    for (i, a) in values.iter().enumerate() {
        for (j, b) in values.iter().enumerate() {
            match value_of(equal_values(a, b)) {
                ScriptingValue::Boolean(equal) => assert_eq!(equal, i == j, "{a:?} {b:?}"),
                other => panic!("{other:?}"),
            }
        }
    }
}

#[test]
fn equality_of_floats_is_asked_for() {
    let one = ScriptingValue::Float64(1.5f64.to_bits());
    match equal_values(&one, &ScriptingValue::Int64(2)) {
        Ok(Evaluated::Ask { request: Request::Equal { left, right }, waiting: Waiting::Truth, keep: None }) => {
            assert_eq!(left, Number::Float(1.5f64.to_bits()));
            assert_eq!(right, Number::Int(2));
        }
        other => panic!("{other:?}"),
    }
    match value_of(equal_values(&one, &text("1.5"))) {
        ScriptingValue::Boolean(false) => {}
        other => panic!("{other:?}"),
    }
    match value_of(equal_values(&ScriptingValue::Nil(), &one)) {
        ScriptingValue::Boolean(false) => {}
        other => panic!("{other:?}"),
    }
}

#[test]
fn arithmetic_on_values() {
    match value_of(arithmetic_values(OpCode::Add, ScriptingValue::Int64(2), ScriptingValue::Int64(3))) {
        ScriptingValue::Int64(5) => {}
        other => panic!("{other:?}"),
    }
    match value_of(arithmetic_values(OpCode::Divide, ScriptingValue::Int64(-7), ScriptingValue::Int64(2))) {
        ScriptingValue::Int64(-3) => {}
        other => panic!("{other:?}"),
    }
    match value_of(arithmetic_values(OpCode::Add, text("x"), ScriptingValue::Boolean(true))) {
        ScriptingValue::String(joined) => assert_eq!(joined, "xtrue"),
        other => panic!("{other:?}"),
    }
    match value_of(arithmetic_values(OpCode::Add, ScriptingValue::Int64(-5), text("x"))) {
        ScriptingValue::String(joined) => assert_eq!(joined, "-5x"),
        other => panic!("{other:?}"),
    }
    match arithmetic_values(OpCode::Add, ScriptingValue::Boolean(true), ScriptingValue::Int64(1)) {
        Err(ExecutionError::BoolNoArithmetic) => {}
        other => panic!("{other:?}"),
    }
    match arithmetic_values(OpCode::Multiply, ScriptingValue::Float64(0), ScriptingValue::Int64(1)) {
        Ok(Evaluated::Ask { request: Request::Arithmetic { operator: OpCode::Multiply, left, right }, waiting, keep }) => {
            assert_eq!(left, Number::Float(0));
            assert_eq!(right, Number::Int(1));
            assert_eq!(waiting, Waiting::Number);
            assert!(keep.is_none());
        }
        other => panic!("{other:?}"),
    }
    match arithmetic_values(OpCode::Add, ScriptingValue::Float64(7), text("x")) {
        Ok(Evaluated::Ask { request: Request::Show { bits: 7 }, waiting: Waiting::JoinBefore, keep }) => {
            match keep {
                Some(ScriptingValue::String(kept)) => assert_eq!(kept, "x"),
                other => panic!("{other:?}"),
            }
        }
        other => panic!("{other:?}"),
    }
    match arithmetic_values(OpCode::Equal, ScriptingValue::Int64(1), ScriptingValue::Int64(1)) {
        Err(ExecutionError::Unreachable) => {}
        other => panic!("{other:?}"),
    }
}

#[test]
fn other_operations_on_values() {
    match value_of(compare_values(OpCode::Less, &ScriptingValue::Int64(1), &ScriptingValue::Int64(2))) {
        ScriptingValue::Boolean(true) => {}
        other => panic!("{other:?}"),
    }
    match value_of(compare_values(OpCode::Greater, &ScriptingValue::Int64(1), &ScriptingValue::Int64(2))) {
        ScriptingValue::Boolean(false) => {}
        other => panic!("{other:?}"),
    }
    match compare_values(OpCode::Add, &ScriptingValue::Int64(1), &ScriptingValue::Int64(2)) {
        Err(ExecutionError::Unreachable) => {}
        other => panic!("{other:?}"),
    }
    match value_of(bitwise_values(OpCode::BitwiseXor, ScriptingValue::Int64(6), ScriptingValue::Int64(3))) {
        ScriptingValue::Int64(5) => {}
        other => panic!("{other:?}"),
    }
    match value_of(negate_value(ScriptingValue::Float64(1.5f64.to_bits()))) {
        ScriptingValue::Float64(bits) => assert_eq!(f64::from_bits(bits), -1.5),
        other => panic!("{other:?}"),
    }
    match value_of(negate_value(ScriptingValue::Float64(0f64.to_bits()))) {
        ScriptingValue::Float64(bits) => assert_eq!(bits, (-0f64).to_bits()),
        other => panic!("{other:?}"),
    }
    match value_of(negate_value(ScriptingValue::Int64(i64::MIN))) {
        ScriptingValue::Int64(i64::MIN) => {}
        other => panic!("{other:?}"),
    }
    match value_of(not_value(&ScriptingValue::Nil())) {
        ScriptingValue::Boolean(true) => {}
        other => panic!("{other:?}"),
    }
    match value_of(not_value(&ScriptingValue::Int64(0))) {
        ScriptingValue::Boolean(false) => {}
        other => panic!("{other:?}"),
    }
}

#[test]
fn values_from_values_of_the_host() {
    assert!(matches!(ScriptingValue::from(true), ScriptingValue::Boolean(true)));
    assert!(matches!(ScriptingValue::from(-5i64), ScriptingValue::Int64(-5)));
    assert!(matches!(ScriptingValue::from(-5i32), ScriptingValue::Int64(-5)));
    assert!(matches!(ScriptingValue::from(5u32), ScriptingValue::Int64(5)));
    assert!(matches!(ScriptingValue::from(-5i16), ScriptingValue::Int64(-5)));
    assert!(matches!(ScriptingValue::from(5u16), ScriptingValue::Int64(5)));
    assert!(matches!(ScriptingValue::from(-128i8), ScriptingValue::Int64(-128)));
    assert!(matches!(ScriptingValue::from(255u8), ScriptingValue::Int64(255)));
    assert!(matches!(ScriptingValue::try_from(5u64), Ok(ScriptingValue::Int64(5))));
    match ScriptingValue::try_from(u64::MAX) {
        Err(Error::TryConversion { value: ScriptingValue::String(shown), into }) => {
            assert_eq!(shown, "18446744073709551615");
            assert_eq!(into, "ScriptingValue");
        }
        other => panic!("{other:?}"),
    }
    assert!(matches!(ScriptingValue::nil(), ScriptingValue::Nil()));
}

#[test]
fn values_as_values_of_the_host() {
    assert_eq!(i64::try_from(ScriptingValue::Int64(i64::MIN)).ok(), Some(i64::MIN));
    assert_eq!(u64::try_from(ScriptingValue::Int64(i64::MAX)).ok(), Some(i64::MAX as u64));
    assert!(u64::try_from(ScriptingValue::Int64(-1)).is_err());
    assert_eq!(i32::try_from(ScriptingValue::Int64(i32::MIN as i64)).ok(), Some(i32::MIN));
    assert!(i32::try_from(ScriptingValue::Int64(i32::MAX as i64 + 1)).is_err());
    assert_eq!(u32::try_from(ScriptingValue::Int64(u32::MAX as i64)).ok(), Some(u32::MAX));
    assert!(u32::try_from(ScriptingValue::Int64(-1)).is_err());
    assert_eq!(i16::try_from(ScriptingValue::Int64(-32768)).ok(), Some(i16::MIN));
    assert!(i16::try_from(ScriptingValue::Int64(32768)).is_err());
    assert_eq!(u16::try_from(ScriptingValue::Int64(65535)).ok(), Some(u16::MAX));
    assert!(u16::try_from(ScriptingValue::Int64(65536)).is_err());
    assert_eq!(i8::try_from(ScriptingValue::Int64(-128)).ok(), Some(i8::MIN));
    assert!(i8::try_from(ScriptingValue::Int64(128)).is_err());
    assert_eq!(u8::try_from(ScriptingValue::Int64(255)).ok(), Some(u8::MAX));
    assert!(u8::try_from(ScriptingValue::Int64(256)).is_err());
    assert_eq!(bool::try_from(ScriptingValue::Boolean(true)).ok(), Some(true));
    assert_eq!(String::try_from(text("x")).ok(), Some("x".to_string()));
    assert_eq!(text("x").as_str().ok(), Some("x"));
    assert_eq!(ScriptingValue::Float64(9).float_bits().ok(), Some(9));
    assert_eq!(ScriptingValue::Boolean(false).as_bool().ok(), Some(false));
    assert!(ScriptingValue::Boolean(false).is_bool());
    assert!(!ScriptingValue::Int64(1).is_bool());
    match i8::try_from(text("1")) {
        Err(Error::TryConversion { value: ScriptingValue::String(kept), into }) => {
            assert_eq!(kept, "1");
            assert_eq!(into, "i8");
        }
        other => panic!("{other:?}"),
    }
    match bool::try_from(ScriptingValue::Int64(1)) {
        Err(Error::TryConversion { value: ScriptingValue::Int64(1), into }) => assert_eq!(into, "bool"),
        other => panic!("{other:?}"),
    }
    match ScriptingValue::Nil().as_bool() {
        Err(ExecutionError::NoBoolean { value: ScriptingValue::Nil() }) => {}
        other => panic!("{other:?}"),
    }
    match ScriptingValue::Nil().as_str() {
        Err(Error::TryConversion { into, .. }) => assert_eq!(into, "&str"),
        other => panic!("{other:?}"),
    }
    match ScriptingValue::Nil().float_bits() {
        Err(Error::TryConversion { into, .. }) => assert_eq!(into, "f64"),
        other => panic!("{other:?}"),
    }
    match String::try_from(ScriptingValue::Nil()) {
        Err(Error::TryConversion { into, .. }) => assert_eq!(into, "String"),
        other => panic!("{other:?}"),
    }
}

#[test]
fn values_from_texts() {
    let read = |s: &str| ScriptingValue::from_str(s, s.parse::<f64>().ok().map(f64::to_bits));
    assert!(matches!(read("12"), ScriptingValue::Int64(12)));
    assert!(matches!(read("-12"), ScriptingValue::Int64(-12)));
    assert!(matches!(read("+12"), ScriptingValue::Int64(12)));
    assert!(matches!(read("-9223372036854775808"), ScriptingValue::Int64(i64::MIN)));
    assert!(matches!(read("9223372036854775807"), ScriptingValue::Int64(i64::MAX)));
    match read("9223372036854775808") {
        ScriptingValue::Float64(bits) => assert_eq!(f64::from_bits(bits), 9223372036854775808.0),
        other => panic!("{other:?}"),
    }
    match read("1.5") {
        ScriptingValue::Float64(bits) => assert_eq!(f64::from_bits(bits), 1.5),
        other => panic!("{other:?}"),
    }
    assert!(matches!(read("true"), ScriptingValue::Boolean(true)));
    assert!(matches!(read("false"), ScriptingValue::Boolean(false)));
    for other in ["", "-", "+", "1 2", "True", "text", "--1"] {
        match read(other) {
            ScriptingValue::String(kept) => assert_eq!(kept, other),
            value => panic!("{value:?}"),
        }
    }
    for s in ["0", "-0", "+0", "17", "-17", "x", "1x", "", "99999999999999999999"] {
        let ours = matches!(ScriptingValue::from_str(s, None), ScriptingValue::Int64(_));
        assert_eq!(ours, s.parse::<i64>().is_ok(), "{s}");
    }
}

#[test]
fn numbers_as_texts() {
    for i in [0i64, 1, -1, 9, 10, 11, 99, 100, -100, 12345, i64::MAX, i64::MIN, i64::MIN + 1] {
        assert_eq!(decimal_text(i), i.to_string());
    }
    for u in [0u64, 7, 10, 18446744073709551615] {
        assert_eq!(unsigned_text(u), u.to_string());
    }
    assert_eq!(parse_decimal("0"), Some(0));
    assert_eq!(parse_decimal("0012"), Some(12));
    assert_eq!(parse_decimal("9223372036854775807"), Some(i64::MAX));
    assert_eq!(parse_decimal("9223372036854775808"), None);
    assert_eq!(parse_decimal("99999999999999999999999"), None);
    assert_eq!(parse_decimal(""), None);
    assert_eq!(parse_decimal("1a"), None);
    assert_eq!(parse_decimal("-1"), None);
    assert_eq!(parse_hex("fF"), Some(255));
    assert_eq!(parse_hex("7fffffffffffffff"), Some(i64::MAX));
    assert_eq!(parse_hex("8000000000000000"), None);
    assert_eq!(parse_hex("g"), None);
    assert_eq!(parse_hex(""), None);
}

#[test]
fn texts_of_values() {
    assert_eq!(tinyscript::scripting_value::text_of(&ScriptingValue::Nil()), "nil");
    assert_eq!(tinyscript::scripting_value::text_of(&ScriptingValue::Boolean(true)), "true");
    assert_eq!(tinyscript::scripting_value::text_of(&ScriptingValue::Boolean(false)), "false");
    assert_eq!(tinyscript::scripting_value::text_of(&ScriptingValue::Int64(-42)), "-42");
    assert_eq!(tinyscript::scripting_value::text_of(&text("a b")), "a b");
    assert_eq!(tinyscript::scripting_value::text_of(&ScriptingValue::Float64(0)), "");
}

#[test]
fn messages() {
    assert_eq!(
        CompilationError::ConstantStorageOverflow.to_string(),
        "to many constant values defined: storage overflow"
    );
    assert_eq!(
        CompilationError::EnumValNotFound { value: "RED".into(), pos: 3 }.to_string(),
        "the ScriptEnum value RED at line 3 is not defined"
    );
    assert_eq!(
        CompilationError::ExpressionExpected { token: ";".into(), pos: 12 }.to_string(),
        "expression expected at line 12, got ;"
    );
    assert_eq!(
        CompilationError::ParseHex { token: "zz".into(), pos: 1 }.to_string(),
        "could not parse zz at line 1 as Hex value"
    );
    assert_eq!(
        CompilationError::ParseInt { token: "99".into(), pos: 1 }.to_string(),
        "could not parse 99 at line 1 as Integer value"
    );
    assert_eq!(
        CompilationError::ParseNumber { token: "1.5".into(), pos: 1 }.to_string(),
        "could not parse 1.5 at line 1 as Double value"
    );
    assert_eq!(
        CompilationError::TokenExpected { expected: ")".into(), found: "NONE".into(), pos: 0 }.to_string(),
        "expected token ), found Token NONE at line 0"
    );
    assert_eq!(
        CompilationError::UnexpectedChar { c: 'ß', pos: 2 }.to_string(),
        "unexpected character ß at line 2"
    );
    assert_eq!(
        CompilationError::UnterminatedString { str: "'abc".into(), pos: 7 }.to_string(),
        "unterminated string 'abc at line 7"
    );
    assert_eq!(
        CompilationError::Unreachable { file: "Parser".into(), line: 0 }.to_string(),
        "Parser at line 0 should be unreachable"
    );
    assert_eq!(
        ExecutionError::BoolNoArithmetic.to_string(),
        "boolean values do not allow arithmetic operations"
    );
    assert_eq!(
        ExecutionError::NilValue.to_string(),
        "value is 'Nil' which does not allow any operation"
    );
    assert_eq!(
        ExecutionError::NoBoolean { value: ScriptingValue::Int64(1) }.to_string(),
        "expected boolean ('true'/'false'), got 1"
    );
    assert_eq!(ExecutionError::NoComparison.to_string(), "comparing values needs two numeric types");
    assert_eq!(
        ExecutionError::NoInteger { value: text("x") }.to_string(),
        "expected integer value, got x"
    );
    assert_eq!(
        ExecutionError::NoNumber { value: ScriptingValue::Nil() }.to_string(),
        "expected numerical value, got nil"
    );
    assert_eq!(ExecutionError::StackOverflow.to_string(), "stack overflow, to many variables/values");
    assert_eq!(ExecutionError::OnlyAdd.to_string(), "to Strings you can only 'ADD' something");
    assert_eq!(ExecutionError::DivisionByZero.to_string(), "an integer cannot be divided by zero");
    assert_eq!(ExecutionError::Unreachable.to_string(), "the machine cannot go on from this state");
    let missing = || environment::Error::EnvVarNotDefined { name: "x".into() };
    assert_eq!(missing().to_string(), "the environment variable x has not been defined");
    assert_eq!(
        environment::Error::EnvVarExceedsLimits { name: "x".into() }.to_string(),
        "the environment variable x exceeds the limits of its defined type"
    );
    assert_eq!(
        environment::Error::EnvVarUnknownType { name: "x".into() }.to_string(),
        "the environment variable x has an unknown type"
    );
    assert_eq!(
        environment::Error::EnvVarWrongType { name: "x".into() }.to_string(),
        "the type of the environment variable x does not match its former definition"
    );
    assert_eq!(
        environment::Error::EnvVarSet { name: "x".into(), cause: "locked".into() }.to_string(),
        "setting environment variable x failed: locked"
    );
    assert_eq!(
        environment::Error::EnvVarTypeCast { name: "x".into(), var_type: "u8".into() }.to_string(),
        "cast of variable x to u8 failed"
    );
    assert_eq!(
        ExecutionError::from(missing()).to_string(),
        "environment error: the environment variable x has not been defined"
    );
    assert_eq!(
        Error::from(ExecutionError::OnlyAdd).to_string(),
        "execution error:to Strings you can only 'ADD' something"
    );
    assert_eq!(
        Error::from(CompilationError::ConstantStorageOverflow).to_string(),
        "compilation error: to many constant values defined: storage overflow"
    );
    assert_eq!(
        Error::DuplicateVariant { name: "RED".into(), old: -1, new: 127 }.to_string(),
        "enum variant RED already exists with value -1 new value: 127"
    );
    assert_eq!(
        Error::TryConversion { value: ScriptingValue::Boolean(true), into: "i64".into() }.to_string(),
        "conversion of value true into i64 is not possible"
    );
}

#[test]
fn token_kinds_have_texts() {
    assert_eq!(TokenKind::EndOfInput.to_string(), "NONE");
    assert_eq!(TokenKind::ColonEqual.to_string(), ":=");
    assert_eq!(TokenKind::GreaterEqual.to_string(), ">=");
    assert_eq!(TokenKind::Nil.to_string(), "'nil'");
    assert_eq!(TokenKind::Print.to_string(), "'print'");
    assert_eq!(TokenKind::Ident.to_string(), "an 'Ident'");
    assert_eq!(TokenKind::FloatNumber.to_string(), "a 'FloatNumber'");
    assert_eq!(TokenKind::String.to_string(), "a 'String'");
    assert_eq!(TokenKind::Enum.to_string(), "an 'Enum'");
}

#[test]
fn precedence_levels() {
    let mut level = Precedence::Lowest;
    let mut count = 0;
    while let Some(next) = level.next_higher() {
        assert_eq!(next.rank(), level.rank() + 1);
        level = next;
        count += 1;
    }
    assert_eq!(count, 13);
    assert_eq!(level, Precedence::Primary);
    assert_eq!(Precedence::Assignment.next_higher(), Some(Precedence::Ternary));
    assert_eq!(Precedence::Term.next_higher(), Some(Precedence::Factor));
}

#[test]
fn op_codes_are_bytes() {
    for byte in 0..=255u8 {
        let op = OpCode::from(byte);
        if op == OpCode::NoOperation {
            assert!(byte == 0 || (byte > 25 && byte != 254), "{byte}");
        } else {
            assert_eq!(op.byte(), byte);
        }
    }
    assert_eq!(OpCode::Constant.byte(), 1);
    assert_eq!(OpCode::Jmp.byte(), 12);
    assert_eq!(OpCode::Return.byte(), 25);
    assert_eq!(OpCode::Print.byte(), 254);
}

#[test]
fn variants_are_numbered() {
    assert_eq!(discriminants(&vec![]), Some(vec![]));
    assert_eq!(discriminants(&vec![None, None, None]), Some(vec![0, 1, 2]));
    assert_eq!(discriminants(&vec![Some(5), None, Some(-3), None, None]), Some(vec![5, 6, -3, -2, -1]));
    assert_eq!(discriminants(&vec![Some(126), None]), Some(vec![126, 127]));
    assert_eq!(discriminants(&vec![Some(127), None]), None);
    assert_eq!(discriminants(&vec![Some(127), Some(0), None]), Some(vec![127, 0, 1]));
}
