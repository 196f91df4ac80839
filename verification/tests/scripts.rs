//! Scripts, from their text to what they print.
use tinyscript::execution::op_code::OpCode;
use tinyscript::execution::{ExecutionError, Number, Reply, Request, Step};
use tinyscript::{DefaultEnvironment, Environment, Error, Runtime, ScriptingValue};

fn float(number: Number) -> f64 {
    match number {
        Number::Int(i) => i as f64,
        Number::Float(bits) => f64::from_bits(bits),
    }
}

/// What a host with floating-point numbers answers.
fn serve(request: Request) -> Reply {
    match request {
        Request::Read { text } => Reply::Number(text.parse::<f64>().expect("a number").to_bits()),
        Request::Arithmetic { operator, left, right } => {
            let (a, b) = (float(left), float(right));
            let result = match operator {
                OpCode::Add => a + b,
                OpCode::Subtract => a - b,
                OpCode::Multiply => a * b,
                OpCode::Divide => a / b,
                other => panic!("no arithmetic: {other:?}"),
            };
            Reply::Number(result.to_bits())
        }
        Request::Compare { operator, left, right } => {
            let (a, b) = (float(left), float(right));
            Reply::Truth(match operator {
                OpCode::Greater => a > b,
                OpCode::Less => a < b,
                other => panic!("no comparison: {other:?}"),
            })
        }
        Request::Equal { left, right } => {
            Reply::Truth((float(left) - float(right)).abs() <= 0.000_000_000_000_002)
        }
        Request::Show { bits } => Reply::Text(format!("{}", f64::from_bits(bits))),
        other => panic!("not for the host: {other:?}"),
    }
}

fn finish(
    runtime: &mut Runtime,
    env: &mut DefaultEnvironment,
    first: Result<Step, Error>,
) -> Result<ScriptingValue, Error> {
    let mut step = first?;
    loop {
        match step {
            Step::Finished(value) => return Ok(value),
            Step::Waiting(request) => step = runtime.reply(env, serve(request))?,
        }
    }
}

fn run(runtime: &mut Runtime, env: &mut DefaultEnvironment, script: &str) -> Result<ScriptingValue, Error> {
    let first = runtime.run(script, env);
    finish(runtime, env, first)
}

fn prints(cases: &[(&str, &[u8])]) {
    for (input, expected) in cases {
        let mut env = DefaultEnvironment::default();
        let mut runtime = Runtime::default();
        run(&mut runtime, &mut env, input).expect("should not happen");
        assert_eq!(
            String::from_utf8_lossy(runtime.stdout()),
            String::from_utf8_lossy(expected),
            "{input}"
        );
        assert_eq!(runtime.stdout().as_slice(), *expected, "{input}");
    }
}

fn fails(script: &str) -> Error {
    let mut env = DefaultEnvironment::default();
    let mut runtime = Runtime::default();
    match run(&mut runtime, &mut env, script) {
        Ok(value) => panic!("{script} gives {value:?}"),
        Err(error) => error,
    }
}

#[test]
fn define_globals() {
    prints(&[
        ("test:=3;print test;", b"3\n"),
        ("test:=3.0;print test;", b"3\n"),
        ("@test:=17;print @test;", b"17\n"),
        ("_test:='string';print _test;", b"string\n"),
        ("test:=0xf;print test;", b"15\n"),
        ("test:='string';print test;", b"string\n"),
    ]);
}

#[test]
fn change_globals() {
    prints(&[
        ("test:=3;test=7;print test;", b"7\n"),
        ("test:=3.0;test=7.0;print test;", b"7\n"),
        ("test:=0xf;test=0x1;print test;", b"1\n"),
        ("test:='string';test='other';print test;", b"other\n"),
    ]);
}

#[test]
fn assignment_with_change() {
    prints(&[
        ("test:=3;test+=7;print test;", b"10\n"),
        ("test:=0xf;test+=0x1;print test;", b"16\n"),
        ("test:='string';test+=' other';print test;", b"string other\n"),
        ("test:=3;test-=7;print test;", b"-4\n"),
        ("test:=3;test*=7;print test;", b"21\n"),
        ("test:=6;test/=2;print test;", b"3\n"),
    ]);
}

#[test]
fn assignment_with_complex_change() {
    prints(&[
        ("test:=3;test+=(17-10)*2-7;print test;", b"10\n"),
        ("test:=3;test-=(17-10)*2-7;print test;", b"-4\n"),
        ("test:=3;test*=(17-10)*2-7;print test;", b"21\n"),
        ("test:=6;test/=(17-10)*2-(7+5);print test;", b"3\n"),
        ("test:=3.0;test+=(17.0-10.0)*2.0-7.0;print test;", b"10\n"),
    ]);
}

#[test]
fn complex_examples() {
    prints(&[
        (
            "param_A:=7;param_B:=5;param_B*=2;param_C:=(param_A*3)+param_B;print param_B;print param_C",
            b"10\n31\n",
        ),
        (
            "value:=0x7F;val_A:=value&0x0F;val_B:=value|0xF0;print val_A;print val_B",
            b"15\n255\n",
        ),
        ("val_A:=2;val_B:=(val_A>1)?42:24;print val_B", b"42\n"),
        ("val_A:=0;val_B:=(val_A>1)?42:24;print val_B", b"24\n"),
    ]);
}

#[test]
fn add() {
    prints(&[
        ("print 123.0 + 456.0;", b"579\n"),
        ("print 123 + 456;", b"579\n"),
        ("print 'str' + 'ing';", b"string\n"),
        ("print 'is ' + true;", b"is true\n"),
        ("print 'is ' + false;", b"is false\n"),
        ("print 'value is ' + 123;", b"value is 123\n"),
        ("print 'value is ' + 0xff;", b"value is 255\n"),
        ("print 'value is ' + nil;", b"value is nil\n"),
    ]);
}

#[test]
fn add_numbers_to_texts() {
    prints(&[
        ("print 'value is ' + 1.5;", b"value is 1.5\n"),
        ("print 1.5 + ' is the value';", b"1.5 is the value\n"),
        ("print 12 + ' is the value';", b"12 is the value\n"),
        ("print nil + '!';", b"nil!\n"),
        ("print 2 + 1.5;", b"3.5\n"),
        ("print 1.5 + 2;", b"3.5\n"),
    ]);
}

#[test]
fn subtract() {
    prints(&[
        ("print 4.56 - 1.23;", b"3.3299999999999996\n"),
        ("print 456 - 123;", b"333\n"),
        ("print 1.23 - 3.21;", b"-1.98\n"),
    ]);
}

#[test]
fn multiply() {
    prints(&[
        ("print 123 * 456;", b"56088\n"),
        ("print -123 * 456;", b"-56088\n"),
        ("print 123 * -456;", b"-56088\n"),
        ("print 123.0 * 456.0;", b"56088\n"),
        ("print 1.2 * 3.4;", b"4.08\n"),
        ("print -1.2 * 3.4;", b"-4.08\n"),
        ("print 1.2 * -3.4;", b"-4.08\n"),
    ]);
}

#[test]
fn divide() {
    prints(&[
        ("print 6 / 3;", b"2\n"),
        ("print -6 / 3;", b"-2\n"),
        ("print 6 / -3;", b"-2\n"),
        ("print 6 / 3-6;", b"-4\n"),
        ("print 6 / (3-6);", b"-2\n"),
        ("print 1 / 3;", b"0\n"),
        ("print 1.0 / 3.0;", b"0.3333333333333333\n"),
    ]);
}

#[test]
fn divide_rounds_towards_zero() {
    prints(&[
        ("print 7 / 2;", b"3\n"),
        ("print -7 / 2;", b"-3\n"),
        ("print 7 / -2;", b"-3\n"),
        ("print -7 / -2;", b"3\n"),
        ("print (0 - 9223372036854775807 - 1) / -1;", b"-9223372036854775808\n"),
    ]);
}

#[test]
fn integers_wrap_around() {
    prints(&[
        ("print 9223372036854775807 + 1;", b"-9223372036854775808\n"),
        ("print 0 - 9223372036854775807 - 2;", b"9223372036854775807\n"),
        ("print 9223372036854775807 * 2;", b"-2\n"),
        ("print -(0 - 9223372036854775807 - 1);", b"-9223372036854775808\n"),
    ]);
}

#[test]
fn precedence() {
    prints(&[
        ("print (1+2)*3/1+1;", b"10\n"),
        ("print 1+4*3/6+1;", b"4\n"),
        ("print (1.1+1.9)*3.3/1.1+1.5;", b"10.499999999999998\n"),
    ]);
}

#[test]
fn equality() {
    prints(&[
        ("print nil == nil;", b"true\n"),
        ("print 0 == 0;", b"true\n"),
        ("print -0 == 0;", b"true\n"),
        ("print 0 == -0;", b"true\n"),
        ("print 1 == 1;", b"true\n"),
        ("print 1 == 2;", b"false\n"),
        ("print 'str' == 'str';", b"true\n"),
        ("print 'str' == 'ing';", b"false\n"),
        ("print 0 == '0';", b"false\n"),
        ("print 5.0 == 4.999999999999998;", b"true\n"),
        ("print 5 == 4.999999999999998;", b"true\n"),
        ("print 5 == 5.0;", b"true\n"),
        ("print 5.0 == 4;", b"false\n"),
        ("print 5 == 4.0;", b"false\n"),
    ]);
}

#[test]
fn inequality() {
    prints(&[
        ("print nil != nil;", b"false\n"),
        ("print 0 != 0;", b"false\n"),
        ("print 0 != -0;", b"false\n"),
        ("print 1 != 1;", b"false\n"),
        ("print 1 != 2;", b"true\n"),
        ("print 'str' != 'str';", b"false\n"),
        ("print 'str' != 'ing';", b"true\n"),
        ("print 0 != '0';", b"true\n"),
        ("print 5.0 != 4.999999999999998;", b"false\n"),
        ("print 5 != 4.999999999999998;", b"false\n"),
        ("print 5 != 5.0;", b"false\n"),
        ("print 5.0 != 4;", b"true\n"),
        ("print 5 != 4.0;", b"true\n"),
    ]);
}

#[test]
fn comparison() {
    prints(&[
        ("print 1<2;", b"true\n"),
        ("print 2<2;", b"false\n"),
        ("print 2<1;", b"false\n"),
        ("print 1<=2;", b"true\n"),
        ("print 2<=2;", b"true\n"),
        ("print 2<=1;", b"false\n"),
        ("print 1>2;", b"false\n"),
        ("print 2>2;", b"false\n"),
        ("print 2>1;", b"true\n"),
        ("print 1>=2;", b"false\n"),
        ("print 2>=2;", b"true\n"),
        ("print 2>=1;", b"true\n"),
        ("print 0<-0;", b"false\n"),
        ("print -0<0;", b"false\n"),
        ("print 0>-0;", b"false\n"),
        ("print -0>0;", b"false\n"),
        ("print 0<=-0;", b"true\n"),
        ("print -0<=0;", b"true\n"),
        ("print 0>=-0;", b"true\n"),
        ("print -0>=0;", b"true\n"),
    ]);
}

#[test]
fn comparison_of_mixed_numbers() {
    prints(&[
        ("print 1 < 1.5;", b"true\n"),
        ("print 1.5 < 1;", b"false\n"),
        ("print 2.5 > 2;", b"true\n"),
        ("print 2 >= 2.0;", b"true\n"),
        ("print 1.5 <= 1.25;", b"false\n"),
    ]);
}

#[test]
fn comparisons_bind_tighter_than_equality() {
    prints(&[
        ("print 1 <= 2 == true;", b"true\n"),
        ("print true == 2 >= 1;", b"true\n"),
        ("print 1 < 2 == 2 > 1;", b"true\n"),
    ]);
}

#[test]
fn negate() {
    prints(&[
        ("print -3;", b"-3\n"),
        ("print --3;", b"3\n"),
        ("print ---3;", b"-3\n"),
        ("print -3.0;", b"-3\n"),
        ("print --3.0;", b"3\n"),
        ("print ---3.0;", b"-3\n"),
    ]);
}

#[test]
fn bitwise_not() {
    prints(&[("print ~0;", b"-1\n"), ("print ~0x0F;", b"-16\n"), ("print ~~5;", b"5\n")]);
}

#[test]
fn unary_plus_changes_nothing() {
    prints(&[("print +3;", b"3\n"), ("print +'x';", b"x\n"), ("print (5 - (3 - 1)) + +1;", b"4\n")]);
}

#[test]
fn bool_equality() {
    prints(&[
        ("print true == true;", b"true\n"),
        ("print true == false;", b"false\n"),
        ("print false == true;", b"false\n"),
        ("print false == false;", b"true\n"),
        ("print true == 1;", b"false\n"),
        ("print false == 0;", b"false\n"),
        ("print true == 'true';", b"false\n"),
        ("print false == 'false';", b"false\n"),
        ("print true == '';", b"false\n"),
        ("print false == '';", b"false\n"),
    ]);
}

#[test]
fn bool_inequality() {
    prints(&[
        ("print true != true;", b"false\n"),
        ("print true != false;", b"true\n"),
        ("print false != true;", b"true\n"),
        ("print false != false;", b"false\n"),
        ("print true != 1;", b"true\n"),
        ("print false != 0;", b"true\n"),
        ("print true != 'true';", b"true\n"),
        ("print false != 'false';", b"true\n"),
        ("print true != '';", b"true\n"),
        ("print false != '';", b"true\n"),
    ]);
}

#[test]
fn negation() {
    prints(&[
        ("print !true;", b"false\n"),
        ("print !false;", b"true\n"),
        ("print !!true;", b"true\n"),
        ("print !!false;", b"false\n"),
        ("print !123;", b"false\n"),
        ("print !0;", b"false\n"),
        ("print !1;", b"false\n"),
        ("print !0.0;", b"false\n"),
        ("print !1.0;", b"false\n"),
        ("print !nil;", b"true\n"),
        ("print !'';", b"false\n"),
        ("print !'string';", b"false\n"),
    ]);
}

#[test]
fn and() {
    prints(&[
        ("print false && false", b"false\n"),
        ("print true && false", b"false\n"),
        ("print false && true", b"false\n"),
        ("print true && true", b"true\n"),
        ("print false && false && false", b"false\n"),
        ("print false && false && true", b"false\n"),
        ("print true && false && false", b"false\n"),
        ("print true && false && true", b"false\n"),
        ("print true && true && true", b"true\n"),
    ]);
}

#[test]
fn or() {
    prints(&[
        ("print false || false", b"false\n"),
        ("print true || false", b"true\n"),
        ("print false || true", b"true\n"),
        ("print true || true", b"true\n"),
        ("print false || false || false", b"false\n"),
        ("print false || false || true", b"true\n"),
        ("print true || false || false", b"true\n"),
        ("print true || false || true", b"true\n"),
        ("print true || true || true", b"true\n"),
    ]);
}

#[test]
fn and_or() {
    prints(&[("print true || true && false;", b"true\n"), ("print false || true && true;", b"true\n")]);
}

#[test]
fn bitwise_and() {
    prints(&[("print 0x1 & 0x1;", b"1\n"), ("print 0x1 & 0x0;", b"0\n")]);
}

#[test]
fn bitwise_or() {
    prints(&[("print 0x1 | 0x1;", b"1\n"), ("print 0x1 | 0x0;", b"1\n"), ("print 0x1 | 0x2;", b"3\n")]);
}

#[test]
fn bitwise_xor() {
    prints(&[("print 0x1 ^ 0x1;", b"0\n"), ("print 0x1 ^ 0x0;", b"1\n"), ("print 0x1 ^ 0x2;", b"3\n")]);
}

#[test]
fn ternary() {
    prints(&[("print 1 < 2 ? true : false;", b"true\n"), ("print 1 > 2 ? true : false;", b"false\n")]);
}

#[test]
fn ternary_branches_are_expressions() {
    prints(&[
        ("print true ? false ? 1 : 2 : 3;", b"2\n"),
        ("print false ? 1 : true ? 2 : 3;", b"2\n"),
        ("print false ? 1 : false ? 2 : 3;", b"3\n"),
    ]);
}

#[test]
fn expressions() {
    prints(&[
        ("print (5 - (3 - 1)) + -1;", b"2\n"),
        ("print (5 - (3 - 1)) + +1;", b"4\n"),
        ("print !(5 - 4 > 3 * 2 == !nil);", b"true\n"),
    ]);
}

#[test]
fn enum_values_are_integers() {
    let mut env = DefaultEnvironment::default();
    let mut runtime = Runtime::default();
    runtime.register_enum_tuple("RED", 0).expect("new");
    runtime.register_enum_tuple("GREEN", 1).expect("new");
    runtime.register_enum_tuple("COLD", -128).expect("new");
    run(&mut runtime, &mut env, "print GREEN; print RED + GREEN + 41; print COLD;").expect("runs");
    assert_eq!(runtime.stdout().as_slice(), b"1\n42\n-128\n");
    assert_eq!(runtime.enum_discriminant("GREEN"), Some(1));
    assert_eq!(runtime.enum_discriminant("BLUE"), None);
}

#[test]
fn enum_values_are_registered_once() {
    let mut runtime = Runtime::default();
    runtime.register_enum_tuple("RED", 0).expect("new");
    runtime.register_enum_tuple("RED", 0).expect("the same again");
    match runtime.register_enum_tuple("RED", 1) {
        Err(Error::DuplicateVariant { name, old, new }) => {
            assert_eq!(name, "RED");
            assert_eq!(old, 0);
            assert_eq!(new, 1);
        }
        other => panic!("{other:?}"),
    }
    assert_eq!(runtime.enum_discriminant("RED"), Some(0));
}

#[test]
fn the_result_is_the_topmost_value() {
    let mut env = DefaultEnvironment::default();
    let mut runtime = Runtime::default();
    match run(&mut runtime, &mut env, "1 + 2") {
        Ok(ScriptingValue::Int64(3)) => {}
        other => panic!("{other:?}"),
    }
    match run(&mut runtime, &mut env, "x := 1") {
        Ok(ScriptingValue::Nil()) => {}
        other => panic!("{other:?}"),
    }
    match run(&mut runtime, &mut env, "") {
        Ok(ScriptingValue::Nil()) => {}
        other => panic!("{other:?}"),
    }
    match run(&mut runtime, &mut env, "'a' + 1.5") {
        Ok(ScriptingValue::String(text)) => assert_eq!(text, "a1.5"),
        other => panic!("{other:?}"),
    }
    match run(&mut runtime, &mut env, "1.5 * 2") {
        Ok(ScriptingValue::Float64(bits)) => assert_eq!(f64::from_bits(bits), 3.0),
        other => panic!("{other:?}"),
    }
}

#[test]
fn float_tolerance() {
    let mut env = DefaultEnvironment::default();
    let mut runtime = Runtime::default();
    match run(&mut runtime, &mut env, "5 == 4.999999999999998") {
        Ok(ScriptingValue::Boolean(true)) => {}
        other => panic!("{other:?}"),
    }
    match run(&mut runtime, &mut env, "5 == 4.99999999999999") {
        Ok(ScriptingValue::Boolean(false)) => {}
        other => panic!("{other:?}"),
    }
}

#[test]
fn booleans_take_no_arithmetic_but_join_texts() {
    match fails("true + 1") {
        Error::Execution { source: ExecutionError::BoolNoArithmetic } => {}
        other => panic!("{other:?}"),
    }
    match fails("1 - false") {
        Error::Execution { source: ExecutionError::BoolNoArithmetic } => {}
        other => panic!("{other:?}"),
    }
    let mut env = DefaultEnvironment::default();
    let mut runtime = Runtime::default();
    match run(&mut runtime, &mut env, "'x' + true") {
        Ok(ScriptingValue::String(text)) => assert_eq!(text, "xtrue"),
        other => panic!("{other:?}"),
    }
}

#[test]
fn short_circuit() {
    prints(&[
        ("x := 1; false && (x = 2); print x;", b"1\n"),
        ("x := 1; true || (x = 2); print x;", b"1\n"),
        ("x := 1; true && (x = 2); print x;", b"2\n"),
        ("x := 1; false || (x = 2); print x;", b"2\n"),
    ]);
}

#[test]
fn stack_bound() {
    prints(&[("print 1+(1+(1+(1+(1+(1+(1+1))))));", b"8\n")]);
    match fails("print 1+(1+(1+(1+(1+(1+(1+(1+1)))))));") {
        Error::Execution { source: ExecutionError::StackOverflow } => {}
        other => panic!("{other:?}"),
    }
}

#[test]
fn execution_errors() {
    match fails("nil + 1") {
        Error::Execution { source: ExecutionError::NilValue } => {}
        other => panic!("{other:?}"),
    }
    match fails("true * nil") {
        Error::Execution { source: ExecutionError::NilValue } => {}
        other => panic!("{other:?}"),
    }
    match fails("'a' - 1") {
        Error::Execution { source: ExecutionError::OnlyAdd } => {}
        other => panic!("{other:?}"),
    }
    match fails("2 * 'a'") {
        Error::Execution { source: ExecutionError::OnlyAdd } => {}
        other => panic!("{other:?}"),
    }
    match fails("'a' < 1") {
        Error::Execution { source: ExecutionError::NoComparison } => {}
        other => panic!("{other:?}"),
    }
    match fails("1 & true") {
        Error::Execution { source: ExecutionError::NoInteger { value: ScriptingValue::Boolean(true) } } => {}
        other => panic!("{other:?}"),
    }
    match fails("1.5 | 1") {
        Error::Execution { source: ExecutionError::NoInteger { value: ScriptingValue::Float64(_) } } => {}
        other => panic!("{other:?}"),
    }
    match fails("-true") {
        Error::Execution { source: ExecutionError::NoNumber { value: ScriptingValue::Boolean(true) } } => {}
        other => panic!("{other:?}"),
    }
    match fails("~nil") {
        Error::Execution { source: ExecutionError::NoNumber { value: ScriptingValue::Nil() } } => {}
        other => panic!("{other:?}"),
    }
    match fails("1 && true") {
        Error::Execution { source: ExecutionError::NoBoolean { value: ScriptingValue::Int64(1) } } => {}
        other => panic!("{other:?}"),
    }
    match fails("nil ? 1 : 2") {
        Error::Execution { source: ExecutionError::NoBoolean { value: ScriptingValue::Nil() } } => {}
        other => panic!("{other:?}"),
    }
    match fails("1 / 0") {
        Error::Execution { source: ExecutionError::DivisionByZero } => {}
        other => panic!("{other:?}"),
    }
}

#[test]
fn variables_have_to_be_defined() {
    match fails("print missing") {
        Error::Execution {
            source: ExecutionError::Environment { source: tinyscript::environment::Error::EnvVarNotDefined { name } },
        } => assert_eq!(name, "missing"),
        other => panic!("{other:?}"),
    }
    match fails("missing = 1") {
        Error::Execution {
            source: ExecutionError::Environment { source: tinyscript::environment::Error::EnvVarNotDefined { name } },
        } => assert_eq!(name, "missing"),
        other => panic!("{other:?}"),
    }
    match fails("missing += 1") {
        Error::Execution {
            source: ExecutionError::Environment { source: tinyscript::environment::Error::EnvVarNotDefined { .. } },
        } => {}
        other => panic!("{other:?}"),
    }
}

#[test]
fn the_store_keeps_the_variables() {
    let mut env = DefaultEnvironment::default();
    let mut runtime = Runtime::default();
    run(&mut runtime, &mut env, "a := 1; b := 'two'; a = 3;").expect("runs");
    match env.get_env("a") {
        Ok(ScriptingValue::Int64(3)) => {}
        other => panic!("{other:?}"),
    }
    match env.get_env("b") {
        Ok(ScriptingValue::String(text)) => assert_eq!(text, "two"),
        other => panic!("{other:?}"),
    }
    assert!(env.get_env("c").is_err());
    assert!(env.set_env("c", ScriptingValue::Nil()).is_err());
    env.define_env("c", ScriptingValue::Boolean(true)).expect("defines");
    env.set_env("c", ScriptingValue::Boolean(false)).expect("sets");
    run(&mut runtime, &mut env, "print c; print a; print b;").expect("runs");
    assert_eq!(runtime.stdout().as_slice(), b"false\n3\ntwo\n");
}

#[test]
fn run_clears_the_output_and_continue_run_keeps_it() {
    let mut env = DefaultEnvironment::default();
    let mut runtime = Runtime::default();
    run(&mut runtime, &mut env, "print 1;").expect("runs");
    assert_eq!(runtime.stdout().as_slice(), b"1\n");
    let first = runtime.continue_run("print 2.5;", &mut env);
    finish(&mut runtime, &mut env, first).expect("runs");
    assert_eq!(runtime.stdout().as_slice(), b"1\n2.5\n");
    run(&mut runtime, &mut env, "print 3;").expect("runs");
    assert_eq!(runtime.stdout().as_slice(), b"3\n");
}

#[test]
fn clear_is_idempotent() {
    let mut env = DefaultEnvironment::default();
    let mut runtime = Runtime::default();
    run(&mut runtime, &mut env, "print 'some text';").expect("runs");
    assert!(!runtime.stdout().is_empty());
    runtime.clear();
    assert!(runtime.stdout().is_empty());
    runtime.clear();
    assert!(runtime.stdout().is_empty());
}

#[test]
fn a_chunk_runs_again_with_another_store() {
    let mut runtime = Runtime::default();
    let chunk = runtime.parse("print x + 1; x = x * 2;").expect("compiles");
    let mut one = DefaultEnvironment::default();
    one.define_env("x", ScriptingValue::Int64(1)).expect("defines");
    let mut other = DefaultEnvironment::default();
    other.define_env("x", ScriptingValue::Int64(20)).expect("defines");
    for _ in 0..2 {
        match runtime.execute(&chunk, &mut one) {
            Ok(Step::Finished(_)) => {}
            other => panic!("{other:?}"),
        }
        match runtime.execute(&chunk, &mut other) {
            Ok(Step::Finished(_)) => {}
            other => panic!("{other:?}"),
        }
    }
    assert_eq!(runtime.stdout().as_slice(), b"2\n21\n3\n41\n");
}

#[test]
fn a_chunk_with_numbers_is_answered() {
    let mut runtime = Runtime::default();
    let mut env = DefaultEnvironment::default();
    let chunk = runtime.parse("print 0.5 + 0.25;").expect("compiles");
    let mut step = runtime.execute(&chunk, &mut env).expect("runs");
    let mut asked = 0;
    loop {
        match step {
            Step::Finished(_) => break,
            Step::Waiting(request) => {
                asked += 1;
                step = runtime.answer(&chunk, &mut env, serve(request)).expect("runs");
            }
        }
    }
    assert_eq!(asked, 4);
    assert_eq!(runtime.stdout().as_slice(), b"0.75\n");
}

#[test]
fn a_reply_that_was_not_asked_for_fails() {
    let mut runtime = Runtime::default();
    let mut env = DefaultEnvironment::default();
    match runtime.run("print 0.5;", &mut env) {
        Ok(Step::Waiting(Request::Read { text })) => assert_eq!(text, "0.5"),
        other => panic!("{other:?}"),
    }
    match runtime.reply(&mut env, Reply::Truth(true)) {
        Err(Error::Execution { source: ExecutionError::Unreachable }) => {}
        other => panic!("{other:?}"),
    }
}

#[test]
fn a_cloned_runtime_keeps_the_enum_values_only() {
    let mut env = DefaultEnvironment::default();
    let mut runtime = Runtime::default();
    runtime.register_enum_tuple("ON", 1).expect("new");
    run(&mut runtime, &mut env, "print ON;").expect("runs");
    let copy = runtime.clone();
    assert!(copy.stdout().is_empty());
    assert_eq!(copy.enum_discriminant("ON"), Some(1));
}

#[test]
fn print_of_nothing() {
    prints(&[("x := 1; print x = 2;", b"no result\n")]);
}

#[test]
fn test_scripts() {
    let mut env = DefaultEnvironment::default();
    let mut runtime = Runtime::default();
    run(&mut runtime, &mut env, "print (5 - (3 - 1)) + -1;").expect("should not happen");
    assert_eq!(runtime.stdout().as_slice(), b"2\n");
}

#[test]
fn an_assignment_leaves_no_value() {
    match fails("(x := 1) + 2") {
        Error::Execution { source: ExecutionError::Unreachable } => {}
        other => panic!("{other:?}"),
    }
}

/// Numbers that follow from one another, for scripts made by chance.
fn next_number(seed: &mut u64) -> usize {
    *seed = seed.wrapping_mul(6364136223846793005).wrapping_add(1442695040888963407);
    (*seed >> 33) as usize
}

#[test]
fn scripts_made_by_chance_run_to_an_end() {
    let pieces = [
        "1", "23", "0x1f", "4.5", "'text'", "x", "y", "true", "false", "nil", "print ", "(", ")", ";",
        "+", "-", "*", "/", "+=", ":=", "=", "==", "!=", "<", ">=", "&&", "||", "&", "|", "^", "~",
        "!", "?", ":", " ",
    ];
    let mut seed = 7;
    let mut finished = 0;
    for _ in 0..3000 {
        let mut script = String::from("x := 1; y := 2.5; ");
        for _ in 0..(1 + next_number(&mut seed) % 10) {
            script.push_str(pieces[next_number(&mut seed) % pieces.len()]);
        }
        let mut env = DefaultEnvironment::default();
        let mut runtime = Runtime::default();
        if run(&mut runtime, &mut env, &script).is_ok() {
            finished += 1;
        }
    }
    assert!(finished > 100, "{finished}");
}
