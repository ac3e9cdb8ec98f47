use rs_lox_tw::errors::{
    EnvironmentErrorType, LoxResult, ParserErrorType, ResolverErrorType, RuntimeErrorType,
    ScannerErrorType,
};
use rs_lox_tw::pipeline::run_source;

fn run_error(source: &str) -> LoxResult {
    let (_, err) = run_source(source);
    match err {
        Some(e) => e,
        None => panic!("expected an error"),
    }
}

fn expect_resolver(source: &str, expected: ResolverErrorType) {
    match run_error(source) {
        LoxResult::Resolver { error_type, .. } => assert_eq!(error_type, expected),
        e => panic!("wrong error category: {}", e.message()),
    }
}

fn expect_runtime(source: &str, expected: RuntimeErrorType) {
    match run_error(source) {
        LoxResult::Runtime { error_type, .. } => assert_eq!(error_type, expected),
        e => panic!("wrong error category: {}", e.message()),
    }
}

#[test]
fn self_reference_in_local_initializer() {
    expect_resolver("{ var a = a; }", ResolverErrorType::VariableNotInitialized);
}

#[test]
fn self_reference_in_global_initializer_is_a_runtime_miss() {
    // The global scope is not resolver-tracked, so at the top level the
    // self-reference surfaces as an unknown variable when the initialiser
    // runs, not as a static error.
    match run_error("var a = a;") {
        LoxResult::Environment { error_type, .. } => {
            assert_eq!(error_type, EnvironmentErrorType::UnknownVariable)
        }
        e => panic!("wrong error category: {}", e.message()),
    }
}

#[test]
fn duplicate_declaration_in_block() {
    expect_resolver(
        "{ var a=1; var a=2; }",
        ResolverErrorType::VariableAlreadyExists,
    );
}

#[test]
fn top_level_return() {
    expect_resolver("return 1;", ResolverErrorType::TopLevelReturn);
}

#[test]
fn this_at_top_level() {
    expect_resolver("print this;", ResolverErrorType::ThisOutsideClass);
}

#[test]
fn class_inheriting_itself() {
    expect_resolver("class Oops < Oops {}", ResolverErrorType::ClassInheritItself);
}

#[test]
fn value_return_from_init() {
    expect_resolver(
        "class F { init(){ return 1; } }",
        ResolverErrorType::ReturnFromInit,
    );
}

#[test]
fn super_outside_a_subclass() {
    expect_resolver("class A { m(){ super.m(); } }", ResolverErrorType::SuperOutsideSubclass);
}

#[test]
fn adding_string_and_number() {
    expect_runtime("\"a\" + 1;", RuntimeErrorType::ExpectedAddableOperands);
}

#[test]
fn calling_an_undefined_name() {
    match run_error("foo();") {
        LoxResult::Environment { error_type, .. } => {
            assert_eq!(error_type, EnvironmentErrorType::UnknownVariable)
        }
        e => panic!("wrong error category: {}", e.message()),
    }
}

#[test]
fn calling_a_number() {
    expect_runtime("1();", RuntimeErrorType::InvalidCallObjectType);
}

#[test]
fn negating_a_string() {
    expect_runtime("-\"a\";", RuntimeErrorType::ExpectedNumberOperand);
}

#[test]
fn comparing_a_number_with_a_string() {
    expect_runtime("1 < \"a\";", RuntimeErrorType::ExpectedNumberOperands);
}

#[test]
fn wrong_argument_count() {
    expect_runtime("fun f(a){} f();", RuntimeErrorType::InvalidArgsCount);
}

#[test]
fn wrong_argument_count_for_init() {
    expect_runtime(
        "class C { init(a){ this.a = a; } } C();",
        RuntimeErrorType::InvalidArgsCount,
    );
}

#[test]
fn reading_a_missing_property() {
    expect_runtime("class C {} print C().nope;", RuntimeErrorType::UndefinedProperty);
}

#[test]
fn property_access_on_a_number() {
    expect_runtime("print (1).x;", RuntimeErrorType::UndefinedProperty);
}

#[test]
fn assignment_never_creates_a_binding() {
    match run_error("fun f(){ x = 1; } f();") {
        LoxResult::Environment { error_type, .. } => {
            assert_eq!(error_type, EnvironmentErrorType::UnknownVariable)
        }
        e => panic!("wrong error category: {}", e.message()),
    }
}

#[test]
fn duplicate_parameter_names() {
    expect_resolver("fun f(a, a) {}", ResolverErrorType::VariableAlreadyExists);
}

#[test]
fn unterminated_string() {
    match run_error("print \"abc") {
        LoxResult::Scanner { error_type, .. } => {
            assert_eq!(error_type, ScannerErrorType::UnterminatedString)
        }
        e => panic!("wrong error category: {}", e.message()),
    }
}

#[test]
fn invalid_character() {
    match run_error("print 1 @ 2;") {
        LoxResult::Scanner { c, error_type } => {
            assert_eq!(error_type, ScannerErrorType::InvalidCharacter);
            assert_eq!(c, '@');
        }
        e => panic!("wrong error category: {}", e.message()),
    }
}

#[test]
fn missing_closing_paren() {
    match run_error("print (1;") {
        LoxResult::Parser { error_type, .. } => {
            assert_eq!(error_type, ParserErrorType::InvalidConsumeType)
        }
        e => panic!("wrong error category: {}", e.message()),
    }
}

#[test]
fn statement_without_expression() {
    match run_error("+;") {
        LoxResult::Parser { error_type, .. } => {
            assert_eq!(error_type, ParserErrorType::ExpectedExpression)
        }
        e => panic!("wrong error category: {}", e.message()),
    }
}

#[test]
fn invalid_assignment_target() {
    match run_error("1 = 2;") {
        LoxResult::Parser { error_type, .. } => {
            assert_eq!(error_type, ParserErrorType::InvalidAssignTarget)
        }
        e => panic!("wrong error category: {}", e.message()),
    }
}

#[test]
fn too_many_call_arguments() {
    let mut source = String::from("fun f(){} f(");
    for i in 0..256 {
        if i > 0 {
            source.push(',');
        }
        source.push('1');
    }
    source.push_str(");");
    match run_error(&source) {
        LoxResult::Parser { error_type, .. } => {
            assert_eq!(error_type, ParserErrorType::MaxArgNumber)
        }
        e => panic!("wrong error category: {}", e.message()),
    }
}

#[test]
fn errors_stop_execution_after_partial_output() {
    let (output, err) = run_source("print 1; print \"a\" + 1; print 2;");
    assert_eq!(output, vec!["1".to_string()]);
    assert!(matches!(
        err,
        Some(LoxResult::Runtime { error_type: RuntimeErrorType::ExpectedAddableOperands, .. })
    ));
}

#[test]
fn block_variables_do_not_leak() {
    let (output, err) = run_error_with_output("{ var x = 1; } print x;");
    assert_eq!(output.len(), 0);
    match err {
        LoxResult::Environment { error_type, .. } => {
            assert_eq!(error_type, EnvironmentErrorType::UnknownVariable)
        }
        e => panic!("wrong error category: {}", e.message()),
    }
}

fn run_error_with_output(source: &str) -> (Vec<String>, LoxResult) {
    let (output, err) = run_source(source);
    match err {
        Some(e) => (output, e),
        None => panic!("expected an error"),
    }
}
