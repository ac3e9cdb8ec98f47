use rs_lox_tw::ast::{Expr, Stmt};
use rs_lox_tw::environment::Environment;
use rs_lox_tw::errors::{usize_text, LoxResult, RuntimeErrorType};
use rs_lox_tw::interpreter::Interpreter;
use rs_lox_tw::scanner::Scanner;
use rs_lox_tw::token::{Object, Token, TokenType};
use rs_lox_tw::value::Value;

fn ident(name: &str) -> Token {
    Token::identifier(1, 0, name.len(), TokenType::Identifier, name)
}

#[test]
fn environment_define_then_get() {
    let mut env = Environment::new();
    env.define(0, &"x".to_string(), Value::Num(1.5f64.to_bits()));
    match env.get(0, &ident("x")) {
        Ok(Value::Num(b)) => assert_eq!(f64::from_bits(b), 1.5),
        _ => panic!("expected the defined number"),
    }
}

#[test]
fn environment_get_walks_enclosing_frames() {
    let mut env = Environment::new();
    env.define(0, &"x".to_string(), Value::Str("outer".to_string()));
    let f = env.from_enclosing(0);
    let g = env.from_enclosing(f);
    match env.get(g, &ident("x")) {
        Ok(Value::Str(s)) => assert_eq!(s, "outer"),
        _ => panic!("expected the outer binding"),
    }
}

#[test]
fn environment_shadowing_and_get_at() {
    let mut env = Environment::new();
    env.define(0, &"x".to_string(), Value::Num(1f64.to_bits()));
    let f = env.from_enclosing(0);
    env.define(f, &"x".to_string(), Value::Num(2f64.to_bits()));
    match env.get(f, &ident("x")) {
        Ok(Value::Num(b)) => assert_eq!(f64::from_bits(b), 2.0),
        _ => panic!("inner binding should shadow"),
    }
    // get_at skips exactly the given number of frames and reads that
    // frame's own table.
    match env.get_at(f, 1, &ident("x")) {
        Ok(Value::Num(b)) => assert_eq!(f64::from_bits(b), 1.0),
        _ => panic!("depth 1 should reach the global binding"),
    }
}

#[test]
fn environment_assign_updates_nearest_binding() {
    let mut env = Environment::new();
    env.define(0, &"x".to_string(), Value::Num(1f64.to_bits()));
    let f = env.from_enclosing(0);
    env.assign(f, &ident("x"), Value::Num(9f64.to_bits())).unwrap();
    match env.get(0, &ident("x")) {
        Ok(Value::Num(b)) => assert_eq!(f64::from_bits(b), 9.0),
        _ => panic!("assignment should reach the global frame"),
    }
}

#[test]
fn environment_assign_missing_is_an_error() {
    let mut env = Environment::new();
    let r = env.assign(0, &ident("missing"), Value::Nil);
    assert!(matches!(r, Err(LoxResult::Environment { .. })));
}

#[test]
fn environment_assign_at_own_table_only() {
    let mut env = Environment::new();
    env.define(0, &"x".to_string(), Value::Nil);
    let f = env.from_enclosing(0);
    // Depth 0 from the child frame does not see the global binding.
    let r = env.assign_at(f, 0, &ident("x"), Value::True);
    assert!(matches!(r, Err(LoxResult::Environment { .. })));
    env.assign_at(f, 1, &ident("x"), Value::True).unwrap();
    assert!(matches!(env.get(0, &ident("x")), Ok(Value::True)));
}

#[test]
fn value_equality_follows_the_language() {
    assert!(Value::Nil.equals(&Value::Nil));
    assert!(!Value::Nil.equals(&Value::False));
    assert!(Value::Str("a".to_string()).equals(&Value::Str("a".to_string())));
    assert!(!Value::Str("a".to_string()).equals(&Value::Num(1f64.to_bits())));
    let nan = Value::Num(f64::NAN.to_bits());
    assert!(!nan.equals(&nan));
    let zero = Value::Num(0f64.to_bits());
    let negzero = Value::Num((-0f64).to_bits());
    assert!(zero.equals(&negzero));
}

#[test]
fn interpreter_is_truthy() {
    let it = Interpreter::new(Vec::new());
    assert!(!it.is_truthy(&Value::Nil));
    assert!(!it.is_truthy(&Value::False));
    assert!(it.is_truthy(&Value::True));
    assert!(it.is_truthy(&Value::Num(0f64.to_bits())));
    assert!(it.is_truthy(&Value::Str(String::new())));
}

#[test]
fn evaluate_literal_and_stringify() {
    let mut it = Interpreter::new(Vec::new());
    let e = Expr::Literal {
        value: Some(Object::Num(12.0f64.to_bits())),
    };
    match it.evaluate(&e, 10) {
        Ok(v) => assert_eq!(it.stringify(&v), "12"),
        Err(e) => panic!("unexpected error: {}", e.message()),
    }
    assert_eq!(it.stringify(&Value::Nil), "nil");
    assert_eq!(it.stringify(&Value::True), "true");
    assert_eq!(it.stringify(&Value::False), "false");
    assert_eq!(it.stringify(&Value::Str("s".to_string())), "s");
    assert_eq!(it.stringify(&Value::Num(2.5f64.to_bits())), "2.5");
}

#[test]
fn literal_without_a_value_is_unreachable_code() {
    let mut it = Interpreter::new(Vec::new());
    let e = Expr::Literal { value: None };
    match it.evaluate(&e, 10) {
        Err(LoxResult::Runtime { error_type, .. }) => {
            assert_eq!(error_type, RuntimeErrorType::UnreachableCode)
        }
        _ => panic!("expected the unreachable-code error"),
    }
}

#[test]
fn exhausted_step_budget_stops_execution() {
    let mut it = Interpreter::new(Vec::new());
    let s = Stmt::Print {
        expression: Expr::Literal { value: Some(Object::Nil) },
    };
    match it.execute(&s, 0) {
        Err(LoxResult::Runtime { error_type, .. }) => {
            assert_eq!(error_type, RuntimeErrorType::StepLimitReached)
        }
        _ => panic!("expected the step-limit error"),
    }
}

#[test]
fn execute_block_restores_the_current_frame() {
    let mut it = Interpreter::new(Vec::new());
    let before = it.cur;
    let f = it.environment.from_enclosing(it.cur);
    let stmts = vec![Stmt::Expression {
        expression: Expr::Literal { value: Some(Object::True) },
    }];
    it.execute_block(&stmts, f, 10).unwrap();
    assert_eq!(it.cur, before);
    // The slot is restored on the error path too.
    let bad = vec![Stmt::Expression { expression: Expr::Literal { value: None } }];
    assert!(it.execute_block(&bad, f, 10).is_err());
    assert_eq!(it.cur, before);
}

#[test]
fn decimal_rendering_of_indices() {
    assert_eq!(usize_text(0), "0");
    assert_eq!(usize_text(7), "7");
    assert_eq!(usize_text(1234), "1234");
}

#[test]
fn diagnostics_carry_the_line() {
    let e = LoxResult::Runtime {
        token: Token::identifier(3, 0, 1, TokenType::Identifier, "x"),
        error_type: RuntimeErrorType::ExpectedNumberOperand,
    };
    assert_eq!(e.message(), "line 3 -> Operand must be a number.");
}

#[test]
fn unknown_variable_diagnostic_carries_location() {
    let mut env = Environment::new();
    let t = Token::identifier(4, 0, 1, TokenType::Identifier, "ghost");
    match env.get(0, &t) {
        Err(e) => assert_eq!(e.message(), "line 4 -> No such variable 'ghost'."),
        Ok(_) => panic!("expected an unknown-variable error"),
    }
}

#[test]
fn scanner_token_stream_shape() {
    let mut sc = Scanner::new("var x = 1;".to_string());
    sc.scan_tokens().unwrap();
    let types: Vec<TokenType> = sc.tokens.iter().map(|t| t.ttype).collect();
    assert_eq!(
        types,
        vec![
            TokenType::Var,
            TokenType::Identifier,
            TokenType::Equal,
            TokenType::Num,
            TokenType::Semicolon,
            TokenType::Eof,
        ]
    );
    assert_eq!(sc.tokens[1].lexeme, "x");
    match &sc.tokens[3].literal {
        Some(Object::Num(b)) => assert_eq!(f64::from_bits(*b), 1.0),
        _ => panic!("expected a number literal"),
    }
}

#[test]
fn scanner_two_character_operators() {
    let mut sc = Scanner::new("== != <= >= < > = !".to_string());
    sc.scan_tokens().unwrap();
    let types: Vec<TokenType> = sc.tokens.iter().map(|t| t.ttype).collect();
    assert_eq!(
        types,
        vec![
            TokenType::EqualEqual,
            TokenType::BangEqual,
            TokenType::LessEqual,
            TokenType::GreaterEqual,
            TokenType::Less,
            TokenType::Greater,
            TokenType::Equal,
            TokenType::Bang,
            TokenType::Eof,
        ]
    );
}

#[test]
fn number_parsing_is_ieee_round_to_nearest() {
    let mut sc = Scanner::new("0.1".to_string());
    sc.scan_tokens().unwrap();
    match &sc.tokens[0].literal {
        Some(Object::Num(b)) => assert_eq!(*b, 0.1f64.to_bits()),
        _ => panic!("expected a number literal"),
    }
}

#[test]
fn scanner_collects_every_lexical_error() {
    let mut sc = Scanner::new("var @ = #;".to_string());
    assert!(sc.scan_tokens().is_err());
    assert_eq!(sc.errors.len(), 2);
    // The scan still reached the end of the text.
    assert_eq!(sc.tokens.last().unwrap().ttype, TokenType::Eof);
}

#[test]
fn token_constructors_keep_their_kind() {
    assert_eq!(Token::eof(1, 0).ttype, TokenType::Eof);
    assert_eq!(Token::left_paren(1, 0).ttype, TokenType::LeftParen);
    assert_eq!(Token::right_paren(1, 0).ttype, TokenType::RightParen);
    assert_eq!(Token::left_brace(1, 0).ttype, TokenType::LeftBrace);
    assert_eq!(Token::right_brace(1, 0).ttype, TokenType::RightBrace);
    assert_eq!(Token::comma(1, 0).ttype, TokenType::Comma);
    assert_eq!(Token::dot(1, 0).ttype, TokenType::Dot);
    assert_eq!(Token::minus(1, 0).ttype, TokenType::Minus);
    assert_eq!(Token::plus(1, 0).ttype, TokenType::Plus);
    assert_eq!(Token::semicolon(1, 0).ttype, TokenType::Semicolon);
    assert_eq!(Token::star(1, 0).ttype, TokenType::Star);
    assert_eq!(Token::bang(1, 0).ttype, TokenType::Bang);
    assert_eq!(Token::bang_equal(1, 0).ttype, TokenType::BangEqual);
    assert_eq!(Token::equal(1, 0).ttype, TokenType::Equal);
    assert_eq!(Token::equal_equal(1, 0).ttype, TokenType::EqualEqual);
    assert_eq!(Token::less(1, 0).ttype, TokenType::Less);
    assert_eq!(Token::less_equal(1, 0).ttype, TokenType::LessEqual);
    assert_eq!(Token::greater(1, 0).ttype, TokenType::Greater);
    assert_eq!(Token::greater_equal(1, 0).ttype, TokenType::GreaterEqual);
    assert_eq!(Token::slash(1, 0).ttype, TokenType::Slash);
    let s = Token::string(1, 0, "hi");
    assert_eq!(s.ttype, TokenType::Str);
    assert!(matches!(s.literal, Some(Object::Str(ref v)) if v == "hi"));
    let n = Token::number(1, 0, 1, 2f64.to_bits());
    assert_eq!(n.ttype, TokenType::Num);
    let t = Token::identifier(1, 0, 1, TokenType::Identifier, "x");
    assert_eq!(t.dup().lexeme, "x");
}
