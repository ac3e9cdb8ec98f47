use rs_lox_tw::errors::{LoxResult, ResolverErrorType};
use rs_lox_tw::parser::Parser;
use rs_lox_tw::resolver::Resolver;
use rs_lox_tw::scanner::Scanner;

fn resolve_outcome(source: &str) -> Result<(), LoxResult> {
    let mut scanner = Scanner::new(source.to_string());
    scanner
        .scan_tokens()
        .unwrap_or_else(|e| panic!("scan failed: {}", e.message()));
    let mut parser = Parser::new(&scanner.tokens);
    match parser.parse() {
        Ok(stmts) => {
            assert_eq!(parser.error_count(), 0, "unexpected parse errors");
            let mut resolver = Resolver::new(parser.slot_count());
            resolver.resolve_stmts(&stmts)
        }
        Err(e) => panic!("There was an error: {}", e.message()),
    }
}

fn expect_resolver_error(r: Result<(), LoxResult>, expected: ResolverErrorType, lexeme: &str) {
    match r {
        Ok(()) => panic!("expected a resolver error"),
        Err(LoxResult::Resolver { token, error_type }) => {
            assert_eq!(error_type, expected);
            assert_eq!(token.lexeme, lexeme);
        }
        Err(e) => panic!("There was an error: {}", e.message()),
    }
}

#[test]
fn test_error_variable_already_exists() {
    let source = "fun bad() {
      var a = \"first\";
      var a = \"second\";
    }";
    expect_resolver_error(
        resolve_outcome(source),
        ResolverErrorType::VariableAlreadyExists,
        "a",
    );
}

#[test]
fn test_invalid_this_top_level() {
    let source = "print this;";
    expect_resolver_error(
        resolve_outcome(source),
        ResolverErrorType::ThisOutsideClass,
        "this",
    );
}

#[test]
fn test_invalid_this_in_function() {
    let source = "fun notAMethod() {
        print this;
    }";
    expect_resolver_error(
        resolve_outcome(source),
        ResolverErrorType::ThisOutsideClass,
        "this",
    );
}

#[test]
fn test_return_from_init() {
    let source = "class Foo {
        init() {
            return true;
        }
    }";
    expect_resolver_error(
        resolve_outcome(source),
        ResolverErrorType::ReturnFromInit,
        "return",
    );
}

#[test]
fn resolver_test_return_from_init() {
    let source = "class Oops < Oops {}";
    expect_resolver_error(
        resolve_outcome(source),
        ResolverErrorType::ClassInheritItself,
        "Oops",
    );
}
