use vstd::prelude::*;
use vstd::string::*;

use crate::errors::{LoxResult, RuntimeErrorType};
use crate::interpreter::Interpreter;
use crate::parser::Parser;
use crate::resolver::Resolver;
use crate::scanner::Scanner;
use crate::token::Token;

verus! {

/// Turns a signal that should never surface — the `return` control signal
/// outside any call — into the error a broken invariant deserves, and
/// passes every real error through.
fn surface_error(e: LoxResult) -> (r: LoxResult)
    ensures
        r.is_error(),
        e.is_error() ==> r == e,
        !e.is_error() ==> r is Runtime,
{
    match e {
        LoxResult::ReturnValue { value } => LoxResult::Runtime {
            token: Token::eof(0, 0),
            error_type: RuntimeErrorType::UnreachableCode,
        },
        other => other,
    }
}

/// Runs source text through the whole pipeline — scan, parse, resolve,
/// evaluate — and yields the lines its `print` statements wrote, with the
/// error that stopped it, if one did. The error's category names the stage
/// that refused the program, and a program with any scan, parse or resolve
/// error writes no output, because it is never executed; an empty source
/// runs to completion and writes nothing.
pub fn run_source(source: &str) -> (r: (Vec<String>, Option<LoxResult>))
    requires
        source@.len() + 2 <= usize::MAX,
    ensures
        r.1 matches Some(e) ==> e.is_error(),
        r.1 matches Some(e) ==> (e is Scanner || e is Parser || e is Resolver || e is Runtime
            || e is Environment),
        r.1 matches Some(e) ==> ((e is Scanner || e is Parser || e is Resolver) ==> r.0@.len()
            == 0),
        source@.len() == 0 ==> r.0@.len() == 0 && r.1 is None,
{
    let mut scanner = Scanner::new(source.to_owned());
    match scanner.scan_tokens() {
        Ok(()) => {},
        Err(e) => {
            return (Vec::new(), Some(surface_error(e)));
        },
    }
    let mut parser = Parser::new(&scanner.tokens);
    let stmts = match parser.parse() {
        Ok(s) => s,
        Err(e) => {
            return (Vec::new(), Some(surface_error(e)));
        },
    };
    if parser.error_count() > 0 {
        let e = parser.errors.remove(0);
        return (Vec::new(), Some(surface_error(e)));
    }
    let mut resolver = Resolver::new(parser.slot_count());
    match resolver.resolve_stmts(&stmts) {
        Ok(()) => {},
        Err(e) => {
            return (Vec::new(), Some(surface_error(e)));
        },
    }
    let mut interpreter = Interpreter::new(resolver.into_locals());
    match interpreter.interpret(&stmts) {
        Ok(()) => (interpreter.output, None),
        Err(e) => (interpreter.output, Some(surface_error(e))),
    }
}

} // verus!
