use vstd::prelude::*;
use vstd::string::*;

use crate::token::Token;
use crate::value::Value;

verus! {

/// The decimal numeral for a number, most significant digit first.
pub open spec fn dec_digits(n: nat) -> Seq<char>
    decreases n,
{
    if n < 10 {
        seq![digit_char(n)]
    } else {
        dec_digits(n / 10).push(digit_char(n % 10))
    }
}

/// The character for one decimal digit.
pub open spec fn digit_char(d: nat) -> char {
    if d == 0 {
        '0'
    } else if d == 1 {
        '1'
    } else if d == 2 {
        '2'
    } else if d == 3 {
        '3'
    } else if d == 4 {
        '4'
    } else if d == 5 {
        '5'
    } else if d == 6 {
        '6'
    } else if d == 7 {
        '7'
    } else if d == 8 {
        '8'
    } else {
        '9'
    }
}

/// The one-character text of a decimal digit.
fn digit_str(d: usize) -> (r: &'static str)
    requires
        d < 10,
    ensures
        r@ == seq![digit_char(d as nat)],
{
    proof {
        reveal_strlit("0");
        reveal_strlit("1");
        reveal_strlit("2");
        reveal_strlit("3");
        reveal_strlit("4");
        reveal_strlit("5");
        reveal_strlit("6");
        reveal_strlit("7");
        reveal_strlit("8");
        reveal_strlit("9");
    }
    let r = match d {
        0 => "0",
        1 => "1",
        2 => "2",
        3 => "3",
        4 => "4",
        5 => "5",
        6 => "6",
        7 => "7",
        8 => "8",
        _ => "9",
    };
    proof {
        assert(r@ =~= seq![digit_char(d as nat)]);
    }
    r
}

/// Renders a number as its decimal numeral.
pub fn usize_text(n: usize) -> (s: String)
    ensures
        s@ == dec_digits(n as nat),
    decreases n,
{
    if n < 10 {
        digit_str(n).to_owned()
    } else {
        let s = usize_text(n / 10).concat(digit_str(n % 10));
        proof {
            assert(s@ =~= dec_digits((n / 10) as nat).push(digit_char((n % 10) as nat)));
        }
        s
    }
}

#[derive(Clone, Copy, PartialEq, Eq, Structural, Debug)]
pub enum RuntimeErrorType {
    UnreachableCode,
    ExpectedNumberOperand,
    ExpectedNumberOperands,
    ExpectedAddableOperands,
    InvalidCallObjectType,
    InvalidArgsCount,
    UndefinedProperty,
    /// The evaluator ran out of its step budget; this bounds every execution
    /// and never occurs under the budget the driver passes.
    StepLimitReached,
}

#[derive(Clone, Copy, PartialEq, Eq, Structural, Debug)]
pub enum ScannerErrorType {
    InvalidCharacter,
    UnterminatedString,
}

#[derive(Clone, Copy, PartialEq, Eq, Structural, Debug)]
pub enum ParserErrorType {
    ExpectedExpression,
    InvalidConsumeType,
    InvalidAssignTarget,
    MaxArgNumber,
}

#[derive(Clone, Copy, PartialEq, Eq, Structural, Debug)]
pub enum ResolverErrorType {
    VariableNotInitialized,
    VariableAlreadyExists,
    TopLevelReturn,
    ReturnFromInit,
    ThisOutsideClass,
    SuperOutsideSubclass,
    ClassInheritItself,
}

#[derive(Clone, Copy, PartialEq, Eq, Structural, Debug)]
pub enum EnvironmentErrorType {
    UnknownVariable,
}

/// Every non-normal outcome of a pipeline stage, plus the `return` control
/// signal that unwinds a user function call.
#[derive(Debug)]
pub enum LoxResult {
    Parser { token: Token, error_type: ParserErrorType, msg: String },
    Runtime { token: Token, error_type: RuntimeErrorType },
    Scanner { c: char, error_type: ScannerErrorType },
    Environment { error_type: EnvironmentErrorType, msg: String },
    ReturnValue { value: Value },
    Resolver { token: Token, error_type: ResolverErrorType },
}

/// The location prefix of a diagnostic: the line the token stands on.
pub open spec fn location_text(t: Token) -> Seq<char> {
    "line "@ + dec_digits(t.src_line as nat)
}

/// Relies on char's `Display`: writes exactly the character.
#[verifier::external_body]
fn char_text(c: char) -> (r: String)
    ensures
        r@ == seq![c],
{
    format!("{}", c)
}

/// The rendering of a returned value inside the `return` signal's text:
/// simple values print as themselves, objects abstractly.
pub open spec fn signal_value_text(v: Value) -> Seq<char> {
    match v {
        Value::Nil => "nil"@,
        Value::True => "true"@,
        Value::False => "false"@,
        Value::Num(b) => crate::num::text_of_bits(b),
        Value::Str(s) => s@,
        _ => "<object>"@,
    }
}

fn signal_value_string(v: &Value) -> (r: String)
    ensures
        r@ == signal_value_text(*v),
{
    match v {
        Value::Nil => "nil".to_owned(),
        Value::True => "true".to_owned(),
        Value::False => "false".to_owned(),
        Value::Num(b) => crate::num::num_to_text(*b),
        Value::Str(s) => s.clone(),
        _ => "<object>".to_owned(),
    }
}

impl LoxResult {
    /// The `return` signal is not an error: it is caught at function-call
    /// boundaries. Everything else aborts the program.
    pub open spec fn is_error(self) -> bool {
        !(self is ReturnValue)
    }

    pub open spec fn is_runtime(self, e: RuntimeErrorType) -> bool {
        self matches LoxResult::Runtime { error_type, .. } && error_type == e
    }

    pub open spec fn is_unknown_variable(self) -> bool {
        self matches LoxResult::Environment {
            error_type: EnvironmentErrorType::UnknownVariable,
            ..
        }
    }

    pub open spec fn is_resolver(self, e: ResolverErrorType) -> bool {
        self matches LoxResult::Resolver { error_type, .. } && error_type == e
    }

    /// The one-line diagnostic for this outcome.
    pub open spec fn message_text(self) -> Seq<char> {
        match self {
            LoxResult::Scanner { c, error_type } => match error_type {
                ScannerErrorType::InvalidCharacter => "Invalid character "@ + seq![c] + "."@,
                ScannerErrorType::UnterminatedString => "Encountered an unterminated string."@,
            },
            LoxResult::Parser { token, error_type, msg } => match error_type {
                ParserErrorType::InvalidConsumeType => location_text(token) + " -> "@ + msg@,
                ParserErrorType::ExpectedExpression => location_text(token)
                    + " -> Expected an expression here."@,
                ParserErrorType::InvalidAssignTarget => location_text(token)
                    + " -> Invalid assignment target."@,
                ParserErrorType::MaxArgNumber => location_text(token)
                    + " -> Cannot have more than 255 arguments."@,
            },
            LoxResult::Runtime { token, error_type } => match error_type {
                RuntimeErrorType::UnreachableCode => "This code is unreachable."@,
                RuntimeErrorType::ExpectedNumberOperand => location_text(token)
                    + " -> Operand must be a number."@,
                RuntimeErrorType::ExpectedNumberOperands => location_text(token)
                    + " -> Both operands must be a number."@,
                RuntimeErrorType::ExpectedAddableOperands => location_text(token)
                    + " -> Operands must be two numbers or two strings."@,
                RuntimeErrorType::InvalidCallObjectType => location_text(token)
                    + " -> Can only call functions and classes."@,
                RuntimeErrorType::InvalidArgsCount => location_text(token)
                    + " -> Invalid argument count for function or class."@,
                RuntimeErrorType::UndefinedProperty => location_text(token)
                    + " -> Undefined property."@,
                RuntimeErrorType::StepLimitReached => "The execution step budget ran out."@,
            },
            LoxResult::Environment { error_type, msg } => match error_type {
                EnvironmentErrorType::UnknownVariable => msg@,
            },
            LoxResult::ReturnValue { value } => "return "@ + signal_value_text(value),
            LoxResult::Resolver { token, error_type } => match error_type {
                ResolverErrorType::VariableNotInitialized => location_text(token)
                    + " -> Can't read local variable in its own initializer."@,
                ResolverErrorType::VariableAlreadyExists => location_text(token)
                    + " -> A variable with the name '"@ + token.lexeme@
                    + "' already exists in this scope."@,
                ResolverErrorType::TopLevelReturn => location_text(token)
                    + " -> Can't return from top level code."@,
                ResolverErrorType::ReturnFromInit => location_text(token)
                    + " -> Can't return a value from an initializer."@,
                ResolverErrorType::ThisOutsideClass => location_text(token)
                    + " -> Can't use 'this' outside of a class."@,
                ResolverErrorType::SuperOutsideSubclass => location_text(token)
                    + " -> Can't use 'super' outside of a subclass."@,
                ResolverErrorType::ClassInheritItself => location_text(token)
                    + " -> A class can't inherit from itself."@,
            },
        }
    }

    /// Renders the one-line human-readable diagnostic for this outcome.
    pub fn message(&self) -> (r: String)
        ensures
            r@ == self.message_text(),
    {
        match self {
            LoxResult::Scanner { c, error_type } => match error_type {
                ScannerErrorType::InvalidCharacter => "Invalid character ".to_owned().concat(
                    char_text(*c).as_str(),
                ).concat("."),
                ScannerErrorType::UnterminatedString => {
                    "Encountered an unterminated string.".to_owned()
                },
            },
            LoxResult::Parser { token, error_type, msg } => match error_type {
                ParserErrorType::InvalidConsumeType => location(token).concat(" -> ").concat(
                    msg.as_str(),
                ),
                ParserErrorType::ExpectedExpression => location(token).concat(
                    " -> Expected an expression here.",
                ),
                ParserErrorType::InvalidAssignTarget => location(token).concat(
                    " -> Invalid assignment target.",
                ),
                ParserErrorType::MaxArgNumber => location(token).concat(
                    " -> Cannot have more than 255 arguments.",
                ),
            },
            LoxResult::Runtime { token, error_type } => match error_type {
                RuntimeErrorType::UnreachableCode => "This code is unreachable.".to_owned(),
                RuntimeErrorType::ExpectedNumberOperand => location(token).concat(
                    " -> Operand must be a number.",
                ),
                RuntimeErrorType::ExpectedNumberOperands => location(token).concat(
                    " -> Both operands must be a number.",
                ),
                RuntimeErrorType::ExpectedAddableOperands => location(token).concat(
                    " -> Operands must be two numbers or two strings.",
                ),
                RuntimeErrorType::InvalidCallObjectType => location(token).concat(
                    " -> Can only call functions and classes.",
                ),
                RuntimeErrorType::InvalidArgsCount => location(token).concat(
                    " -> Invalid argument count for function or class.",
                ),
                RuntimeErrorType::UndefinedProperty => location(token).concat(
                    " -> Undefined property.",
                ),
                RuntimeErrorType::StepLimitReached => {
                    "The execution step budget ran out.".to_owned()
                },
            },
            LoxResult::Environment { error_type, msg } => match error_type {
                EnvironmentErrorType::UnknownVariable => msg.clone(),
            },
            LoxResult::ReturnValue { value } => "return ".to_owned().concat(
                signal_value_string(value).as_str(),
            ),
            LoxResult::Resolver { token, error_type } => match error_type {
                ResolverErrorType::VariableNotInitialized => location(token).concat(
                    " -> Can't read local variable in its own initializer.",
                ),
                ResolverErrorType::VariableAlreadyExists => location(token).concat(
                    " -> A variable with the name '",
                ).concat(token.lexeme.as_str()).concat("' already exists in this scope."),
                ResolverErrorType::TopLevelReturn => location(token).concat(
                    " -> Can't return from top level code.",
                ),
                ResolverErrorType::ReturnFromInit => location(token).concat(
                    " -> Can't return a value from an initializer.",
                ),
                ResolverErrorType::ThisOutsideClass => location(token).concat(
                    " -> Can't use 'this' outside of a class.",
                ),
                ResolverErrorType::SuperOutsideSubclass => location(token).concat(
                    " -> Can't use 'super' outside of a subclass.",
                ),
                ResolverErrorType::ClassInheritItself => location(token).concat(
                    " -> A class can't inherit from itself.",
                ),
            },
        }
    }
}

impl Clone for LoxResult {
    fn clone(&self) -> (res: Self)
        ensures
            res == *self,
    {
        match self {
            LoxResult::Parser { token, error_type, msg } => LoxResult::Parser {
                token: token.clone(),
                error_type: *error_type,
                msg: msg.clone(),
            },
            LoxResult::Runtime { token, error_type } => LoxResult::Runtime {
                token: token.clone(),
                error_type: *error_type,
            },
            LoxResult::Scanner { c, error_type } => LoxResult::Scanner {
                c: *c,
                error_type: *error_type,
            },
            LoxResult::Environment { error_type, msg } => LoxResult::Environment {
                error_type: *error_type,
                msg: msg.clone(),
            },
            LoxResult::ReturnValue { value } => LoxResult::ReturnValue { value: value.clone() },
            LoxResult::Resolver { token, error_type } => LoxResult::Resolver {
                token: token.clone(),
                error_type: *error_type,
            },
        }
    }
}

/// Renders a token's location prefix.
pub fn location(token: &Token) -> (r: String)
    ensures
        r@ == location_text(*token),
{
    "line ".to_owned().concat(usize_text(token.src_line).as_str())
}

} // verus!
