use vstd::prelude::*;

use crate::ast::{Expr, FunctionDecl, Stmt};
use crate::errors::{LoxResult, ParserErrorType};
use crate::token::{Object, Token, TokenType};

verus! {

broadcast use vstd::std_specs::vec::axiom_spec_len;

/// Tokens that are complete literal expressions on their own.
pub open spec fn atom_token(t: TokenType) -> bool {
    t == TokenType::False || t == TokenType::True || t == TokenType::Nil || t == TokenType::Num
        || t == TokenType::Str
}

/// The literal node an atom token parses to.
pub open spec fn atom_expr(t: Token) -> Expr {
    if t.ttype == TokenType::False {
        Expr::Literal { value: Some(Object::False) }
    } else if t.ttype == TokenType::True {
        Expr::Literal { value: Some(Object::True) }
    } else if t.ttype == TokenType::Nil {
        Expr::Literal { value: Some(Object::Nil) }
    } else {
        Expr::Literal { value: t.literal }
    }
}

/// Tokens that keep an expression going when they follow a complete
/// operand: binary and logical operators, the call and property postfixes,
/// and the assignment sign.
pub open spec fn extends_expr(t: TokenType) -> bool {
    t == TokenType::Or || t == TokenType::And || t == TokenType::BangEqual || t
        == TokenType::EqualEqual || t == TokenType::Greater || t == TokenType::GreaterEqual || t
        == TokenType::Less || t == TokenType::LessEqual || t == TokenType::Minus || t
        == TokenType::Plus || t == TokenType::Slash || t == TokenType::Star || t
        == TokenType::LeftParen || t == TokenType::Dot || t == TokenType::Equal
}

/// The case in which every expression production owes a definite result: a
/// literal atom at position `i` whose follower cannot extend the
/// expression, so the production must succeed with exactly that literal.
pub open spec fn atom_at(toks: Seq<Token>, i: int) -> bool {
    &&& 0 <= i
    &&& i + 1 < toks.len()
    &&& atom_token(toks[i].ttype)
    &&& !extends_expr(toks[i + 1].ttype)
}

/// Recursive-descent parser from a token list to statements.
///
/// Errors at the declaration level are recorded in `errors` and the parser
/// synchronises to the next statement boundary, so one bad statement does
/// not hide the rest; the driver refuses to run a program whose parse
/// recorded any error.
pub struct Parser<'a> {
    /// The token list to parse; it always ends with an `Eof` token.
    pub tokens: &'a Vec<Token>,
    /// The cursor into the token list.
    pub current: usize,
    /// Every syntax error met so far.
    pub errors: Vec<LoxResult>,
    /// The next free slot number for a resolvable reference.
    pub next_slot: usize,
}

impl<'a> Parser<'a> {
    pub open spec fn wf(self) -> bool {
        &&& self.tokens@.len() >= 1
        &&& self.tokens@.last().ttype == TokenType::Eof
        &&& self.current < self.tokens@.len()
        &&& self.next_slot <= self.current
        &&& forall|k: int|
            0 <= k < self.errors@.len() ==> (#[trigger] self.errors@[k]) is Parser
    }

    /// How many tokens are still unread.
    pub open spec fn rem(self) -> int {
        self.tokens@.len() - self.current
    }

    pub fn new(tokens: &Vec<Token>) -> (p: Parser)
        requires
            tokens@.len() >= 1,
            tokens@.last().ttype == TokenType::Eof,
        ensures
            p.wf(),
            p.tokens == tokens,
            p.current == 0,
            p.errors@.len() == 0,
            p.next_slot == 0,
    {
        Parser { tokens, current: 0, errors: Vec::new(), next_slot: 0 }
    }

    /// How many resolvable-reference slots the parse handed out.
    pub fn slot_count(&self) -> (n: usize)
        ensures
            n == self.next_slot,
    {
        self.next_slot
    }

    /// How many syntax errors the parse recorded.
    pub fn error_count(&self) -> (n: usize)
        ensures
            n == self.errors@.len(),
    {
        self.errors.len()
    }

    /// A fresh slot number; allocated right after consuming the token that
    /// carries the reference, so slots never outnumber read tokens.
    fn alloc_slot(&mut self) -> (s: usize)
        requires
            old(self).wf(),
            old(self).next_slot < old(self).current,
        ensures
            final(self).wf(),
            s == old(self).next_slot,
            final(self).next_slot == old(self).next_slot + 1,
            final(self).tokens == old(self).tokens,
            final(self).current == old(self).current,
            final(self).errors == old(self).errors,
    {
        let s = self.next_slot;
        self.next_slot = s + 1;
        s
    }

    fn is_at_end(&self) -> (r: bool)
        requires
            self.wf(),
        ensures
            r == (self.tokens@[self.current as int].ttype == TokenType::Eof),
    {
        self.peek_type() == TokenType::Eof
    }

    /// The type of the token at the cursor.
    fn peek_type(&self) -> (t: TokenType)
        requires
            self.wf(),
        ensures
            t == self.tokens@[self.current as int].ttype,
    {
        self.tokens[self.current].ttype
    }

    /// A copy of the token at the cursor.
    fn peek(&self) -> (t: Token)
        requires
            self.wf(),
        ensures
            t == self.tokens@[self.current as int],
    {
        self.tokens[self.current].dup()
    }

    /// A copy of the last consumed token.
    fn previous(&self) -> (t: Token)
        requires
            self.wf(),
            self.current >= 1,
        ensures
            t == self.tokens@[self.current - 1],
    {
        self.tokens[self.current - 1].dup()
    }

    /// Consumes the token at the cursor, unless it is `Eof`.
    fn advance(&mut self) -> (t: Token)
        requires
            old(self).wf(),
        ensures
            final(self).wf(),
            final(self).tokens == old(self).tokens,
            final(self).errors == old(self).errors,
            final(self).next_slot == old(self).next_slot,
            old(self).tokens@[old(self).current as int].ttype != TokenType::Eof ==> final(self).current == old(self).current + 1 && t == old(self).tokens@[old(self).current as int],
            old(self).tokens@[old(self).current as int].ttype == TokenType::Eof ==> final(self).current == old(self).current,
    {
        if !self.is_at_end() {
            proof {
                vstd::std_specs::vec::axiom_spec_len(self.tokens);
            }
            self.current = self.current + 1;
            self.previous()
        } else {
            self.peek()
        }
    }

    /// Whether the token at the cursor has the given type (never true at
    /// `Eof`, so the end of input matches nothing).
    fn check(&self, ttype: TokenType) -> (r: bool)
        requires
            self.wf(),
        ensures
            r == (self.tokens@[self.current as int].ttype == ttype && ttype != TokenType::Eof),
    {
        if self.is_at_end() {
            return false;
        }
        self.peek_type() == ttype
    }

    /// Consumes the token at the cursor if it has the given type.
    fn matchs_next(&mut self, ttype: TokenType) -> (r: bool)
        requires
            old(self).wf(),
        ensures
            final(self).wf(),
            final(self).tokens == old(self).tokens,
            final(self).errors == old(self).errors,
            final(self).next_slot == old(self).next_slot,
            r == (old(self).tokens@[old(self).current as int].ttype == ttype && ttype
                != TokenType::Eof),
            r ==> final(self).current == old(self).current + 1,
            !r ==> final(self).current == old(self).current,
    {
        if self.check(ttype) {
            self.advance();
            return true;
        }
        false
    }

    /// Consumes the token at the cursor if it has the given type, and
    /// otherwise reports a syntax error at it with the given message.
    fn consume(&mut self, ttype: TokenType, msg: &str) -> (r: Result<Token, LoxResult>)
        requires
            old(self).wf(),
        ensures
            final(self).wf(),
            final(self).tokens == old(self).tokens,
            final(self).errors == old(self).errors,
            final(self).next_slot == old(self).next_slot,
            r is Ok == (old(self).tokens@[old(self).current as int].ttype == ttype && ttype
                != TokenType::Eof),
            r matches Err(e) ==> e is Parser,
            r matches Ok(t) ==> final(self).current == old(self).current + 1 && t == old(
                self,
            ).tokens@[old(self).current as int] && t.ttype == ttype,
            r is Err ==> final(self).current == old(self).current,
    {
        if self.check(ttype) {
            return Ok(self.advance());
        }
        Err(
            LoxResult::Parser {
                token: self.peek(),
                error_type: ParserErrorType::InvalidConsumeType,
                msg: msg.to_owned(),
            },
        )
    }

    /// Skips tokens until just after a `;` or until the end of input, so
    /// that parsing can go on after a syntax error.
    fn synchronize(&mut self)
        requires
            old(self).wf(),
        ensures
            final(self).wf(),
            final(self).tokens == old(self).tokens,
            final(self).errors == old(self).errors,
            final(self).next_slot == old(self).next_slot,
            final(self).current >= old(self).current,
            old(self).tokens@[old(self).current as int].ttype != TokenType::Eof ==> final(self).current > old(self).current,
    {
        self.advance();
        loop
            invariant
                self.wf(),
                self.tokens == old(self).tokens,
                self.errors == old(self).errors,
                self.next_slot == old(self).next_slot,
                self.current >= old(self).current,
                old(self).tokens@[old(self).current as int].ttype != TokenType::Eof
                    ==> self.current > old(self).current,
            decreases self.rem(),
        {
            if self.is_at_end() {
                return ;
            }
            if self.current >= 1 {
                if self.tokens[self.current - 1].ttype == TokenType::Semicolon {
                    return ;
                }
            }
            // A declaration keyword would also be a sound place to resume;
            // the cursor stops only at statement boundaries.
            self.advance();
        }
    }

    /// Parses the whole token list into statements, always reaching the
    /// final `Eof`. The parse itself never fails: a syntax error is
    /// recorded in `errors` and parsing resumes at the next boundary, and
    /// the driver refuses to run a program whose parse recorded any.
    pub fn parse(&mut self) -> (r: Result<Vec<Stmt>, LoxResult>)
        requires
            old(self).wf(),
        ensures
            final(self).wf(),
            final(self).tokens == old(self).tokens,
            r is Ok,
            r is Ok ==> final(self).tokens@[final(self).current as int].ttype == TokenType::Eof,
            old(self).tokens@[old(self).current as int].ttype == TokenType::Eof ==> (r matches Ok(
                v,
            ) && v@.len() == 0 && *final(self) == *old(self)),
            ({
                let toks = old(self).tokens@;
                (old(self).current == 0 && toks.len() == 3 && atom_token(toks[0].ttype)
                    && toks[1].ttype == TokenType::Semicolon) ==> (r matches Ok(v) && v@.len()
                    == 1 && v@[0] == (Stmt::Expression { expression: atom_expr(toks[0]) })
                    && final(self).errors == old(self).errors)
            }),
    {
        let mut statements: Vec<Stmt> = Vec::new();
        while !self.is_at_end()
            invariant
                self.wf(),
                self.tokens == old(self).tokens,
                old(self).tokens@[old(self).current as int].ttype == TokenType::Eof ==> (*self
                    == *old(self) && statements@.len() == 0),
                ({
                    let toks = old(self).tokens@;
                    (old(self).current == 0 && toks.len() == 3 && atom_token(toks[0].ttype)
                        && toks[1].ttype == TokenType::Semicolon) ==> ((self.current == 0
                        && statements@.len() == 0 && *self == *old(self)) || (self.current == 2
                        && statements@.len() == 1 && statements@[0] == (Stmt::Expression {
                        expression: atom_expr(toks[0]),
                    }) && self.errors == old(self).errors))
                }),
            decreases self.rem(),
        {
            match self.declaration() {
                Ok(Some(s)) => statements.push(s),
                Ok(None) => {},
                Err(e) => {
                    return Err(e);
                },
            }
        }
        Ok(statements)
    }

    /// Parses one declaration: a class, function or variable declaration,
    /// or any other statement. On a syntax error the parser records it,
    /// synchronises and yields nothing.
    fn declaration(&mut self) -> (r: Result<Option<Stmt>, LoxResult>)
        requires
            old(self).wf(),
            old(self).tokens@[old(self).current as int].ttype != TokenType::Eof,
        ensures
            final(self).wf(),
            final(self).tokens == old(self).tokens,
            final(self).current > old(self).current,
            r is Ok,
            old(self).tokens@[old(self).current as int].ttype == TokenType::Class ==> (r matches
                Ok(Some(s)) ==> s is Class),
            old(self).tokens@[old(self).current as int].ttype == TokenType::Fun ==> (r matches Ok(
                Some(s),
            ) ==> s is Function),
            old(self).tokens@[old(self).current as int].ttype == TokenType::Var ==> (r matches Ok(
                Some(s),
            ) ==> s is Var),
            (atom_at(old(self).tokens@, old(self).current as int) && old(self).tokens@[old(
                self,
            ).current + 1].ttype == TokenType::Semicolon) ==> r == Ok::<Option<Stmt>, LoxResult>(
                Some(
                    Stmt::Expression {
                        expression: atom_expr(old(self).tokens@[old(self).current as int]),
                    },
                ),
            ) && final(self).current == old(self).current + 2 && final(self).errors == old(self).errors,
            ({
                let c = old(self).current as int;
                let toks = old(self).tokens@;
                (toks[c].ttype == TokenType::Var && c + 2 < toks.len() && toks[c + 1].ttype
                    == TokenType::Identifier && toks[c + 2].ttype == TokenType::Semicolon) ==> r
                    == Ok::<Option<Stmt>, LoxResult>(
                    Some(Stmt::Var { name: toks[c + 1], initializer: None }),
                ) && final(self).current == c + 3 && final(self).errors == old(self).errors
            }),
            ({
                let c = old(self).current as int;
                let toks = old(self).tokens@;
                (toks[c].ttype == TokenType::Print && c + 2 < toks.len() && atom_token(
                    toks[c + 1].ttype,
                ) && toks[c + 2].ttype == TokenType::Semicolon) ==> r == Ok::<
                    Option<Stmt>,
                    LoxResult,
                >(Some(Stmt::Print { expression: atom_expr(toks[c + 1]) })) && final(self).current == c + 3 && final(self).errors == old(self).errors
            }),
        decreases old(self).rem(), 15int,
    {
        if self.matchs_next(TokenType::Class) {
            match self.class_declaration() {
                Ok(s) => {
                    return Ok(Some(s));
                },
                Err(e) => {
                    self.errors.push(e);
                    self.synchronize();
                    return Ok(None);
                },
            }
        }
        if self.matchs_next(TokenType::Fun) {
            match self.function() {
                Ok(s) => {
                    return Ok(Some(s));
                },
                Err(e) => {
                    self.errors.push(e);
                    self.synchronize();
                    return Ok(None);
                },
            }
        }
        if self.matchs_next(TokenType::Var) {
            match self.var_declaration() {
                Ok(s) => {
                    return Ok(Some(s));
                },
                Err(e) => {
                    self.errors.push(e);
                    self.synchronize();
                    return Ok(None);
                },
            }
        }
        match self.statement() {
            Ok(s) => Ok(Some(s)),
            Err(e) => {
                self.errors.push(e);
                self.synchronize();
                Ok(None)
            },
        }
    }

    /// Parses a class declaration after its `class` keyword: the name, an
    /// optional `< Superclass` clause, and the methods between braces.
    #[verifier::loop_isolation(false)]
    fn class_declaration(&mut self) -> (r: Result<Stmt, LoxResult>)
        requires
            old(self).wf(),
            old(self).current >= 1,
        ensures
            final(self).wf(),
            final(self).tokens == old(self).tokens,
            final(self).current >= old(self).current,
            r is Ok ==> final(self).current > old(self).current,
            r matches Err(e) ==> e is Parser,
            r matches Ok(s) ==> (s matches Stmt::Class { name, .. } && name == old(
                self,
            ).tokens@[old(self).current as int]),
            (old(self).tokens@[old(self).current as int].ttype == TokenType::Identifier && old(
                self,
            ).current + 2 < old(self).tokens@.len() && old(self).tokens@[old(self).current
                + 1].ttype == TokenType::LeftBrace && old(self).tokens@[old(self).current
                + 2].ttype == TokenType::RightBrace) ==> (r matches Ok(st) && st matches
                Stmt::Class { name, superclass_name, superclass_slot, methods } && name == old(
                self,
            ).tokens@[old(self).current as int] && superclass_name is None && methods@.len() == 0
                && final(self).current == old(self).current + 3),
        decreases old(self).rem(), 13int,
    {
        let name = match self.consume(TokenType::Identifier, "Expected class name.") {
            Ok(t) => t,
            Err(e) => {
                return Err(e);
            },
        };
        let mut superclass_name: Option<Token> = None;
        let mut superclass_slot: usize = 0;
        if self.matchs_next(TokenType::Less) {
            let sc = match self.consume(TokenType::Identifier, "Expected superclass name.") {
                Ok(t) => t,
                Err(e) => {
                    return Err(e);
                },
            };
            superclass_name = Some(sc);
            superclass_slot = self.alloc_slot();
        }
        match self.consume(TokenType::LeftBrace, "Expected '{' before class body.") {
            Ok(_) => {},
            Err(e) => {
                return Err(e);
            },
        }
        let mut methods: Vec<FunctionDecl> = Vec::new();
        loop
            invariant
                self.wf(),
                self.tokens == old(self).tokens,
                self.current > old(self).current,
                (old(self).tokens@[old(self).current as int].ttype == TokenType::Identifier
                    && old(self).current + 2 < old(self).tokens@.len() && old(self).tokens@[old(
                    self,
                ).current + 1].ttype == TokenType::LeftBrace && old(self).tokens@[old(
                    self,
                ).current + 2].ttype == TokenType::RightBrace) ==> (self.current == old(
                    self,
                ).current + 2 && methods@.len() == 0 && self.next_slot == old(self).next_slot),
            decreases self.rem(),
        {
            if self.check(TokenType::RightBrace) {
                break ;
            }
            if self.is_at_end() {
                break ;
            }
            match self.function_decl() {
                Ok(d) => methods.push(d),
                Err(e) => {
                    return Err(e);
                },
            }
        }
        match self.consume(TokenType::RightBrace, "Expected '}' after class body.") {
            Ok(_) => {},
            Err(e) => {
                return Err(e);
            },
        }
        Ok(Stmt::Class { name, superclass_name, superclass_slot, methods })
    }

    /// Parses a function declaration after its `fun` keyword.
    fn function(&mut self) -> (r: Result<Stmt, LoxResult>)
        requires
            old(self).wf(),
        ensures
            final(self).wf(),
            final(self).tokens == old(self).tokens,
            final(self).current >= old(self).current,
            r is Ok ==> final(self).current > old(self).current,
            r matches Err(e) ==> e is Parser,
            r matches Ok(s) ==> s is Function,
            ({
                let c = old(self).current as int;
                let toks = old(self).tokens@;
                (toks[c].ttype == TokenType::Identifier && c + 4 < toks.len() && toks[c
                    + 1].ttype == TokenType::LeftParen && toks[c + 2].ttype
                    == TokenType::RightParen && toks[c + 3].ttype == TokenType::LeftBrace
                    && toks[c + 4].ttype == TokenType::RightBrace) ==> (r matches Ok(st) && st
                    matches Stmt::Function { decl } && decl.name == toks[c] && decl.params@.len()
                    == 0 && decl.body@.len() == 0 && final(self).current == c + 5)
            }),
        decreases old(self).rem(), 13int,
    {
        match self.function_decl() {
            Ok(decl) => Ok(Stmt::Function { decl }),
            Err(e) => Err(e),
        }
    }

    /// Parses a function's name, parameter list and braced body.
    #[verifier::loop_isolation(false)]
    fn function_decl(&mut self) -> (r: Result<FunctionDecl, LoxResult>)
        requires
            old(self).wf(),
        ensures
            final(self).wf(),
            final(self).tokens == old(self).tokens,
            final(self).current >= old(self).current,
            r is Ok ==> final(self).current > old(self).current,
            r matches Err(e) ==> e is Parser,
            ({
                let c = old(self).current as int;
                let toks = old(self).tokens@;
                (toks[c].ttype == TokenType::Identifier && c + 4 < toks.len() && toks[c
                    + 1].ttype == TokenType::LeftParen && toks[c + 2].ttype
                    == TokenType::RightParen && toks[c + 3].ttype == TokenType::LeftBrace
                    && toks[c + 4].ttype == TokenType::RightBrace) ==> (r matches Ok(d) && d.name
                    == toks[c] && d.params@.len() == 0 && d.body@.len() == 0 && final(self).current == c + 5)
            }),
        decreases old(self).rem(), 12int,
    {
        let name = match self.consume(TokenType::Identifier, "Expected function name.") {
            Ok(t) => t,
            Err(e) => {
                return Err(e);
            },
        };
        match self.consume(TokenType::LeftParen, "Expected opening '(' after function name.") {
            Ok(_) => {},
            Err(e) => {
                return Err(e);
            },
        }
        let mut params: Vec<Token> = Vec::new();
        if !self.check(TokenType::RightParen) {
            loop
                invariant
                    self.wf(),
                    self.tokens == old(self).tokens,
                    self.errors == old(self).errors,
                    self.current > old(self).current,
                decreases self.rem(),
            {
                // The language caps a function at 255 parameters.
                if params.len() >= 255 {
                    return Err(
                        LoxResult::Parser {
                            token: self.peek(),
                            error_type: ParserErrorType::MaxArgNumber,
                            msg: String::new(),
                        },
                    );
                }
                match self.consume(TokenType::Identifier, "Expected parameter name here.") {
                    Ok(t) => params.push(t),
                    Err(e) => {
                        return Err(e);
                    },
                }
                if !self.matchs_next(TokenType::Comma) {
                    break ;
                }
            }
        }
        match self.consume(TokenType::RightParen, "Expected closing ')' after parameters.") {
            Ok(_) => {},
            Err(e) => {
                return Err(e);
            },
        }
        match self.consume(TokenType::LeftBrace, "Expected '{' before function body.") {
            Ok(_) => {},
            Err(e) => {
                return Err(e);
            },
        }
        let body = match self.block_statement() {
            Ok(b) => b,
            Err(e) => {
                return Err(e);
            },
        };
        Ok(FunctionDecl { name, params, body })
    }

    /// Parses a variable declaration after its `var` keyword.
    fn var_declaration(&mut self) -> (r: Result<Stmt, LoxResult>)
        requires
            old(self).wf(),
        ensures
            final(self).wf(),
            final(self).tokens == old(self).tokens,
            final(self).errors == old(self).errors,
            final(self).current >= old(self).current,
            r is Ok ==> final(self).current > old(self).current,
            r matches Err(e) ==> e is Parser,
            r matches Ok(s) ==> (s matches Stmt::Var { name, .. } && name == old(
                self,
            ).tokens@[old(self).current as int]),
            (old(self).tokens@[old(self).current as int].ttype == TokenType::Identifier && old(
                self,
            ).current + 1 < old(self).tokens@.len() && old(self).tokens@[old(self).current
                + 1].ttype == TokenType::Semicolon) ==> r == Ok::<Stmt, LoxResult>(
                Stmt::Var {
                    name: old(self).tokens@[old(self).current as int],
                    initializer: None,
                },
            ) && final(self).current == old(self).current + 2,
        decreases old(self).rem(), 13int,
    {
        let name = match self.consume(TokenType::Identifier, "Expected variable name.") {
            Ok(t) => t,
            Err(e) => {
                return Err(e);
            },
        };
        let initializer: Option<Expr> = if self.matchs_next(TokenType::Equal) {
            match self.expression() {
                Ok(e) => Some(e),
                Err(e) => {
                    return Err(e);
                },
            }
        } else {
            None
        };
        match self.consume(TokenType::Semicolon, "Expected ';' after variable declaration.") {
            Ok(_) => {},
            Err(e) => {
                return Err(e);
            },
        }
        Ok(Stmt::Var { name, initializer })
    }

    /// Parses one statement.
    fn statement(&mut self) -> (r: Result<Stmt, LoxResult>)
        requires
            old(self).wf(),
        ensures
            final(self).wf(),
            final(self).tokens == old(self).tokens,
            final(self).current >= old(self).current,
            r is Ok ==> final(self).current > old(self).current,
            r matches Err(e) ==> e is Parser,
            old(self).tokens@[old(self).current as int].ttype == TokenType::Print ==> (r matches
                Ok(s) ==> s is Print),
            old(self).tokens@[old(self).current as int].ttype == TokenType::If ==> (r matches Ok(
                s,
            ) ==> s is If),
            old(self).tokens@[old(self).current as int].ttype == TokenType::While ==> (r matches
                Ok(s) ==> s is While),
            old(self).tokens@[old(self).current as int].ttype == TokenType::Return ==> (r matches
                Ok(s) ==> s is Return),
            old(self).tokens@[old(self).current as int].ttype == TokenType::LeftBrace ==> (r
                matches Ok(s) ==> s is Block),
            old(self).tokens@[old(self).current as int].ttype == TokenType::For ==> (r matches Ok(
                s,
            ) ==> s is Block || s is While),
            (atom_at(old(self).tokens@, old(self).current as int) && old(self).tokens@[old(
                self,
            ).current + 1].ttype == TokenType::Semicolon) ==> r == Ok::<Stmt, LoxResult>(
                Stmt::Expression {
                    expression: atom_expr(old(self).tokens@[old(self).current as int]),
                },
            ) && final(self).current == old(self).current + 2 && final(self).errors == old(self).errors,
            ({
                let c = old(self).current as int;
                let toks = old(self).tokens@;
                (toks[c].ttype == TokenType::Print && c + 2 < toks.len() && atom_token(
                    toks[c + 1].ttype,
                ) && toks[c + 2].ttype == TokenType::Semicolon) ==> r == Ok::<Stmt, LoxResult>(
                    Stmt::Print { expression: atom_expr(toks[c + 1]) },
                ) && final(self).current == c + 3 && final(self).errors == old(self).errors
            }),
        decreases old(self).rem(), 14int,
    {
        if self.matchs_next(TokenType::For) {
            return self.for_statement();
        }
        if self.matchs_next(TokenType::If) {
            return self.if_statement();
        }
        if self.matchs_next(TokenType::Print) {
            return self.print_statement();
        }
        if self.matchs_next(TokenType::Return) {
            return self.return_statement();
        }
        if self.matchs_next(TokenType::While) {
            return self.while_statement();
        }
        if self.matchs_next(TokenType::LeftBrace) {
            return match self.block_statement() {
                Ok(stmts) => Ok(Stmt::Block { statements: stmts }),
                Err(e) => Err(e),
            };
        }
        self.expression_statement()
    }

    /// Parses a `for` statement after its keyword and lowers it on the spot
    /// to a block around a `while`, so no `for` node exists in the tree:
    /// `for (init; cond; incr) body` becomes
    /// `{ init; while (cond) { body; incr; } }`, with a literal `true` for a
    /// missing condition.
    fn for_statement(&mut self) -> (r: Result<Stmt, LoxResult>)
        requires
            old(self).wf(),
            old(self).current >= 1,
        ensures
            final(self).wf(),
            final(self).tokens == old(self).tokens,
            final(self).current >= old(self).current,
            r is Ok ==> final(self).current > old(self).current,
            r matches Err(e) ==> e is Parser,
            r matches Ok(s) ==> (s is Block || s is While),
            ({
                let c = old(self).current as int;
                let toks = old(self).tokens@;
                (toks[c].ttype == TokenType::LeftParen && c + 5 < toks.len() && toks[c + 1].ttype
                    == TokenType::Semicolon && toks[c + 2].ttype == TokenType::Semicolon
                    && toks[c + 3].ttype == TokenType::RightParen && atom_token(toks[c + 4].ttype)
                    && toks[c + 5].ttype == TokenType::Semicolon) ==> (r matches Ok(st) && st
                    matches Stmt::While { condition, body } && condition == (Expr::Literal {
                    value: Some(Object::True),
                }) && *body == (Stmt::Expression { expression: atom_expr(toks[c + 4]) })
                    && final(self).current == c + 6)
            }),
        decreases old(self).rem(), 13int,
    {
        match self.consume(TokenType::LeftParen, "Expected opening '(' after 'for' statement.") {
            Ok(_) => {},
            Err(e) => {
                return Err(e);
            },
        }
        let initializer: Option<Stmt> = if self.matchs_next(TokenType::Semicolon) {
            None
        } else if self.matchs_next(TokenType::Var) {
            match self.var_declaration() {
                Ok(s) => Some(s),
                Err(e) => {
                    return Err(e);
                },
            }
        } else {
            match self.expression_statement() {
                Ok(s) => Some(s),
                Err(e) => {
                    return Err(e);
                },
            }
        };
        let mut condition: Option<Expr> = None;
        if !self.check(TokenType::Semicolon) {
            match self.expression() {
                Ok(e) => condition = Some(e),
                Err(e) => {
                    return Err(e);
                },
            }
        }
        match self.consume(TokenType::Semicolon, "Expected ';' after loop condition.") {
            Ok(_) => {},
            Err(e) => {
                return Err(e);
            },
        }
        let mut increment: Option<Expr> = None;
        if !self.check(TokenType::RightParen) {
            match self.expression() {
                Ok(e) => increment = Some(e),
                Err(e) => {
                    return Err(e);
                },
            }
        }
        match self.consume(TokenType::RightParen, "Expected closing ')' after for statement.") {
            Ok(_) => {},
            Err(e) => {
                return Err(e);
            },
        }
        let mut body = match self.statement() {
            Ok(s) => s,
            Err(e) => {
                return Err(e);
            },
        };
        if let Some(incr) = increment {
            let mut statements: Vec<Stmt> = Vec::new();
            statements.push(body);
            statements.push(Stmt::Expression { expression: incr });
            body = Stmt::Block { statements };
        }
        let cond = match condition {
            Some(c) => c,
            None => Expr::Literal { value: Some(Object::True) },
        };
        body = Stmt::While { condition: cond, body: Box::new(body) };
        if let Some(init) = initializer {
            let mut statements: Vec<Stmt> = Vec::new();
            statements.push(init);
            statements.push(body);
            body = Stmt::Block { statements };
        }
        Ok(body)
    }

    /// Parses an `if` statement after its keyword.
    fn if_statement(&mut self) -> (r: Result<Stmt, LoxResult>)
        requires
            old(self).wf(),
            old(self).current >= 1,
        ensures
            final(self).wf(),
            final(self).tokens == old(self).tokens,
            final(self).current >= old(self).current,
            r is Ok ==> final(self).current > old(self).current,
            r matches Err(e) ==> e is Parser,
            r matches Ok(s) ==> s is If,
            ({
                let c = old(self).current as int;
                let toks = old(self).tokens@;
                (toks[c].ttype == TokenType::LeftParen && c + 5 < toks.len() && atom_token(
                    toks[c + 1].ttype,
                ) && toks[c + 2].ttype == TokenType::RightParen && atom_token(toks[c + 3].ttype)
                    && toks[c + 4].ttype == TokenType::Semicolon && toks[c + 5].ttype
                    != TokenType::Else) ==> (r matches Ok(st) && st matches Stmt::If {
                    condition,
                    then_branch,
                    else_branch,
                } && condition == atom_expr(toks[c + 1]) && *then_branch == (Stmt::Expression {
                    expression: atom_expr(toks[c + 3]),
                }) && else_branch is None && final(self).current == c + 5)
            }),
        decreases old(self).rem(), 13int,
    {
        match self.consume(TokenType::LeftParen, "Expected '(' after 'if' statement.") {
            Ok(_) => {},
            Err(e) => {
                return Err(e);
            },
        }
        let condition = match self.expression() {
            Ok(e) => e,
            Err(e) => {
                return Err(e);
            },
        };
        match self.consume(TokenType::RightParen, "Missing closing ')' after if condition.") {
            Ok(_) => {},
            Err(e) => {
                return Err(e);
            },
        }
        let then_branch = match self.statement() {
            Ok(s) => s,
            Err(e) => {
                return Err(e);
            },
        };
        let mut else_branch: Option<Box<Stmt>> = None;
        if self.matchs_next(TokenType::Else) {
            match self.statement() {
                Ok(s) => else_branch = Some(Box::new(s)),
                Err(e) => {
                    return Err(e);
                },
            }
        }
        Ok(Stmt::If { condition, then_branch: Box::new(then_branch), else_branch })
    }

    /// Parses a `print` statement after its keyword.
    fn print_statement(&mut self) -> (r: Result<Stmt, LoxResult>)
        requires
            old(self).wf(),
            old(self).current >= 1,
        ensures
            final(self).wf(),
            final(self).tokens == old(self).tokens,
            final(self).errors == old(self).errors,
            final(self).current >= old(self).current,
            r is Ok ==> final(self).current > old(self).current,
            r matches Err(e) ==> e is Parser,
            r matches Ok(s) ==> s is Print,
            (atom_at(old(self).tokens@, old(self).current as int) && old(self).tokens@[old(
                self,
            ).current + 1].ttype == TokenType::Semicolon) ==> r == Ok::<Stmt, LoxResult>(
                Stmt::Print {
                    expression: atom_expr(old(self).tokens@[old(self).current as int]),
                },
            ) && final(self).current == old(self).current + 2,
        decreases old(self).rem(), 13int,
    {
        let value = match self.expression() {
            Ok(e) => e,
            Err(e) => {
                return Err(e);
            },
        };
        match self.consume(TokenType::Semicolon, "Expected ';' after value.") {
            Ok(_) => {},
            Err(e) => {
                return Err(e);
            },
        }
        Ok(Stmt::Print { expression: value })
    }

    /// Parses a `return` statement after its keyword, whose token it keeps
    /// for the resolver's checks.
    fn return_statement(&mut self) -> (r: Result<Stmt, LoxResult>)
        requires
            old(self).wf(),
            old(self).current >= 1,
        ensures
            final(self).wf(),
            final(self).tokens == old(self).tokens,
            final(self).errors == old(self).errors,
            final(self).current >= old(self).current,
            r is Ok ==> final(self).current > old(self).current,
            r matches Err(e) ==> e is Parser,
            r matches Ok(s) ==> s is Return,
            old(self).tokens@[old(self).current as int].ttype == TokenType::Semicolon ==> r
                == Ok::<Stmt, LoxResult>(
                Stmt::Return {
                    keyword: old(self).tokens@[old(self).current - 1],
                    value: None,
                },
            ) && final(self).current == old(self).current + 1,
        decreases old(self).rem(), 13int,
    {
        let keyword = self.previous();
        let mut value: Option<Expr> = None;
        if !self.check(TokenType::Semicolon) {
            match self.expression() {
                Ok(e) => value = Some(e),
                Err(e) => {
                    return Err(e);
                },
            }
        }
        match self.consume(TokenType::Semicolon, "Expected ';' after return statement.") {
            Ok(_) => {},
            Err(e) => {
                return Err(e);
            },
        }
        Ok(Stmt::Return { keyword, value })
    }

    /// Parses a `while` statement after its keyword:
    /// `while "(" expression ")" statement`.
    fn while_statement(&mut self) -> (r: Result<Stmt, LoxResult>)
        requires
            old(self).wf(),
            old(self).current >= 1,
        ensures
            final(self).wf(),
            final(self).tokens == old(self).tokens,
            final(self).current >= old(self).current,
            r is Ok ==> final(self).current > old(self).current,
            r matches Err(e) ==> e is Parser,
            r matches Ok(s) ==> s is While,
            ({
                let c = old(self).current as int;
                let toks = old(self).tokens@;
                (toks[c].ttype == TokenType::LeftParen && c + 4 < toks.len() && atom_token(
                    toks[c + 1].ttype,
                ) && toks[c + 2].ttype == TokenType::RightParen && atom_token(toks[c + 3].ttype)
                    && toks[c + 4].ttype == TokenType::Semicolon) ==> (r matches Ok(st) && st
                    matches Stmt::While { condition, body } && condition == atom_expr(toks[c + 1])
                    && *body == (Stmt::Expression { expression: atom_expr(toks[c + 3]) })
                    && final(self).current == c + 5)
            }),
        decreases old(self).rem(), 13int,
    {
        match self.consume(TokenType::LeftParen, "Expected '(' after while statement.") {
            Ok(_) => {},
            Err(e) => {
                return Err(e);
            },
        }
        let condition = match self.expression() {
            Ok(e) => e,
            Err(e) => {
                return Err(e);
            },
        };
        match self.consume(TokenType::RightParen, "Expected closing ')' after while statement.") {
            Ok(_) => {},
            Err(e) => {
                return Err(e);
            },
        }
        let body = match self.statement() {
            Ok(s) => s,
            Err(e) => {
                return Err(e);
            },
        };
        Ok(Stmt::While { condition, body: Box::new(body) })
    }

    /// Parses the statements of a block after its opening `{`.
    fn block_statement(&mut self) -> (r: Result<Vec<Stmt>, LoxResult>)
        requires
            old(self).wf(),
            old(self).current >= 1,
        ensures
            final(self).wf(),
            final(self).tokens == old(self).tokens,
            final(self).current >= old(self).current,
            r is Ok ==> final(self).current > old(self).current,
            r matches Err(e) ==> e is Parser,
            old(self).tokens@[old(self).current as int].ttype == TokenType::RightBrace ==> (r
                matches Ok(v) && v@.len() == 0 && final(self).current == old(self).current + 1),
        decreases old(self).rem(), 16int,
    {
        let mut stmts: Vec<Stmt> = Vec::new();
        loop
            invariant
                self.wf(),
                self.tokens == old(self).tokens,
                self.current >= old(self).current,
                old(self).tokens@[old(self).current as int].ttype == TokenType::RightBrace ==> (
                self.current == old(self).current && stmts@.len() == 0),
            decreases self.rem(),
        {
            if self.check(TokenType::RightBrace) {
                break ;
            }
            if self.is_at_end() {
                break ;
            }
            match self.declaration() {
                Ok(Some(s)) => stmts.push(s),
                Ok(None) => {},
                Err(e) => {
                    return Err(e);
                },
            }
        }
        match self.consume(TokenType::RightBrace, "Missing scope ending right brace '}'.") {
            Ok(_) => {},
            Err(e) => {
                return Err(e);
            },
        }
        Ok(stmts)
    }

    /// Parses an expression statement: an expression ended by `;`.
    fn expression_statement(&mut self) -> (r: Result<Stmt, LoxResult>)
        requires
            old(self).wf(),
        ensures
            final(self).wf(),
            final(self).tokens == old(self).tokens,
            final(self).errors == old(self).errors,
            final(self).current >= old(self).current,
            r is Ok ==> final(self).current > old(self).current,
            r matches Err(e) ==> e is Parser,
            (atom_at(old(self).tokens@, old(self).current as int) && old(self).tokens@[old(
                self,
            ).current + 1].ttype == TokenType::Semicolon) ==> r == Ok::<Stmt, LoxResult>(
                Stmt::Expression {
                    expression: atom_expr(old(self).tokens@[old(self).current as int]),
                },
            ) && final(self).current == old(self).current + 2,
        decreases old(self).rem(), 12int,
    {
        let expr = match self.expression() {
            Ok(e) => e,
            Err(e) => {
                return Err(e);
            },
        };
        match self.consume(TokenType::Semicolon, "Expected ';' after expression.") {
            Ok(_) => {},
            Err(e) => {
                return Err(e);
            },
        }
        Ok(Stmt::Expression { expression: expr })
    }

    /// Parses one expression; assignment binds loosest.
    fn expression(&mut self) -> (r: Result<Expr, LoxResult>)
        requires
            old(self).wf(),
        ensures
            final(self).wf(),
            final(self).tokens == old(self).tokens,
            final(self).errors == old(self).errors,
            final(self).current >= old(self).current,
            r is Ok ==> final(self).current > old(self).current,
            r matches Err(e) ==> e is Parser,
            atom_at(old(self).tokens@, old(self).current as int) ==> r == Ok::<Expr, LoxResult>(
                atom_expr(old(self).tokens@[old(self).current as int]),
            ) && final(self).current == old(self).current + 1,
        decreases old(self).rem(), 11int,
    {
        self.assignment()
    }

    /// Parses an assignment: the left side is parsed as an ordinary
    /// expression first; on an `=` it must turn out to be a variable (an
    /// assignment) or a property access (a property set), else the `=`
    /// token is reported as an invalid assignment target.
    fn assignment(&mut self) -> (r: Result<Expr, LoxResult>)
        requires
            old(self).wf(),
        ensures
            final(self).wf(),
            final(self).tokens == old(self).tokens,
            final(self).errors == old(self).errors,
            final(self).current >= old(self).current,
            r is Ok ==> final(self).current > old(self).current,
            r matches Err(e) ==> e is Parser,
            atom_at(old(self).tokens@, old(self).current as int) ==> r == Ok::<Expr, LoxResult>(
                atom_expr(old(self).tokens@[old(self).current as int]),
            ) && final(self).current == old(self).current + 1,
        decreases old(self).rem(), 10int,
    {
        let expr = match self.or_expr() {
            Ok(e) => e,
            Err(e) => {
                return Err(e);
            },
        };
        if self.matchs_next(TokenType::Equal) {
            let equals = self.previous();
            let value = match self.assignment() {
                Ok(e) => e,
                Err(e) => {
                    return Err(e);
                },
            };
            return match expr {
                Expr::Variable { name, slot } => Ok(
                    Expr::Assign { name, value: Box::new(value), slot },
                ),
                Expr::Get { object, name } => Ok(
                    Expr::SetProp { object, name, value: Box::new(value) },
                ),
                _ => Err(
                    LoxResult::Parser {
                        token: equals,
                        error_type: ParserErrorType::InvalidAssignTarget,
                        msg: String::new(),
                    },
                ),
            };
        }
        Ok(expr)
    }

    /// Parses a chain of `or` operators over `and` operands.
    fn or_expr(&mut self) -> (r: Result<Expr, LoxResult>)
        requires
            old(self).wf(),
        ensures
            final(self).wf(),
            final(self).tokens == old(self).tokens,
            final(self).errors == old(self).errors,
            final(self).current >= old(self).current,
            r is Ok ==> final(self).current > old(self).current,
            r matches Err(e) ==> e is Parser,
            atom_at(old(self).tokens@, old(self).current as int) ==> r == Ok::<Expr, LoxResult>(
                atom_expr(old(self).tokens@[old(self).current as int]),
            ) && final(self).current == old(self).current + 1,
        decreases old(self).rem(), 9int,
    {
        let mut expr = match self.and_expr() {
            Ok(e) => e,
            Err(e) => {
                return Err(e);
            },
        };
        loop
            invariant
                self.wf(),
                self.tokens == old(self).tokens,
                self.errors == old(self).errors,
                self.current > old(self).current,
                atom_at(old(self).tokens@, old(self).current as int) ==> expr == atom_expr(
                    old(self).tokens@[old(self).current as int],
                ) && self.current == old(self).current + 1,
            decreases self.rem(),
        {
            if !self.matchs_next(TokenType::Or) {
                break ;
            }
            let operator = self.previous();
            let right = match self.and_expr() {
                Ok(e) => e,
                Err(e) => {
                    return Err(e);
                },
            };
            expr = Expr::Logical { left: Box::new(expr), operator, right: Box::new(right) };
        }
        Ok(expr)
    }

    /// Parses a chain of `and` operators over equality operands.
    fn and_expr(&mut self) -> (r: Result<Expr, LoxResult>)
        requires
            old(self).wf(),
        ensures
            final(self).wf(),
            final(self).tokens == old(self).tokens,
            final(self).errors == old(self).errors,
            final(self).current >= old(self).current,
            r is Ok ==> final(self).current > old(self).current,
            r matches Err(e) ==> e is Parser,
            atom_at(old(self).tokens@, old(self).current as int) ==> r == Ok::<Expr, LoxResult>(
                atom_expr(old(self).tokens@[old(self).current as int]),
            ) && final(self).current == old(self).current + 1,
        decreases old(self).rem(), 8int,
    {
        let mut expr = match self.equality() {
            Ok(e) => e,
            Err(e) => {
                return Err(e);
            },
        };
        loop
            invariant
                self.wf(),
                self.tokens == old(self).tokens,
                self.errors == old(self).errors,
                self.current > old(self).current,
                atom_at(old(self).tokens@, old(self).current as int) ==> expr == atom_expr(
                    old(self).tokens@[old(self).current as int],
                ) && self.current == old(self).current + 1,
            decreases self.rem(),
        {
            if !self.matchs_next(TokenType::And) {
                break ;
            }
            let operator = self.previous();
            let right = match self.equality() {
                Ok(e) => e,
                Err(e) => {
                    return Err(e);
                },
            };
            expr = Expr::Logical { left: Box::new(expr), operator, right: Box::new(right) };
        }
        Ok(expr)
    }

    /// Parses a chain of `!=` and `==` operators over comparison operands.
    fn equality(&mut self) -> (r: Result<Expr, LoxResult>)
        requires
            old(self).wf(),
        ensures
            final(self).wf(),
            final(self).tokens == old(self).tokens,
            final(self).errors == old(self).errors,
            final(self).current >= old(self).current,
            r is Ok ==> final(self).current > old(self).current,
            r matches Err(e) ==> e is Parser,
            atom_at(old(self).tokens@, old(self).current as int) ==> r == Ok::<Expr, LoxResult>(
                atom_expr(old(self).tokens@[old(self).current as int]),
            ) && final(self).current == old(self).current + 1,
        decreases old(self).rem(), 7int,
    {
        let mut expr = match self.comparison() {
            Ok(e) => e,
            Err(e) => {
                return Err(e);
            },
        };
        loop
            invariant
                self.wf(),
                self.tokens == old(self).tokens,
                self.errors == old(self).errors,
                self.current > old(self).current,
                atom_at(old(self).tokens@, old(self).current as int) ==> expr == atom_expr(
                    old(self).tokens@[old(self).current as int],
                ) && self.current == old(self).current + 1,
            decreases self.rem(),
        {
            if !(self.matchs_next(TokenType::BangEqual) || self.matchs_next(TokenType::EqualEqual)) {
                break ;
            }
            let operator = self.previous();
            let right = match self.comparison() {
                Ok(e) => e,
                Err(e) => {
                    return Err(e);
                },
            };
            expr = Expr::Binary { left: Box::new(expr), operator, right: Box::new(right) };
        }
        Ok(expr)
    }

    /// Parses a chain of `>`, `>=`, `<`, `<=` operators over term operands.
    fn comparison(&mut self) -> (r: Result<Expr, LoxResult>)
        requires
            old(self).wf(),
        ensures
            final(self).wf(),
            final(self).tokens == old(self).tokens,
            final(self).errors == old(self).errors,
            final(self).current >= old(self).current,
            r is Ok ==> final(self).current > old(self).current,
            r matches Err(e) ==> e is Parser,
            atom_at(old(self).tokens@, old(self).current as int) ==> r == Ok::<Expr, LoxResult>(
                atom_expr(old(self).tokens@[old(self).current as int]),
            ) && final(self).current == old(self).current + 1,
        decreases old(self).rem(), 6int,
    {
        let mut expr = match self.term() {
            Ok(e) => e,
            Err(e) => {
                return Err(e);
            },
        };
        loop
            invariant
                self.wf(),
                self.tokens == old(self).tokens,
                self.errors == old(self).errors,
                self.current > old(self).current,
                atom_at(old(self).tokens@, old(self).current as int) ==> expr == atom_expr(
                    old(self).tokens@[old(self).current as int],
                ) && self.current == old(self).current + 1,
            decreases self.rem(),
        {
            if !(self.matchs_next(TokenType::Greater) || self.matchs_next(TokenType::GreaterEqual)
                || self.matchs_next(TokenType::Less) || self.matchs_next(TokenType::LessEqual)) {
                break ;
            }
            let operator = self.previous();
            let right = match self.term() {
                Ok(e) => e,
                Err(e) => {
                    return Err(e);
                },
            };
            expr = Expr::Binary { left: Box::new(expr), operator, right: Box::new(right) };
        }
        Ok(expr)
    }

    /// Parses a chain of `-` and `+` operators over factor operands.
    fn term(&mut self) -> (r: Result<Expr, LoxResult>)
        requires
            old(self).wf(),
        ensures
            final(self).wf(),
            final(self).tokens == old(self).tokens,
            final(self).errors == old(self).errors,
            final(self).current >= old(self).current,
            r is Ok ==> final(self).current > old(self).current,
            r matches Err(e) ==> e is Parser,
            atom_at(old(self).tokens@, old(self).current as int) ==> r == Ok::<Expr, LoxResult>(
                atom_expr(old(self).tokens@[old(self).current as int]),
            ) && final(self).current == old(self).current + 1,
        decreases old(self).rem(), 5int,
    {
        let mut expr = match self.factor() {
            Ok(e) => e,
            Err(e) => {
                return Err(e);
            },
        };
        loop
            invariant
                self.wf(),
                self.tokens == old(self).tokens,
                self.errors == old(self).errors,
                self.current > old(self).current,
                atom_at(old(self).tokens@, old(self).current as int) ==> expr == atom_expr(
                    old(self).tokens@[old(self).current as int],
                ) && self.current == old(self).current + 1,
            decreases self.rem(),
        {
            if !(self.matchs_next(TokenType::Minus) || self.matchs_next(TokenType::Plus)) {
                break ;
            }
            let operator = self.previous();
            let right = match self.factor() {
                Ok(e) => e,
                Err(e) => {
                    return Err(e);
                },
            };
            expr = Expr::Binary { left: Box::new(expr), operator, right: Box::new(right) };
        }
        Ok(expr)
    }

    /// Parses a chain of `/` and `*` operators over unary operands.
    fn factor(&mut self) -> (r: Result<Expr, LoxResult>)
        requires
            old(self).wf(),
        ensures
            final(self).wf(),
            final(self).tokens == old(self).tokens,
            final(self).errors == old(self).errors,
            final(self).current >= old(self).current,
            r is Ok ==> final(self).current > old(self).current,
            r matches Err(e) ==> e is Parser,
            atom_at(old(self).tokens@, old(self).current as int) ==> r == Ok::<Expr, LoxResult>(
                atom_expr(old(self).tokens@[old(self).current as int]),
            ) && final(self).current == old(self).current + 1,
        decreases old(self).rem(), 4int,
    {
        let mut expr = match self.unary() {
            Ok(e) => e,
            Err(e) => {
                return Err(e);
            },
        };
        loop
            invariant
                self.wf(),
                self.tokens == old(self).tokens,
                self.errors == old(self).errors,
                self.current > old(self).current,
                atom_at(old(self).tokens@, old(self).current as int) ==> expr == atom_expr(
                    old(self).tokens@[old(self).current as int],
                ) && self.current == old(self).current + 1,
            decreases self.rem(),
        {
            if !(self.matchs_next(TokenType::Slash) || self.matchs_next(TokenType::Star)) {
                break ;
            }
            let operator = self.previous();
            let right = match self.unary() {
                Ok(e) => e,
                Err(e) => {
                    return Err(e);
                },
            };
            expr = Expr::Binary { left: Box::new(expr), operator, right: Box::new(right) };
        }
        Ok(expr)
    }

    /// Parses a `!` or `-` unary expression, or a call.
    fn unary(&mut self) -> (r: Result<Expr, LoxResult>)
        requires
            old(self).wf(),
        ensures
            final(self).wf(),
            final(self).tokens == old(self).tokens,
            final(self).errors == old(self).errors,
            final(self).current >= old(self).current,
            r is Ok ==> final(self).current > old(self).current,
            r matches Err(e) ==> e is Parser,
            atom_at(old(self).tokens@, old(self).current as int) ==> r == Ok::<Expr, LoxResult>(
                atom_expr(old(self).tokens@[old(self).current as int]),
            ) && final(self).current == old(self).current + 1,
        decreases old(self).rem(), 3int,
    {
        if self.matchs_next(TokenType::Bang) || self.matchs_next(TokenType::Minus) {
            let operator = self.previous();
            let right = match self.unary() {
                Ok(e) => e,
                Err(e) => {
                    return Err(e);
                },
            };
            return Ok(Expr::Unary { operator, right: Box::new(right) });
        }
        self.call()
    }

    /// Parses a primary expression followed by any chain of call argument
    /// lists and property accesses.
    fn call(&mut self) -> (r: Result<Expr, LoxResult>)
        requires
            old(self).wf(),
        ensures
            final(self).wf(),
            final(self).tokens == old(self).tokens,
            final(self).errors == old(self).errors,
            final(self).current >= old(self).current,
            r is Ok ==> final(self).current > old(self).current,
            r matches Err(e) ==> e is Parser,
            atom_at(old(self).tokens@, old(self).current as int) ==> r == Ok::<Expr, LoxResult>(
                atom_expr(old(self).tokens@[old(self).current as int]),
            ) && final(self).current == old(self).current + 1,
        decreases old(self).rem(), 2int,
    {
        let mut expr = match self.primary() {
            Ok(e) => e,
            Err(e) => {
                return Err(e);
            },
        };
        loop
            invariant
                self.wf(),
                self.tokens == old(self).tokens,
                self.errors == old(self).errors,
                self.current > old(self).current,
                atom_at(old(self).tokens@, old(self).current as int) ==> expr == atom_expr(
                    old(self).tokens@[old(self).current as int],
                ) && self.current == old(self).current + 1,
            decreases self.rem(),
        {
            if self.matchs_next(TokenType::LeftParen) {
                expr = match self.finish_call(expr) {
                    Ok(e) => e,
                    Err(e) => {
                        return Err(e);
                    },
                };
            } else if self.matchs_next(TokenType::Dot) {
                let name = match self.consume(
                    TokenType::Identifier,
                    "Expected property name after '.'.",
                ) {
                    Ok(t) => t,
                    Err(e) => {
                        return Err(e);
                    },
                };
                expr = Expr::Get { object: Box::new(expr), name };
            } else {
                break ;
            }
        }
        Ok(expr)
    }

    /// Parses a call's argument list after its opening `(`; the closing
    /// `)` token is kept for runtime error reports.
    #[verifier::loop_isolation(false)]
    fn finish_call(&mut self, callee: Expr) -> (r: Result<Expr, LoxResult>)
        requires
            old(self).wf(),
        ensures
            final(self).wf(),
            final(self).tokens == old(self).tokens,
            final(self).errors == old(self).errors,
            final(self).current >= old(self).current,
            r is Ok ==> final(self).current > old(self).current,
            r matches Err(e) ==> e is Parser,
            old(self).tokens@[old(self).current as int].ttype == TokenType::RightParen ==> (r
                matches Ok(e) && e matches Expr::Call { callee: cal, paren, arguments } && *cal
                == callee && paren == old(self).tokens@[old(self).current as int]
                && arguments@.len() == 0 && final(self).current == old(self).current + 1),
        decreases old(self).rem(), 12int,
    {
        let mut arguments: Vec<Expr> = Vec::new();
        if !self.check(TokenType::RightParen) {
            loop
                invariant
                    self.wf(),
                    self.tokens == old(self).tokens,
                    self.errors == old(self).errors,
                    self.current >= old(self).current,
                decreases self.rem(),
            {
                // The language caps a call at 255 arguments.
                if arguments.len() >= 255 {
                    return Err(
                        LoxResult::Parser {
                            token: self.peek(),
                            error_type: ParserErrorType::MaxArgNumber,
                            msg: String::new(),
                        },
                    );
                }
                match self.expression() {
                    Ok(e) => arguments.push(e),
                    Err(e) => {
                        return Err(e);
                    },
                }
                if !self.matchs_next(TokenType::Comma) {
                    break ;
                }
            }
        }
        let paren = match self.consume(TokenType::RightParen, "Expected closing ')' after argument list.") {
            Ok(t) => t,
            Err(e) => {
                return Err(e);
            },
        };
        Ok(Expr::Call { callee: Box::new(callee), paren, arguments })
    }

    /// Parses a single primary expression: a literal, `this`, `super`
    /// access, an identifier, or a parenthesised expression.
    fn primary(&mut self) -> (r: Result<Expr, LoxResult>)
        requires
            old(self).wf(),
        ensures
            final(self).wf(),
            final(self).tokens == old(self).tokens,
            final(self).errors == old(self).errors,
            final(self).current >= old(self).current,
            r is Ok ==> final(self).current > old(self).current,
            r matches Err(e) ==> e is Parser,
            old(self).tokens@[old(self).current as int].ttype == TokenType::False ==> r == Ok::<
                Expr,
                LoxResult,
            >(Expr::Literal { value: Some(Object::False) }),
            old(self).tokens@[old(self).current as int].ttype == TokenType::True ==> r == Ok::<
                Expr,
                LoxResult,
            >(Expr::Literal { value: Some(Object::True) }),
            old(self).tokens@[old(self).current as int].ttype == TokenType::Nil ==> r == Ok::<
                Expr,
                LoxResult,
            >(Expr::Literal { value: Some(Object::Nil) }),
            (old(self).tokens@[old(self).current as int].ttype == TokenType::Num || old(
                self,
            ).tokens@[old(self).current as int].ttype == TokenType::Str) ==> (r matches Ok(e) && e
                matches Expr::Literal { value } && value == old(self).tokens@[old(
                self,
            ).current as int].literal),
            old(self).tokens@[old(self).current as int].ttype == TokenType::Identifier ==> (r
                matches Ok(e) && e matches Expr::Variable { name, slot } && name == old(
                self,
            ).tokens@[old(self).current as int] && slot == old(self).next_slot),
            old(self).tokens@[old(self).current as int].ttype == TokenType::This ==> (r matches Ok(
                e,
            ) && e matches Expr::This { keyword, slot } && keyword == old(self).tokens@[old(
                self,
            ).current as int] && slot == old(self).next_slot),
            atom_at(old(self).tokens@, old(self).current as int) ==> r == Ok::<Expr, LoxResult>(
                atom_expr(old(self).tokens@[old(self).current as int]),
            ) && final(self).current == old(self).current + 1,
        decreases old(self).rem(), 1int,
    {
        if self.matchs_next(TokenType::False) {
            return Ok(Expr::Literal { value: Some(Object::False) });
        }
        if self.matchs_next(TokenType::True) {
            return Ok(Expr::Literal { value: Some(Object::True) });
        }
        if self.matchs_next(TokenType::Nil) {
            return Ok(Expr::Literal { value: Some(Object::Nil) });
        }
        if self.matchs_next(TokenType::Num) || self.matchs_next(TokenType::Str) {
            return Ok(Expr::Literal { value: self.previous().literal });
        }
        if self.matchs_next(TokenType::This) {
            let keyword = self.previous();
            let slot = self.alloc_slot();
            return Ok(Expr::This { keyword, slot });
        }
        if self.matchs_next(TokenType::Super) {
            let keyword = self.previous();
            match self.consume(TokenType::Dot, "Expected '.' after 'super'.") {
                Ok(_) => {},
                Err(e) => {
                    return Err(e);
                },
            }
            let method = match self.consume(TokenType::Identifier, "Expected superclass method name.") {
                Ok(t) => t,
                Err(e) => {
                    return Err(e);
                },
            };
            let slot = self.alloc_slot();
            return Ok(Expr::Super { keyword, method, slot });
        }
        if self.matchs_next(TokenType::Identifier) {
            let name = self.previous();
            let slot = self.alloc_slot();
            return Ok(Expr::Variable { name, slot });
        }
        if self.matchs_next(TokenType::LeftParen) {
            let expr = match self.expression() {
                Ok(e) => e,
                Err(e) => {
                    return Err(e);
                },
            };
            match self.consume(TokenType::RightParen, "Expected ')' after expression.") {
                Ok(_) => {},
                Err(e) => {
                    return Err(e);
                },
            }
            return Ok(Expr::Grouping { expression: Box::new(expr) });
        }
        Err(
            LoxResult::Parser {
                token: self.peek(),
                error_type: ParserErrorType::ExpectedExpression,
                msg: String::new(),
            },
        )
    }
}

} // verus!
