use vstd::prelude::*;

verus! {

/// The kind of a lexical token.
#[derive(Clone, Copy, PartialEq, Eq, Structural, Debug)]
pub enum TokenType {
    LeftParen,
    RightParen,
    LeftBrace,
    RightBrace,
    Comma,
    Dot,
    Minus,
    Plus,
    Semicolon,
    Slash,
    Star,
    Bang,
    BangEqual,
    Equal,
    EqualEqual,
    Greater,
    GreaterEqual,
    Less,
    LessEqual,
    Identifier,
    Str,
    Num,
    And,
    Class,
    Else,
    False,
    Fun,
    For,
    If,
    Nil,
    Or,
    Print,
    Return,
    Super,
    This,
    True,
    Var,
    While,
    Eof,
}

/// A literal carried by a token. Numbers are stored as the bit pattern of an
/// IEEE-754 double, so that the data model stays within machine integers.
#[derive(Debug)]
pub enum Object {
    Num(u64),
    Str(String),
    Nil,
    True,
    False,
}

impl Clone for Object {
    fn clone(&self) -> (res: Self)
        ensures
            res == *self,
    {
        match self {
            Object::Num(b) => Object::Num(*b),
            Object::Str(s) => Object::Str(s.clone()),
            Object::Nil => Object::Nil,
            Object::True => Object::True,
            Object::False => Object::False,
        }
    }
}

/// A lexical token with its source location.
#[derive(Debug)]
pub struct Token {
    pub ttype: TokenType,
    pub lexeme: String,
    pub literal: Option<Object>,
    pub src_line: usize,
    pub src_start: usize,
    pub src_end: usize,
}

impl Clone for Token {
    fn clone(&self) -> (res: Self)
        ensures
            res == *self,
    {
        Token {
            ttype: self.ttype,
            lexeme: self.lexeme.clone(),
            literal: match &self.literal {
                Some(o) => Some(o.clone()),
                None => None,
            },
            src_line: self.src_line,
            src_start: self.src_start,
            src_end: self.src_end,
        }
    }
}

impl Token {
    /// A copy of this token.
    pub fn dup(&self) -> (res: Token)
        ensures
            res == *self,
    {
        self.clone()
    }

    pub fn eof(src_line: usize, src_at: usize) -> (t: Token)
        requires
            src_at < usize::MAX,
        ensures
            t.ttype == TokenType::Eof,
            t.literal is None,
    {
        Token {
            ttype: TokenType::Eof,
            lexeme: String::new(),
            literal: None,
            src_line,
            src_start: src_at,
            src_end: src_at + 1,
        }
    }

    /// A token for a fixed punctuation or operator lexeme of the given width.
    fn punct(ttype: TokenType, lexeme: &str, src_line: usize, src_at: usize, width: usize) -> (t:
        Token)
        requires
            src_at + width <= usize::MAX,
        ensures
            t.ttype == ttype,
            t.lexeme@ == lexeme@,
            t.literal is None,
            t.src_line == src_line,
    {
        Token {
            ttype,
            lexeme: lexeme.to_owned(),
            literal: None,
            src_line,
            src_start: src_at,
            src_end: src_at + width,
        }
    }

    pub fn left_paren(src_line: usize, src_at: usize) -> (t: Token)
        requires
            src_at < usize::MAX,
        ensures
            t.ttype == TokenType::LeftParen,
    {
        Self::punct(TokenType::LeftParen, "(", src_line, src_at, 1)
    }

    pub fn right_paren(src_line: usize, src_at: usize) -> (t: Token)
        requires
            src_at < usize::MAX,
        ensures
            t.ttype == TokenType::RightParen,
    {
        Self::punct(TokenType::RightParen, ")", src_line, src_at, 1)
    }

    pub fn left_brace(src_line: usize, src_at: usize) -> (t: Token)
        requires
            src_at < usize::MAX,
        ensures
            t.ttype == TokenType::LeftBrace,
    {
        Self::punct(TokenType::LeftBrace, "{", src_line, src_at, 1)
    }

    pub fn right_brace(src_line: usize, src_at: usize) -> (t: Token)
        requires
            src_at < usize::MAX,
        ensures
            t.ttype == TokenType::RightBrace,
    {
        Self::punct(TokenType::RightBrace, "}", src_line, src_at, 1)
    }

    pub fn comma(src_line: usize, src_at: usize) -> (t: Token)
        requires
            src_at < usize::MAX,
        ensures
            t.ttype == TokenType::Comma,
    {
        Self::punct(TokenType::Comma, ",", src_line, src_at, 1)
    }

    pub fn dot(src_line: usize, src_at: usize) -> (t: Token)
        requires
            src_at < usize::MAX,
        ensures
            t.ttype == TokenType::Dot,
    {
        Self::punct(TokenType::Dot, ".", src_line, src_at, 1)
    }

    pub fn minus(src_line: usize, src_at: usize) -> (t: Token)
        requires
            src_at < usize::MAX,
        ensures
            t.ttype == TokenType::Minus,
    {
        Self::punct(TokenType::Minus, "-", src_line, src_at, 1)
    }

    pub fn plus(src_line: usize, src_at: usize) -> (t: Token)
        requires
            src_at < usize::MAX,
        ensures
            t.ttype == TokenType::Plus,
    {
        Self::punct(TokenType::Plus, "+", src_line, src_at, 1)
    }

    pub fn semicolon(src_line: usize, src_at: usize) -> (t: Token)
        requires
            src_at < usize::MAX,
        ensures
            t.ttype == TokenType::Semicolon,
    {
        Self::punct(TokenType::Semicolon, ";", src_line, src_at, 1)
    }

    pub fn star(src_line: usize, src_at: usize) -> (t: Token)
        requires
            src_at < usize::MAX,
        ensures
            t.ttype == TokenType::Star,
    {
        Self::punct(TokenType::Star, "*", src_line, src_at, 1)
    }

    pub fn bang(src_line: usize, src_at: usize) -> (t: Token)
        requires
            src_at < usize::MAX,
        ensures
            t.ttype == TokenType::Bang,
    {
        Self::punct(TokenType::Bang, "!", src_line, src_at, 1)
    }

    pub fn bang_equal(src_line: usize, src_at: usize) -> (t: Token)
        requires
            src_at + 2 <= usize::MAX,
        ensures
            t.ttype == TokenType::BangEqual,
    {
        Self::punct(TokenType::BangEqual, "!=", src_line, src_at, 2)
    }

    pub fn equal(src_line: usize, src_at: usize) -> (t: Token)
        requires
            src_at < usize::MAX,
        ensures
            t.ttype == TokenType::Equal,
    {
        Self::punct(TokenType::Equal, "=", src_line, src_at, 1)
    }

    pub fn equal_equal(src_line: usize, src_at: usize) -> (t: Token)
        requires
            src_at + 2 <= usize::MAX,
        ensures
            t.ttype == TokenType::EqualEqual,
    {
        Self::punct(TokenType::EqualEqual, "==", src_line, src_at, 2)
    }

    pub fn less(src_line: usize, src_at: usize) -> (t: Token)
        requires
            src_at < usize::MAX,
        ensures
            t.ttype == TokenType::Less,
    {
        Self::punct(TokenType::Less, "<", src_line, src_at, 1)
    }

    pub fn less_equal(src_line: usize, src_at: usize) -> (t: Token)
        requires
            src_at + 2 <= usize::MAX,
        ensures
            t.ttype == TokenType::LessEqual,
    {
        Self::punct(TokenType::LessEqual, "<=", src_line, src_at, 2)
    }

    pub fn greater(src_line: usize, src_at: usize) -> (t: Token)
        requires
            src_at < usize::MAX,
        ensures
            t.ttype == TokenType::Greater,
    {
        Self::punct(TokenType::Greater, ">", src_line, src_at, 1)
    }

    pub fn greater_equal(src_line: usize, src_at: usize) -> (t: Token)
        requires
            src_at + 2 <= usize::MAX,
        ensures
            t.ttype == TokenType::GreaterEqual,
    {
        Self::punct(TokenType::GreaterEqual, ">=", src_line, src_at, 2)
    }

    pub fn slash(src_line: usize, src_at: usize) -> (t: Token)
        requires
            src_at < usize::MAX,
        ensures
            t.ttype == TokenType::Slash,
    {
        Self::punct(TokenType::Slash, "/", src_line, src_at, 1)
    }

    pub fn string(src_line: usize, src_at: usize, s: &str) -> (t: Token)
        ensures
            t.ttype == TokenType::Str,
            t.literal matches Some(o) && o matches Object::Str(v) && v@ == s@,
    {
        Token {
            ttype: TokenType::Str,
            lexeme: String::new(),
            literal: Some(Object::Str(s.to_owned())),
            src_line,
            src_start: src_at,
            src_end: src_at,
        }
    }

    /// A number token; `n` is the bit pattern of the IEEE-754 double value.
    pub fn number(src_line: usize, src_start: usize, src_end: usize, n: u64) -> (t: Token)
        ensures
            t.ttype == TokenType::Num,
            t.literal == Some(Object::Num(n)),
    {
        Token {
            ttype: TokenType::Num,
            lexeme: String::new(),
            literal: Some(Object::Num(n)),
            src_line,
            src_start,
            src_end,
        }
    }

    pub fn identifier(
        src_line: usize,
        src_start: usize,
        src_end: usize,
        ttype: TokenType,
        l: &str,
    ) -> (t: Token)
        ensures
            t.ttype == ttype,
            t.lexeme@ == l@,
            t.literal is None,
    {
        Token {
            ttype,
            lexeme: l.to_owned(),
            literal: None,
            src_line,
            src_start,
            src_end,
        }
    }
}

} // verus!
