use vstd::prelude::*;
use vstd::string::*;

use crate::errors::{LoxResult, ScannerErrorType};
use crate::token::{Object, Token, TokenType};

verus! {

/// Whether a character has the Unicode `Alphabetic` property.
pub uninterp spec fn is_unicode_alphabetic(c: char) -> bool;

/// Whether a character is Unicode alphanumeric.
pub uninterp spec fn is_unicode_alphanumeric(c: char) -> bool;

/// Relies on char::is_ascii_digit: true exactly on the ten ASCII digits.
pub assume_specification[ char::is_ascii_digit ](c: &char) -> (r: bool)
    ensures
        r == ('0' <= *c && *c <= '9'),
;

/// Relies on char::is_alphabetic: the Unicode `Alphabetic` property, a
/// function of the character alone.
pub assume_specification[ char::is_alphabetic ](c: char) -> (r: bool)
    ensures
        r == is_unicode_alphabetic(c),
;

/// Relies on char::is_alphanumeric: Unicode alphanumeric classification, a
/// function of the character alone.
pub assume_specification[ char::is_alphanumeric ](c: char) -> (r: bool)
    ensures
        r == is_unicode_alphanumeric(c),
;

/// The token a one-character lexeme scans to, for the characters that
/// never pair with a follower.
pub open spec fn single_token_of(c: char) -> Option<TokenType> {
    if c == '(' {
        Some(TokenType::LeftParen)
    } else if c == ')' {
        Some(TokenType::RightParen)
    } else if c == '{' {
        Some(TokenType::LeftBrace)
    } else if c == '}' {
        Some(TokenType::RightBrace)
    } else if c == ',' {
        Some(TokenType::Comma)
    } else if c == '.' {
        Some(TokenType::Dot)
    } else if c == '-' {
        Some(TokenType::Minus)
    } else if c == '+' {
        Some(TokenType::Plus)
    } else if c == ';' {
        Some(TokenType::Semicolon)
    } else if c == '*' {
        Some(TokenType::Star)
    } else {
        None
    }
}

/// The token type a reserved word scans to, or `Identifier` for every other
/// word.
pub open spec fn keyword_of(s: Seq<char>) -> TokenType {
    if s == "and"@ {
        TokenType::And
    } else if s == "class"@ {
        TokenType::Class
    } else if s == "else"@ {
        TokenType::Else
    } else if s == "false"@ {
        TokenType::False
    } else if s == "for"@ {
        TokenType::For
    } else if s == "fun"@ {
        TokenType::Fun
    } else if s == "if"@ {
        TokenType::If
    } else if s == "nil"@ {
        TokenType::Nil
    } else if s == "or"@ {
        TokenType::Or
    } else if s == "print"@ {
        TokenType::Print
    } else if s == "return"@ {
        TokenType::Return
    } else if s == "super"@ {
        TokenType::Super
    } else if s == "this"@ {
        TokenType::This
    } else if s == "true"@ {
        TokenType::True
    } else if s == "var"@ {
        TokenType::Var
    } else if s == "while"@ {
        TokenType::While
    } else {
        TokenType::Identifier
    }
}

/// Decides whether a scanned word is a reserved word.
fn keyword_type(s: &str) -> (t: TokenType)
    ensures
        t == keyword_of(s@),
{
    let o = s.to_owned();
    if o == "and".to_owned() {
        TokenType::And
    } else if o == "class".to_owned() {
        TokenType::Class
    } else if o == "else".to_owned() {
        TokenType::Else
    } else if o == "false".to_owned() {
        TokenType::False
    } else if o == "for".to_owned() {
        TokenType::For
    } else if o == "fun".to_owned() {
        TokenType::Fun
    } else if o == "if".to_owned() {
        TokenType::If
    } else if o == "nil".to_owned() {
        TokenType::Nil
    } else if o == "or".to_owned() {
        TokenType::Or
    } else if o == "print".to_owned() {
        TokenType::Print
    } else if o == "return".to_owned() {
        TokenType::Return
    } else if o == "super".to_owned() {
        TokenType::Super
    } else if o == "this".to_owned() {
        TokenType::This
    } else if o == "true".to_owned() {
        TokenType::True
    } else if o == "var".to_owned() {
        TokenType::Var
    } else if o == "while".to_owned() {
        TokenType::While
    } else {
        TokenType::Identifier
    }
}

/// Turns source text into a token list. Positions count characters, not
/// bytes, so the scanner walks the text one character at a time.
pub struct Scanner {
    pub source: String,
    pub tokens: Vec<Token>,
    /// Every lexical error met; scanning goes on past them, and a program
    /// whose scan collected any is not executed.
    pub errors: Vec<LoxResult>,
    pub start: usize,
    pub current: usize,
    pub line: usize,
}

impl Scanner {
    pub open spec fn wf(self) -> bool {
        &&& self.start <= self.current <= self.source@.len()
        &&& self.source@.len() + 2 <= usize::MAX
        &&& 1 <= self.line <= self.current + 1
    }

    pub fn new(source: String) -> (s: Scanner)
        ensures
            s.wf() <==> source@.len() + 2 <= usize::MAX,
            s.source == source,
            s.tokens@.len() == 0,
            s.errors@.len() == 0,
    {
        Scanner { source, tokens: Vec::new(), errors: Vec::new(), start: 0, current: 0, line: 1 }
    }

    /// Scans the whole source to an `Eof`-terminated token list. A lexical
    /// error does not stop the scan: every error is collected in `errors`,
    /// and the first one is also the result, so a flawed program is scanned
    /// to the end but never run.
    #[verifier::loop_isolation(false)]
    pub fn scan_tokens(&mut self) -> (r: Result<(), LoxResult>)
        requires
            old(self).wf(),
        ensures
            final(self).tokens@.len() >= 1,
            final(self).tokens@.last().ttype == TokenType::Eof,
            r is Ok <==> final(self).errors@.len() == 0,
            old(self).errors@.len() == 0 ==> (r matches Err(e) ==> e is Scanner),
            old(self).current == old(self).source@.len() ==> (final(self).tokens@.len() == old(
                self,
            ).tokens@.len() + 1 && final(self).errors == old(self).errors),
            (old(self).current == 0 && old(self).source@.len() == 1 && single_token_of(
                old(self).source@[0],
            ) is Some && old(self).errors@.len() == 0 && old(self).tokens@.len() == 0) ==> (r
                is Ok && final(self).tokens@.len() == 2 && final(self).tokens@[0].ttype
                == single_token_of(old(self).source@[0]).unwrap() && final(self).tokens@[1].ttype
                == TokenType::Eof),
    {
        loop
            invariant
                self.wf(),
                self.source == old(self).source,
                forall|k: int|
                    old(self).errors@.len() <= k < self.errors@.len() ==> (
                    #[trigger] self.errors@[k]) is Scanner,
                self.errors@.len() >= old(self).errors@.len(),
                old(self).current == old(self).source@.len() ==> *self == *old(self),
                (old(self).current == 0 && old(self).source@.len() == 1 && single_token_of(
                    old(self).source@[0],
                ) is Some && old(self).errors@.len() == 0 && old(self).tokens@.len() == 0) ==> ((
                self.current == 0 && self.tokens@.len() == 0 && self.errors@.len() == 0) || (
                self.current == 1 && self.tokens@.len() == 1 && self.tokens@[0].ttype
                    == single_token_of(old(self).source@[0]).unwrap() && self.errors@.len()
                    == 0)),
            decreases self.source@.len() - self.current,
        {
            if self.is_at_end() {
                break ;
            }
            self.start = self.current;
            match self.scan_token() {
                Ok(()) => {},
                Err(e) => {
                    self.errors.push(e);
                },
            }
        }
        self.tokens.push(Token::eof(self.line, self.current));
        if self.errors.len() > 0 {
            return Err(self.errors[0].clone());
        }
        Ok(())
    }

    fn is_at_end(&self) -> (r: bool)
        requires
            self.wf(),
        ensures
            r == (self.current == self.source@.len()),
    {
        self.current == self.source.as_str().unicode_len()
    }

    /// The character at the cursor, or NUL at the end of the text.
    fn peek(&self) -> (c: char)
        requires
            self.wf(),
        ensures
            c == if self.current < self.source@.len() {
                self.source@[self.current as int]
            } else {
                '\0'
            },
    {
        if self.is_at_end() {
            '\0'
        } else {
            self.source.as_str().get_char(self.current)
        }
    }

    /// The character after the cursor, or NUL if the text ends first.
    fn peek_next(&self) -> (c: char)
        requires
            self.wf(),
        ensures
            c == if self.current + 1 < self.source@.len() {
                self.source@[self.current + 1]
            } else {
                '\0'
            },
    {
        if self.current + 1 >= self.source.as_str().unicode_len() {
            '\0'
        } else {
            self.source.as_str().get_char(self.current + 1)
        }
    }

    /// Consumes and returns the character at the cursor.
    fn advance(&mut self) -> (c: char)
        requires
            old(self).wf(),
            old(self).current < old(self).source@.len(),
        ensures
            final(self).wf(),
            c == old(self).source@[old(self).current as int],
            final(self).current == old(self).current + 1,
            final(self).source == old(self).source,
            final(self).start == old(self).start,
            final(self).line == old(self).line,
            final(self).tokens == old(self).tokens,
            final(self).errors == old(self).errors,
    {
        let c = self.source.as_str().get_char(self.current);
        self.current = self.current + 1;
        c
    }

    /// Consumes the character at the cursor if it equals `expected`.
    fn match_next(&mut self, expected: char) -> (r: bool)
        requires
            old(self).wf(),
        ensures
            final(self).wf(),
            r == (old(self).current < old(self).source@.len() && old(self).source@[old(
                self,
            ).current as int] == expected),
            r ==> final(self).current == old(self).current + 1,
            !r ==> final(self).current == old(self).current,
            final(self).source == old(self).source,
            final(self).start == old(self).start,
            final(self).line == old(self).line,
            final(self).tokens == old(self).tokens,
            final(self).errors == old(self).errors,
    {
        if self.is_at_end() {
            return false;
        }
        if self.source.as_str().get_char(self.current) != expected {
            return false;
        }
        self.current = self.current + 1;
        true
    }

    /// Scans one token (or skips blank space or a comment) from the cursor.
    fn scan_token(&mut self) -> (r: Result<(), LoxResult>)
        requires
            old(self).wf(),
            old(self).current < old(self).source@.len(),
            old(self).start == old(self).current,
        ensures
            final(self).wf(),
            final(self).current > old(self).current,
            final(self).source == old(self).source,
            final(self).errors == old(self).errors,
            r matches Err(e) ==> e is Scanner,
            ({
                let c0 = old(self).source@[old(self).current as int];
                let two = old(self).current + 1 < old(self).source@.len() && old(
                    self,
                ).source@[old(self).current + 1] == '=';
                &&& single_token_of(c0) matches Some(t) ==> (r is Ok && final(self).tokens@.len()
                    == old(self).tokens@.len() + 1 && final(self).tokens@.last().ttype == t
                    && final(self).current == old(self).current + 1)
                &&& c0 == '!' ==> (r is Ok && final(self).tokens@.len() == old(
                    self,
                ).tokens@.len() + 1 && final(self).tokens@.last().ttype == (if two {
                    TokenType::BangEqual
                } else {
                    TokenType::Bang
                }))
                &&& c0 == '=' ==> (r is Ok && final(self).tokens@.len() == old(
                    self,
                ).tokens@.len() + 1 && final(self).tokens@.last().ttype == (if two {
                    TokenType::EqualEqual
                } else {
                    TokenType::Equal
                }))
                &&& c0 == '<' ==> (r is Ok && final(self).tokens@.len() == old(
                    self,
                ).tokens@.len() + 1 && final(self).tokens@.last().ttype == (if two {
                    TokenType::LessEqual
                } else {
                    TokenType::Less
                }))
                &&& c0 == '>' ==> (r is Ok && final(self).tokens@.len() == old(
                    self,
                ).tokens@.len() + 1 && final(self).tokens@.last().ttype == (if two {
                    TokenType::GreaterEqual
                } else {
                    TokenType::Greater
                }))
                &&& (c0 == ' ' || c0 == '\r' || c0 == '\t' || c0 == '\n') ==> (r is Ok && final(self).tokens == old(self).tokens && final(self).current == old(self).current + 1)
                &&& ('0' <= c0 && c0 <= '9') ==> (r is Ok ==> final(self).tokens@.len() == old(
                    self,
                ).tokens@.len() + 1 && final(self).tokens@.last().ttype == TokenType::Num)
                &&& c0 == '"' ==> (r is Ok ==> final(self).tokens@.len() == old(
                    self,
                ).tokens@.len() + 1 && final(self).tokens@.last().ttype == TokenType::Str)
            }),
    {
        let c = self.advance();
        match c {
            '(' => self.tokens.push(Token::left_paren(self.line, self.current)),
            ')' => self.tokens.push(Token::right_paren(self.line, self.current)),
            '{' => self.tokens.push(Token::left_brace(self.line, self.current)),
            '}' => self.tokens.push(Token::right_brace(self.line, self.current)),
            ',' => self.tokens.push(Token::comma(self.line, self.current)),
            '.' => self.tokens.push(Token::dot(self.line, self.current)),
            '-' => self.tokens.push(Token::minus(self.line, self.current)),
            '+' => self.tokens.push(Token::plus(self.line, self.current)),
            ';' => self.tokens.push(Token::semicolon(self.line, self.current)),
            '*' => self.tokens.push(Token::star(self.line, self.current)),
            '!' => {
                if self.match_next('=') {
                    self.tokens.push(Token::bang_equal(self.line, self.current));
                } else {
                    self.tokens.push(Token::bang(self.line, self.current));
                }
            },
            '=' => {
                if self.match_next('=') {
                    self.tokens.push(Token::equal_equal(self.line, self.current));
                } else {
                    self.tokens.push(Token::equal(self.line, self.current));
                }
            },
            '<' => {
                if self.match_next('=') {
                    self.tokens.push(Token::less_equal(self.line, self.current));
                } else {
                    self.tokens.push(Token::less(self.line, self.current));
                }
            },
            '>' => {
                if self.match_next('=') {
                    self.tokens.push(Token::greater_equal(self.line, self.current));
                } else {
                    self.tokens.push(Token::greater(self.line, self.current));
                }
            },
            '/' => {
                if self.match_next('/') {
                    // A comment runs to the end of the line.
                    loop
                        invariant
                            self.wf(),
                            self.source == old(self).source,
                            self.current > old(self).current,
                            self.tokens == old(self).tokens,
                            self.errors == old(self).errors,
                        decreases self.source@.len() - self.current,
                    {
                        if self.is_at_end() {
                            break ;
                        }
                        if self.peek() == '\n' {
                            break ;
                        }
                        self.advance();
                    }
                } else {
                    self.tokens.push(Token::slash(self.line, self.current));
                }
            },
            ' ' => {},
            '\r' => {},
            '\t' => {},
            '\n' => {
                self.line = self.line + 1;
            },
            '"' => {
                return self.scan_string();
            },
            _ => {
                if c.is_ascii_digit() {
                    return self.scan_number();
                } else if c.is_alphabetic() || c == '_' {
                    self.scan_identifier();
                } else {
                    return Err(
                        LoxResult::Scanner { c, error_type: ScannerErrorType::InvalidCharacter },
                    );
                }
            },
        }
        Ok(())
    }

    /// Scans the rest of a string literal whose opening quote was consumed.
    fn scan_string(&mut self) -> (r: Result<(), LoxResult>)
        requires
            old(self).wf(),
            old(self).start + 1 == old(self).current,
        ensures
            final(self).wf(),
            final(self).current > old(self).current || r is Err,
            final(self).current >= old(self).current,
            final(self).source == old(self).source,
            final(self).errors == old(self).errors,
            r matches Err(e) ==> e is Scanner,
            r is Err ==> final(self).tokens == old(self).tokens,
            r is Ok ==> (final(self).tokens@.len() == old(self).tokens@.len() + 1 && final(self).tokens@.last().ttype == TokenType::Str && (final(self).tokens@.last().literal
                matches Some(o) && o matches Object::Str(v) && v@ == old(self).source@.subrange(
                old(self).start + 1,
                final(self).current - 1,
            ))),
    {
        loop
            invariant
                self.wf(),
                self.source == old(self).source,
                self.start == old(self).start,
                self.start + 1 <= self.current,
                self.current >= old(self).current,
                self.tokens == old(self).tokens,
                self.errors == old(self).errors,
            decreases self.source@.len() - self.current,
        {
            if self.is_at_end() {
                break ;
            }
            if self.peek() == '"' {
                break ;
            }
            let c = self.advance();
            if c == '\n' {
                self.line = self.line + 1;
            }
        }
        if self.is_at_end() {
            return Err(
                LoxResult::Scanner { c: '"', error_type: ScannerErrorType::UnterminatedString },
            );
        }
        // The closing quote.
        self.advance();
        let text = self.source.as_str().substring_char(self.start + 1, self.current - 1);
        let t = Token::string(self.line, self.current, text);
        self.tokens.push(t);
        Ok(())
    }

    /// Scans the rest of a number literal whose first digit was consumed.
    fn scan_number(&mut self) -> (r: Result<(), LoxResult>)
        requires
            old(self).wf(),
            old(self).start < old(self).current,
        ensures
            final(self).wf(),
            final(self).current >= old(self).current,
            final(self).source == old(self).source,
            final(self).errors == old(self).errors,
            r matches Err(e) ==> e is Scanner,
            r is Err ==> final(self).tokens == old(self).tokens,
            r is Ok ==> (final(self).tokens@.len() == old(self).tokens@.len() + 1 && final(self).tokens@.last().ttype == TokenType::Num && final(self).tokens@.last().literal
                == Some(
                Object::Num(
                    crate::num::bits_of_decimal(
                        old(self).source@.subrange(
                            old(self).start as int,
                            final(self).current as int,
                        ),
                    ),
                ),
            )),
    {
        loop
            invariant
                self.wf(),
                self.source == old(self).source,
                self.start == old(self).start,
                self.start < self.current,
                self.current >= old(self).current,
                self.line == old(self).line,
                self.tokens == old(self).tokens,
                self.errors == old(self).errors,
            decreases self.source@.len() - self.current,
        {
            if !self.peek().is_ascii_digit() {
                break ;
            }
            self.advance();
        }
        if self.peek() == '.' && self.peek_next().is_ascii_digit() {
            self.advance();
            loop
                invariant
                    self.wf(),
                    self.source == old(self).source,
                    self.start == old(self).start,
                    self.start < self.current,
                    self.current >= old(self).current,
                    self.line == old(self).line,
                    self.tokens == old(self).tokens,
                    self.errors == old(self).errors,
                decreases self.source@.len() - self.current,
            {
                if !self.peek().is_ascii_digit() {
                    break ;
                }
                self.advance();
            }
        }
        let text = self.source.as_str().substring_char(self.start, self.current);
        match crate::num::num_parse(text) {
            Some(bits) => {
                let t = Token::number(self.line, self.start, self.current, bits);
                self.tokens.push(t);
                Ok(())
            },
            None => Err(LoxResult::Scanner { c: '0', error_type: ScannerErrorType::InvalidCharacter }),
        }
    }

    /// Scans the rest of a word whose first character was consumed, and
    /// labels it as a reserved word or an identifier.
    fn scan_identifier(&mut self)
        requires
            old(self).wf(),
            old(self).start < old(self).current,
        ensures
            final(self).wf(),
            final(self).current >= old(self).current,
            final(self).source == old(self).source,
            final(self).errors == old(self).errors,
            final(self).tokens@.len() == old(self).tokens@.len() + 1,
            final(self).tokens@.last().ttype == keyword_of(
                old(self).source@.subrange(old(self).start as int, final(self).current as int),
            ),
            final(self).tokens@.last().lexeme@ == old(self).source@.subrange(
                old(self).start as int,
                final(self).current as int,
            ),
    {
        loop
            invariant
                self.wf(),
                self.source == old(self).source,
                self.start == old(self).start,
                self.start < self.current,
                self.current >= old(self).current,
                self.line == old(self).line,
                self.tokens == old(self).tokens,
                self.errors == old(self).errors,
            decreases self.source@.len() - self.current,
        {
            if self.is_at_end() {
                break ;
            }
            let c = self.peek();
            if !(c.is_alphanumeric() || c == '_') {
                break ;
            }
            self.advance();
        }
        let text = self.source.as_str().substring_char(self.start, self.current);
        let ttype = keyword_type(text);
        let t = Token::identifier(self.line, self.start, self.current, ttype, text);
        self.tokens.push(t);
    }
}

} // verus!
