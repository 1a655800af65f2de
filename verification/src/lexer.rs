//! The tokenizer: turns source text into a token stream, each token
//! carrying the span it was read from. Any character sequence outside the
//! language's vocabulary is a syntax error; nothing here aborts the run.

use vstd::prelude::*;

use crate::error::{Error, ErrorKind};
use crate::span::Span;
use crate::text::push_char;

verus! {

/// One token of the surface language. Keywords are ordinary identifier
/// tokens; the parser tells them apart by their text.
#[derive(Debug, PartialEq, Eq)]
pub enum TokenKind {
    Ident(String),
    Num(u64),
    StrLit(String),
    LParen,
    RParen,
    LBrace,
    RBrace,
    LBracket,
    RBracket,
    Comma,
    Semi,
    Colon,
    Assign,
    EqEq,
    Neq,
    Arrow,
    Plus,
    Minus,
    Star,
    Slash,
    Percent,
    Amp,
    Hash,
    DotDot,
}

/// A token and where it was read from.
#[derive(Debug, PartialEq, Eq)]
pub struct Token {
    pub kind: TokenKind,
    pub span: Span,
}

/// The given lines joined back together with a line feed between each
/// pair.
pub open spec fn joined_lines(lines: Seq<String>) -> Seq<char>
    decreases lines.len(),
{
    if lines.len() == 0 {
        seq![]
    } else if lines.len() == 1 {
        lines[0]@
    } else {
        joined_lines(lines.drop_last()) + seq!['\n'] + lines.last()@
    }
}

/// The source text split at line feeds, without the line feeds; always at
/// least one entry, and joining the lines back with line feeds reproduces
/// the input exactly.
pub fn split_lines(code: &str) -> (lines: Vec<String>)
    ensures
        lines@.len() >= 1,
        joined_lines(lines@) == code@,
{
    let n = code.unicode_len();
    let mut lines: Vec<String> = Vec::new();
    let mut cur = String::new();
    let mut pos: usize = 0;
    proof {
        assert(joined_lines(lines@.push(cur)) =~= code@.take(0));
    }
    while pos < n
        invariant
            pos <= n,
            n == code@.len(),
            joined_lines(lines@.push(cur)) == code@.take(pos as int),
        decreases n - pos,
    {
        let c = code.get_char(pos);
        if c == '\n' {
            let ghost prev_lines = lines@;
            let ghost prev_cur = cur;
            lines.push(cur);
            cur = String::new();
            proof {
                assert(lines@.push(cur).drop_last() =~= prev_lines.push(prev_cur));
                assert(joined_lines(lines@.push(cur)) =~= code@.take(pos + 1));
            }
        } else {
            let ghost prev_cur = cur;
            push_char(&mut cur, c);
            proof {
                assert(lines@.push(cur).drop_last() =~= lines@.push(prev_cur).drop_last());
                assert(joined_lines(lines@.push(cur)) =~= code@.take(pos + 1));
            }
        }
        pos = pos + 1;
    }
    lines.push(cur);
    proof {
        assert(code@.take(n as int) =~= code@);
    }
    lines
}

/// The text of the 1-based line `line`, or an empty string when the line
/// number is out of range.
pub fn line_text(lines: &Vec<String>, line: usize) -> (s: String)
    ensures
        1 <= line <= lines@.len() ==> s == lines@[line - 1],
{
    if line >= 1 && line <= lines.len() {
        lines[line - 1].clone()
    } else {
        String::new()
    }
}

/// `x + 1`, capped at the largest `usize`; line and column counters never
/// wrap around.
fn bump(x: usize) -> (r: usize)
    ensures
        x < usize::MAX ==> r == x + 1,
{
    if x < usize::MAX {
        x + 1
    } else {
        x
    }
}

/// The 1-based column of the character position `pos` on the line that
/// starts at position `line_start`.
fn col(pos: usize, line_start: usize) -> (c: usize)
    requires
        line_start <= pos,
    ensures
        pos - line_start < usize::MAX ==> c == pos - line_start + 1,
{
    bump(pos - line_start)
}

/// Whether `c` can start an identifier.
fn is_ident_start(c: char) -> bool {
    ('a' <= c && c <= 'z') || ('A' <= c && c <= 'Z') || c == '_'
}

/// Whether `c` can continue an identifier.
fn is_ident_char(c: char) -> bool {
    ('a' <= c && c <= 'z') || ('A' <= c && c <= 'Z') || ('0' <= c && c <= '9') || c == '_'
}

/// Whether `c` is a decimal digit.
fn is_digit(c: char) -> bool {
    '0' <= c && c <= '9'
}

/// The numeric value of a decimal digit character.
fn digit_value(c: char) -> (d: u64)
    ensures
        d < 10,
{
    if c == '0' {
        0
    } else if c == '1' {
        1
    } else if c == '2' {
        2
    } else if c == '3' {
        3
    } else if c == '4' {
        4
    } else if c == '5' {
        5
    } else if c == '6' {
        6
    } else if c == '7' {
        7
    } else if c == '8' {
        8
    } else if c == '9' {
        9
    } else {
        0
    }
}

/// A span covering columns `c1` (inclusive) to `c2` (exclusive) of the
/// given 1-based line.
fn make_span(lines: &Vec<String>, file: &str, line: usize, c1: usize, c2: usize) -> (s: Span)
    ensures
        s.start == (line, c1) && s.end == (line, c2) && s.file@ == file@,
{
    Span::new((line, c1), (line, c2), line_text(lines, line), String::from_str(file))
}

/// A syntax error at the given span.
fn lex_error(span: Span, msg: &str) -> (e: Error)
    ensures
        e.kind == ErrorKind::SyntaxError,
{
    Error { kind: ErrorKind::SyntaxError, span: Some(span), related: None, msg: String::from_str(msg) }
}

/// Tokenizes the whole source text. Identifiers, decimal numerals, string
/// literals with the usual backslash escapes, and the language's fixed
/// punctuation are accepted; anything else is a syntax error, as is a
/// numeral that exceeds 64 bits or an unterminated string.
pub fn lex(code: &str, file: &str, lines: &Vec<String>) -> (r: Result<Vec<Token>, Error>)
    ensures
        r is Err ==> r->Err_0.kind == ErrorKind::SyntaxError,
        code@.len() == 0 ==> (r matches Ok(ts) && ts@.len() == 0),
{
    let n = code.unicode_len();
    let mut toks: Vec<Token> = Vec::new();
    let mut pos: usize = 0;
    let mut line: usize = 1;
    let mut line_start: usize = 0;
    while pos < n
        invariant
            pos <= n,
            n == code@.len(),
            line_start <= pos,
            n == 0 ==> toks@.len() == 0,
        decreases n - pos,
    {
        let c = code.get_char(pos);
        if c == '\n' {
            pos = pos + 1;
            line = bump(line);
            line_start = pos;
        } else if c == ' ' || c == '\t' || c == '\r' {
            pos = pos + 1;
        } else if is_ident_start(c) {
            let start = pos;
            let mut text = String::new();
            push_char(&mut text, c);
            pos = pos + 1;
            while pos < n && is_ident_char(code.get_char(pos))
                invariant
                    start < pos <= n,
                    n == code@.len(),
                    line_start <= start,
                decreases n - pos,
            {
                push_char(&mut text, code.get_char(pos));
                pos = pos + 1;
            }
            let c1 = col(start, line_start);
            let c2 = col(pos, line_start);
            toks.push(
                Token {
                    kind: TokenKind::Ident(text),
                    span: make_span(lines, file, line, c1, c2),
                },
            );
        } else if is_digit(c) {
            let start = pos;
            let mut num: u64 = digit_value(c);
            pos = pos + 1;
            let mut overflow = false;
            while pos < n && is_digit(code.get_char(pos))
                invariant
                    start < pos <= n,
                    n == code@.len(),
                    line_start <= start,
                decreases n - pos,
            {
                let d = digit_value(code.get_char(pos));
                match num.checked_mul(10) {
                    Some(m) => match m.checked_add(d) {
                        Some(v) => {
                            num = v;
                        },
                        None => {
                            overflow = true;
                        },
                    },
                    None => {
                        overflow = true;
                    },
                }
                pos = pos + 1;
            }
            let c1 = col(start, line_start);
            let c2 = col(pos, line_start);
            let span = make_span(lines, file, line, c1, c2);
            if overflow {
                return Err(lex_error(span, "numeric literal exceeds 64 bits"));
            }
            toks.push(Token { kind: TokenKind::Num(num), span });
        } else if c == '"' {
            let start = pos;
            pos = pos + 1;
            let mut text = String::new();
            let mut closed = false;
            while pos < n && !closed
                invariant
                    start < pos <= n,
                    n == code@.len(),
                    line_start <= start,
                decreases n - pos,
            {
                let sc = code.get_char(pos);
                if sc == '"' {
                    closed = true;
                    pos = pos + 1;
                } else if sc == '\n' {
                    let span = make_span(
                        lines,
                        file,
                        line,
                        col(start, line_start),
                        col(pos, line_start),
                    );
                    return Err(lex_error(span, "string literal crosses a line break"));
                } else if sc == '\\' {
                    if pos + 1 >= n {
                        pos = pos + 1;
                    } else {
                        let ec = code.get_char(pos + 1);
                        if ec == 'n' {
                            push_char(&mut text, '\n');
                        } else if ec == 'r' {
                            push_char(&mut text, '\r');
                        } else if ec == 't' {
                            push_char(&mut text, '\t');
                        } else if ec == '\\' {
                            push_char(&mut text, '\\');
                        } else if ec == '"' {
                            push_char(&mut text, '"');
                        } else if ec == '\'' {
                            push_char(&mut text, '\'');
                        } else if ec == '0' {
                            push_char(&mut text, '\0');
                        } else {
                            let span = make_span(
                                lines,
                                file,
                                line,
                                col(start, line_start),
                                col(pos + 1, line_start),
                            );
                            return Err(lex_error(span, "unknown escape sequence"));
                        }
                        pos = pos + 2;
                    }
                } else {
                    push_char(&mut text, sc);
                    pos = pos + 1;
                }
            }
            let c1 = col(start, line_start);
            let c2 = col(pos, line_start);
            let span = make_span(lines, file, line, c1, c2);
            if !closed {
                return Err(lex_error(span, "unterminated string literal"));
            }
            toks.push(Token { kind: TokenKind::StrLit(text), span });
        } else {
            let start = pos;
            let next: Option<char> = if pos + 1 < n {
                Some(code.get_char(pos + 1))
            } else {
                None
            };
            let (kind, width): (TokenKind, usize) = if c == '(' {
                (TokenKind::LParen, 1)
            } else if c == ')' {
                (TokenKind::RParen, 1)
            } else if c == '{' {
                (TokenKind::LBrace, 1)
            } else if c == '}' {
                (TokenKind::RBrace, 1)
            } else if c == '[' {
                (TokenKind::LBracket, 1)
            } else if c == ']' {
                (TokenKind::RBracket, 1)
            } else if c == ',' {
                (TokenKind::Comma, 1)
            } else if c == ';' {
                (TokenKind::Semi, 1)
            } else if c == ':' {
                (TokenKind::Colon, 1)
            } else if c == '+' {
                (TokenKind::Plus, 1)
            } else if c == '%' {
                (TokenKind::Percent, 1)
            } else if c == '&' {
                (TokenKind::Amp, 1)
            } else if c == '#' {
                (TokenKind::Hash, 1)
            } else if c == '*' {
                (TokenKind::Star, 1)
            } else if c == '/' {
                (TokenKind::Slash, 1)
            } else if c == '-' {
                if next == Some('>') {
                    (TokenKind::Arrow, 2)
                } else {
                    (TokenKind::Minus, 1)
                }
            } else if c == '=' {
                if next == Some('=') {
                    (TokenKind::EqEq, 2)
                } else {
                    (TokenKind::Assign, 1)
                }
            } else if c == '!' {
                if next == Some('=') {
                    (TokenKind::Neq, 2)
                } else {
                    let span = make_span(
                        lines,
                        file,
                        line,
                        col(pos, line_start),
                        col(pos + 1, line_start),
                    );
                    return Err(lex_error(span, "unexpected character"));
                }
            } else if c == '.' {
                if next == Some('.') {
                    (TokenKind::DotDot, 2)
                } else {
                    let span = make_span(
                        lines,
                        file,
                        line,
                        col(pos, line_start),
                        col(pos + 1, line_start),
                    );
                    return Err(lex_error(span, "unexpected character"));
                }
            } else {
                let span = make_span(lines, file, line, col(pos, line_start), col(pos + 1, line_start));
                return Err(lex_error(span, "unexpected character"));
            };
            let take: usize = if width == 2 && pos + 1 < n {
                2
            } else {
                1
            };
            let c1 = col(start, line_start);
            let c2 = col(start + take, line_start);
            pos = pos + take;
            toks.push(Token { kind, span: make_span(lines, file, line, c1, c2) });
        }
    }
    Ok(toks)
}

} // verus!
