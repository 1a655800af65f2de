//! The parser: builds the typed syntax tree from the token stream, by
//! recursive descent with an explicit precedence scheme for expressions,
//! lowest to highest: equality, additive, multiplicative, unary prefix.
//! All binary operators are left-associative. Any rejection is fatal for
//! the whole run and is returned as a structured error; no partial tree
//! is produced.
//!
//! The sub-parsers' contracts fix the tree for a family of token shapes:
//! lone atoms, `a + b * c` (multiplicative binds tighter), `a - b - c`
//! (left association), `-a + b` (a unary prefix binds to its operand
//! alone), the four array-literal forms, the type keywords with their
//! pointer markers, and the simplest constant declarations. For shapes
//! beyond these families the grammar is defined by the parsers
//! themselves.

use vstd::prelude::*;

use crate::defs::{
    Attributes, ConstDecl, ConstInitVal, Decl, FuncDef, InitVal, Param, VarDecl,
};
use crate::error::{Error, ErrorKind};
use crate::expr::{Array, BinaryOp, ConstExp, Deref, Exp, GetAddr, LVal, Number, UnaryOp};
use crate::lexer::{lex, line_text, split_lines, Token, TokenKind};
use crate::program::{Block, BlockItem, CompUnit, GlobalItem};
use crate::span::Span;
use crate::stmt::{
    AsmConstraint, Assign, For, If, InlineAsm, Return, Stmt, Terminator, While,
};
use crate::text::str_eq;
use crate::types::{VType, VTypeEnum};

verus! {

broadcast use vstd::string::group_string_axioms;

/// The error kinds the parser can produce.
pub open spec fn parse_error_kind(k: ErrorKind) -> bool {
    k == ErrorKind::SyntaxError || k == ErrorKind::UnknownType || k == ErrorKind::UnknownTerminator
}

/// What every sub-parser promises: on success the position advanced and
/// stayed in bounds; on failure the error is one of the parser's kinds.
pub open spec fn parsed<T>(pos: int, r: Result<(T, usize), Error>, len: int) -> bool {
    match r {
        Ok((_, p)) => pos < p <= len,
        Err(e) => parse_error_kind(e.kind),
    }
}

/// A syntax error at the given token position, or at the last token when
/// the stream ended early.
fn err_at(toks: &Vec<Token>, pos: usize, msg: &str) -> (e: Error)
    ensures
        e.kind == ErrorKind::SyntaxError,
{
    let span: Option<Span> = if pos < toks.len() {
        Some(toks[pos].span.dup())
    } else if toks.len() > 0 {
        Some(toks[toks.len() - 1].span.dup())
    } else {
        None
    };
    Error { kind: ErrorKind::SyntaxError, span, related: None, msg: String::from_str(msg) }
}

/// The span from token `a` to token `b - 1`: it starts where token `a`
/// starts, ends where token `b - 1` ends, and keeps token `a`'s line text
/// and file.
fn range_span(toks: &Vec<Token>, a: usize, b: usize) -> (s: Span)
    requires
        a < b <= toks.len(),
    ensures
        s.start == toks@[a as int].span.start,
        s.end == toks@[b - 1].span.end,
        s.string == toks@[a as int].span.string,
        s.file == toks@[a as int].span.file,
{
    toks[a].span.to(&toks[b - 1].span)
}

/// The token at `pos` is the identifier `kw`.
pub open spec fn keyword_at(toks: &Vec<Token>, pos: int, kw: &str) -> bool {
    0 <= pos < toks.len() && match toks@[pos].kind {
        TokenKind::Ident(s) => s@ == kw@,
        _ => false,
    }
}

/// Whether the token at `pos` is the identifier `kw`.
fn is_kw(toks: &Vec<Token>, pos: usize, kw: &str) -> (r: bool)
    ensures
        r == keyword_at(toks, pos as int, kw),
{
    if pos < toks.len() {
        match &toks[pos].kind {
            TokenKind::Ident(s) => str_eq(s.as_str(), kw),
            _ => false,
        }
    } else {
        false
    }
}

/// Whether a token continues an expression at some binary-operator level.
pub open spec fn exp_op_token(k: &TokenKind) -> bool {
    ||| k matches TokenKind::EqEq
    ||| k matches TokenKind::Neq
    ||| k matches TokenKind::Plus
    ||| k matches TokenKind::Minus
    ||| k matches TokenKind::Star
    ||| k matches TokenKind::Slash
    ||| k matches TokenKind::Percent
}

/// The value and position an expression parser holds after reading a
/// numeric literal that no operator follows: the literal itself,
/// verbatim, with its own span, and the position right after it.
pub open spec fn lone_number_state(toks: &Vec<Token>, pos: int, e: &Exp, p: int) -> bool {
    match toks@[pos].kind {
        TokenKind::Num(v) => (pos + 1 == toks.len() || !exp_op_token(&toks@[pos + 1].kind)) ==> (p
            == pos + 1 && (e matches Exp::Number(n) && n.num == v && n.span == toks@[pos].span)),
        _ => true,
    }
}

/// Success is owed on the simplest expressions: a numeric literal that no
/// operator follows always parses, to itself. This pins the parsers down
/// on a concrete family of inputs; the full grammar is defined by the
/// parsers themselves.
pub open spec fn lone_number_parse(
    toks: &Vec<Token>,
    pos: int,
    r: Result<(Exp, usize), Error>,
) -> bool {
    match toks@[pos].kind {
        TokenKind::Num(_) => (pos + 1 == toks.len() || !exp_op_token(&toks@[pos + 1].kind)) ==> (r
            matches Ok((e, p)) && lone_number_state(toks, pos, &e, p as int)),
        _ => true,
    }
}

/// Whether a token continues an expression at the multiplicative level or
/// opens a call.
pub open spec fn mul_op_or_call_token(k: &TokenKind) -> bool {
    ||| k matches TokenKind::Star
    ||| k matches TokenKind::Slash
    ||| k matches TokenKind::Percent
    ||| k matches TokenKind::LParen
}

/// No multiplicative operator or call parenthesis continues at `p`.
pub open spec fn stops_mul(toks: &Vec<Token>, p: int) -> bool {
    p >= toks.len() || !mul_op_or_call_token(&toks@[p].kind)
}

/// No operator of any level and no call parenthesis continues at `p`: the
/// expression ends here.
pub open spec fn stops_exp(toks: &Vec<Token>, p: int) -> bool {
    p >= toks.len() || !(exp_op_token(&toks@[p].kind) || toks@[p].kind matches TokenKind::LParen)
}

/// A token that is an expression atom: a numeric literal or an
/// identifier.
pub open spec fn atom_token(k: &TokenKind) -> bool {
    k matches TokenKind::Num(_) || k matches TokenKind::Ident(_)
}

/// The expression an atom token parses to: the literal itself, or the
/// one-segment lvalue of the identifier.
pub open spec fn atom_exp(k: &TokenKind, e: &Exp) -> bool {
    match k {
        TokenKind::Num(v) => e matches Exp::Number(n) && n.num == v,
        TokenKind::Ident(s) => e matches Exp::LVal(l) && l.ids@.len() == 1 && l.ids@[0] == s
            && l.exp is None,
        _ => false,
    }
}

/// No call parenthesis opens at `p` (an identifier before one is a call,
/// not a lone lvalue).
pub open spec fn no_call_paren(toks: &Vec<Token>, p: int) -> bool {
    p >= toks.len() || !(toks@[p].kind matches TokenKind::LParen)
}

/// At the primary and unary levels an atom parses to itself whenever no
/// call parenthesis follows, whatever else comes after.
pub open spec fn atom_primary_parse(
    toks: &Vec<Token>,
    pos: int,
    r: Result<(Exp, usize), Error>,
) -> bool {
    (pos < toks.len() && atom_token(&toks@[pos].kind) && no_call_paren(toks, pos + 1)) ==> (r
        matches Ok((e, p)) && p == pos + 1 && atom_exp(&toks@[pos].kind, &e))
}

/// At the unary level a minus followed by an atom parses to the negated
/// atom whenever no call parenthesis follows the atom.
pub open spec fn neg_primary_parse(
    toks: &Vec<Token>,
    pos: int,
    r: Result<(Exp, usize), Error>,
) -> bool {
    ({
        &&& pos + 2 <= toks.len()
        &&& toks@[pos].kind matches TokenKind::Minus
        &&& atom_token(&toks@[pos + 1].kind)
        &&& no_call_paren(toks, pos + 2)
    }) ==> (r matches Ok((e, p)) && p == pos + 2 && neg_atom_exp(toks, pos, &e))
}

/// A lone atom that nothing multiplicative continues parses to itself,
/// ending right after it.
pub open spec fn lone_atom_parse(toks: &Vec<Token>, pos: int, r: Result<(Exp, usize), Error>) -> bool {
    (pos < toks.len() && atom_token(&toks@[pos].kind) && stops_mul(toks, pos + 1)) ==> (r matches
        Ok((e, p)) && p == pos + 1 && atom_exp(&toks@[pos].kind, &e))
}

/// The tree of `a - b` over atoms at `pos` and `pos + 2`.
pub open spec fn sub_pair_exp(toks: &Vec<Token>, pos: int, e: &Exp) -> bool {
    match e {
        Exp::Binary(l, op, rr, _) => op == BinaryOp::Sub && atom_exp(&toks@[pos].kind, l)
            && atom_exp(&toks@[pos + 2].kind, rr),
        _ => false,
    }
}

/// A lone atom that no operator at all continues parses to itself, at any
/// expression level.
pub open spec fn lone_atom_exp_parse(
    toks: &Vec<Token>,
    pos: int,
    r: Result<(Exp, usize), Error>,
) -> bool {
    (pos < toks.len() && atom_token(&toks@[pos].kind) && stops_exp(toks, pos + 1)) ==> (r matches
        Ok((e, p)) && p == pos + 1 && atom_exp(&toks@[pos].kind, &e))
}

/// An array list of the given length, its elements atoms taken from the
/// token positions `elems`.
pub open spec fn array_list_exp(toks: &Vec<Token>, elems: Seq<int>, e: &Exp) -> bool {
    match e {
        Exp::Array(a) => match &**a {
            Array::List(items, _) => items@.len() == elems.len() && (forall|i: int|
                0 <= i < elems.len() ==> atom_exp(&toks@[elems[i]].kind, &(#[trigger] items@[i]))),
            _ => false,
        },
        _ => false,
    }
}

/// An array template of an atom value and a numeric count.
pub open spec fn array_template_exp(toks: &Vec<Token>, pos: int, e: &Exp) -> bool {
    match e {
        Exp::Array(a) => match &**a {
            Array::Template(value, count, _) => atom_exp(&toks@[pos + 1].kind, value) && match (
            toks@[pos + 3].kind, count.exp) {
                (TokenKind::Num(v), Exp::Number(n)) => n.num == v,
                _ => false,
            },
            _ => false,
        },
        _ => false,
    }
}

/// The token shape `[ ]`: the empty array literal.
pub open spec fn array_empty_shape(toks: &Vec<Token>, pos: int) -> bool {
    &&& pos + 2 <= toks.len()
    &&& toks@[pos].kind matches TokenKind::LBracket
    &&& toks@[pos + 1].kind matches TokenKind::RBracket
}

/// The token shape `[ atom ]`: the singleton array literal.
pub open spec fn array_single_shape(toks: &Vec<Token>, pos: int) -> bool {
    &&& pos + 3 <= toks.len()
    &&& toks@[pos].kind matches TokenKind::LBracket
    &&& atom_token(&toks@[pos + 1].kind)
    &&& toks@[pos + 2].kind matches TokenKind::RBracket
}

/// The token shape `[ atom , atom ]`: the two-element array literal.
pub open spec fn array_pair_shape(toks: &Vec<Token>, pos: int) -> bool {
    &&& pos + 5 <= toks.len()
    &&& toks@[pos].kind matches TokenKind::LBracket
    &&& atom_token(&toks@[pos + 1].kind)
    &&& toks@[pos + 2].kind matches TokenKind::Comma
    &&& atom_token(&toks@[pos + 3].kind)
    &&& toks@[pos + 4].kind matches TokenKind::RBracket
}

/// The token shape `[ atom ; numeral ]`: the template array literal.
pub open spec fn array_template_shape(toks: &Vec<Token>, pos: int) -> bool {
    &&& pos + 5 <= toks.len()
    &&& toks@[pos].kind matches TokenKind::LBracket
    &&& atom_token(&toks@[pos + 1].kind)
    &&& toks@[pos + 2].kind matches TokenKind::Semi
    &&& toks@[pos + 3].kind matches TokenKind::Num(_)
    &&& toks@[pos + 4].kind matches TokenKind::RBracket
}

/// The four array-literal forms parse to their trees: `[]` to the empty
/// list, `[x]` to the singleton, `[x,y]` to the two-element list in
/// source order, `[x;3]` to the template of value and count.
pub open spec fn array_forms_parse(
    toks: &Vec<Token>,
    pos: int,
    r: Result<(Exp, usize), Error>,
) -> bool {
    &&& array_empty_shape(toks, pos) ==> (r matches Ok((e, p)) && p == pos + 2 && array_list_exp(
        toks,
        seq![],
        &e,
    ))
    &&& array_single_shape(toks, pos) ==> (r matches Ok((e, p)) && p == pos + 3 && array_list_exp(
        toks,
        seq![pos + 1],
        &e,
    ))
    &&& array_pair_shape(toks, pos) ==> (r matches Ok((e, p)) && p == pos + 5 && array_list_exp(
        toks,
        seq![pos + 1, pos + 3],
        &e,
    ))
    &&& array_template_shape(toks, pos) ==> (r matches Ok((e, p)) && p == pos + 5
        && array_template_exp(toks, pos, &e))
}

/// A negated atom: the unary minus binds to its operand alone.
pub open spec fn neg_atom_shape(toks: &Vec<Token>, pos: int) -> bool {
    &&& pos + 2 <= toks.len()
    &&& toks@[pos].kind matches TokenKind::Minus
    &&& atom_token(&toks@[pos + 1].kind)
    &&& stops_mul(toks, pos + 2)
}

/// The tree of a negated atom.
pub open spec fn neg_atom_exp(toks: &Vec<Token>, pos: int, e: &Exp) -> bool {
    match e {
        Exp::Unary(op, inner, _) => op == UnaryOp::Negative && atom_exp(
            &toks@[pos + 1].kind,
            inner,
        ),
        _ => false,
    }
}

/// A negated atom parses to the negation of the atom.
pub open spec fn neg_atom_parse(toks: &Vec<Token>, pos: int, r: Result<(Exp, usize), Error>) -> bool {
    neg_atom_shape(toks, pos) ==> (r matches Ok((e, p)) && p == pos + 2 && neg_atom_exp(
        toks,
        pos,
        &e,
    ))
}

/// A product of two atoms that nothing multiplicative continues.
pub open spec fn product_shape(toks: &Vec<Token>, pos: int) -> bool {
    &&& pos + 3 <= toks.len()
    &&& atom_token(&toks@[pos].kind)
    &&& toks@[pos + 1].kind matches TokenKind::Star
    &&& atom_token(&toks@[pos + 2].kind)
    &&& stops_mul(toks, pos + 3)
}

/// The tree of a product of two atoms.
pub open spec fn product_exp(toks: &Vec<Token>, pos: int, e: &Exp) -> bool {
    match e {
        Exp::Binary(l, op, rr, _) => op == BinaryOp::Mul && atom_exp(&toks@[pos].kind, l)
            && atom_exp(&toks@[pos + 2].kind, rr),
        _ => false,
    }
}

/// A product of two atoms parses to the product.
pub open spec fn product_parse(toks: &Vec<Token>, pos: int, r: Result<(Exp, usize), Error>) -> bool {
    product_shape(toks, pos) ==> (r matches Ok((e, p)) && p == pos + 3 && product_exp(
        toks,
        pos,
        &e,
    ))
}

/// The token shape `atom + atom`, with the expression ending after it.
pub open spec fn sum_pair_shape(toks: &Vec<Token>, pos: int) -> bool {
    &&& pos + 3 <= toks.len()
    &&& atom_token(&toks@[pos].kind)
    &&& toks@[pos + 1].kind matches TokenKind::Plus
    &&& atom_token(&toks@[pos + 2].kind)
    &&& stops_exp(toks, pos + 3)
}

/// The tree of `a + b` over atoms at `pos` and `pos + 2`.
pub open spec fn add_pair_exp(toks: &Vec<Token>, pos: int, e: &Exp) -> bool {
    match e {
        Exp::Binary(l, op, rr, _) => op == BinaryOp::Add && atom_exp(&toks@[pos].kind, l)
            && atom_exp(&toks@[pos + 2].kind, rr),
        _ => false,
    }
}

/// `a + b` parses to the sum of the two atoms.
pub open spec fn sum_pair_parse(toks: &Vec<Token>, pos: int, r: Result<(Exp, usize), Error>) -> bool {
    sum_pair_shape(toks, pos) ==> (r matches Ok((e, p)) && p == pos + 3 && add_pair_exp(
        toks,
        pos,
        &e,
    ))
}

/// The token shape `atom + atom * atom`, with the expression ending after
/// it.
pub open spec fn sum_product_shape(toks: &Vec<Token>, pos: int) -> bool {
    &&& pos + 5 <= toks.len()
    &&& atom_token(&toks@[pos].kind)
    &&& toks@[pos + 1].kind matches TokenKind::Plus
    &&& atom_token(&toks@[pos + 2].kind)
    &&& toks@[pos + 3].kind matches TokenKind::Star
    &&& atom_token(&toks@[pos + 4].kind)
    &&& stops_exp(toks, pos + 5)
}

/// The tree of `a + b * c`: the product binds tighter, so the sum's right
/// operand is the whole product.
pub open spec fn sum_product_exp(toks: &Vec<Token>, pos: int, e: &Exp) -> bool {
    match e {
        Exp::Binary(l, op, rr, _) => op == BinaryOp::Add && atom_exp(&toks@[pos].kind, l)
            && product_exp(toks, pos + 2, rr),
        _ => false,
    }
}

/// `a + b * c` parses as `a + (b * c)`: multiplicative binds tighter than
/// additive.
pub open spec fn sum_product_parse(
    toks: &Vec<Token>,
    pos: int,
    r: Result<(Exp, usize), Error>,
) -> bool {
    sum_product_shape(toks, pos) ==> (r matches Ok((e, p)) && p == pos + 5 && sum_product_exp(
        toks,
        pos,
        &e,
    ))
}

/// The token shape `atom - atom - atom`, with the expression ending after
/// it.
pub open spec fn double_sub_shape(toks: &Vec<Token>, pos: int) -> bool {
    &&& pos + 5 <= toks.len()
    &&& atom_token(&toks@[pos].kind)
    &&& toks@[pos + 1].kind matches TokenKind::Minus
    &&& atom_token(&toks@[pos + 2].kind)
    &&& toks@[pos + 3].kind matches TokenKind::Minus
    &&& atom_token(&toks@[pos + 4].kind)
    &&& stops_exp(toks, pos + 5)
}

/// The tree of `a - b - c`: subtraction is left-associative, so the left
/// operand of the outer difference is the inner difference.
pub open spec fn double_sub_exp(toks: &Vec<Token>, pos: int, e: &Exp) -> bool {
    match e {
        Exp::Binary(l, op, rr, _) => op == BinaryOp::Sub && atom_exp(&toks@[pos + 4].kind, rr)
            && sub_pair_exp(toks, pos, l),
        _ => false,
    }
}

/// `a - b - c` parses as `(a - b) - c`: binary operators are
/// left-associative.
pub open spec fn double_sub_parse(
    toks: &Vec<Token>,
    pos: int,
    r: Result<(Exp, usize), Error>,
) -> bool {
    double_sub_shape(toks, pos) ==> (r matches Ok((e, p)) && p == pos + 5 && double_sub_exp(
        toks,
        pos,
        &e,
    ))
}

/// The token shape `- atom + atom`, with the expression ending after it.
pub open spec fn neg_sum_shape(toks: &Vec<Token>, pos: int) -> bool {
    &&& pos + 4 <= toks.len()
    &&& toks@[pos].kind matches TokenKind::Minus
    &&& atom_token(&toks@[pos + 1].kind)
    &&& toks@[pos + 2].kind matches TokenKind::Plus
    &&& atom_token(&toks@[pos + 3].kind)
    &&& stops_exp(toks, pos + 4)
}

/// The tree of `-a + b`: the unary minus binds only to its operand.
pub open spec fn neg_sum_exp(toks: &Vec<Token>, pos: int, e: &Exp) -> bool {
    match e {
        Exp::Binary(l, op, rr, _) => op == BinaryOp::Add && neg_atom_exp(toks, pos, l) && atom_exp(
            &toks@[pos + 3].kind,
            rr,
        ),
        _ => false,
    }
}

/// `-a + b` parses as `(-a) + b`: a unary prefix binds tighter than any
/// binary operator.
pub open spec fn neg_sum_parse(toks: &Vec<Token>, pos: int, r: Result<(Exp, usize), Error>) -> bool {
    neg_sum_shape(toks, pos) ==> (r matches Ok((e, p)) && p == pos + 4 && neg_sum_exp(
        toks,
        pos,
        &e,
    ))
}

// ---------------------------------------------------------------------------
// Expressions
// ---------------------------------------------------------------------------
/// An expression: the equality level, the loosest-binding operators.
pub fn parse_exp(toks: &Vec<Token>, pos: usize) -> (r: Result<(Exp, usize), Error>)
    requires
        pos <= toks.len(),
    ensures
        parsed(pos as int, r, toks.len() as int),
        pos < toks.len() ==> lone_number_parse(toks, pos as int, r),
        sum_product_parse(toks, pos as int, r),
        double_sub_parse(toks, pos as int, r),
        neg_sum_parse(toks, pos as int, r),
        lone_atom_exp_parse(toks, pos as int, r),
        sum_pair_parse(toks, pos as int, r),
    decreases toks.len() - pos, 6int,
{
    let (first, p0) = parse_add(toks, pos)?;
    let mut lhs = first;
    let mut p = p0;
    loop
        invariant
            pos < p <= toks.len(),
            lone_number_state(toks, pos as int, &lhs, p as int),
            sum_product_shape(toks, pos as int) ==> (p == pos + 5 && sum_product_exp(
                toks,
                pos as int,
                &lhs,
            )),
            double_sub_shape(toks, pos as int) ==> (p == pos + 5 && double_sub_exp(
                toks,
                pos as int,
                &lhs,
            )),
            neg_sum_shape(toks, pos as int) ==> (p == pos + 4 && neg_sum_exp(
                toks,
                pos as int,
                &lhs,
            )),
            (pos < toks.len() && atom_token(&toks@[pos as int].kind) && stops_exp(toks, pos + 1))
                ==> (p == pos + 1 && atom_exp(&toks@[pos as int].kind, &lhs)),
            sum_pair_shape(toks, pos as int) ==> (p == pos + 3 && add_pair_exp(
                toks,
                pos as int,
                &lhs,
            )),
        decreases toks.len() - p,
    {
        let op: BinaryOp = if p < toks.len() && matches!(toks[p].kind, TokenKind::EqEq) {
            BinaryOp::Eq
        } else if p < toks.len() && matches!(toks[p].kind, TokenKind::Neq) {
            BinaryOp::Neq
        } else {
            return Ok((lhs, p));
        };
        let op_span = toks[p].span.dup();
        let (rhs, p2) = parse_add(toks, p + 1)?;
        lhs = Exp::Binary(Box::new(lhs), op, Box::new(rhs), op_span);
        p = p2;
    }
}

/// The additive level.
fn parse_add(toks: &Vec<Token>, pos: usize) -> (r: Result<(Exp, usize), Error>)
    requires
        pos <= toks.len(),
    ensures
        parsed(pos as int, r, toks.len() as int),
        pos < toks.len() ==> lone_number_parse(toks, pos as int, r),
        sum_product_parse(toks, pos as int, r),
        double_sub_parse(toks, pos as int, r),
        neg_sum_parse(toks, pos as int, r),
        lone_atom_exp_parse(toks, pos as int, r),
        sum_pair_parse(toks, pos as int, r),
    decreases toks.len() - pos, 5int,
{
    let (first, p0) = parse_mul(toks, pos)?;
    let mut lhs = first;
    let mut p = p0;
    loop
        invariant
            pos < p <= toks.len(),
            lone_number_state(toks, pos as int, &lhs, p as int),
            sum_product_shape(toks, pos as int) ==> ((p == pos + 1 && atom_exp(
                &toks@[pos as int].kind,
                &lhs,
            )) || (p == pos + 5 && sum_product_exp(toks, pos as int, &lhs))),
            double_sub_shape(toks, pos as int) ==> ((p == pos + 1 && atom_exp(
                &toks@[pos as int].kind,
                &lhs,
            )) || (p == pos + 3 && sub_pair_exp(toks, pos as int, &lhs)) || (p == pos + 5
                && double_sub_exp(toks, pos as int, &lhs))),
            neg_sum_shape(toks, pos as int) ==> ((p == pos + 2 && neg_atom_exp(
                toks,
                pos as int,
                &lhs,
            )) || (p == pos + 4 && neg_sum_exp(toks, pos as int, &lhs))),
            (pos < toks.len() && atom_token(&toks@[pos as int].kind) && stops_exp(toks, pos + 1))
                ==> (p == pos + 1 && atom_exp(&toks@[pos as int].kind, &lhs)),
            sum_pair_shape(toks, pos as int) ==> ((p == pos + 1 && atom_exp(
                &toks@[pos as int].kind,
                &lhs,
            )) || (p == pos + 3 && add_pair_exp(toks, pos as int, &lhs))),
        decreases toks.len() - p,
    {
        let op: BinaryOp = if p < toks.len() && matches!(toks[p].kind, TokenKind::Plus) {
            BinaryOp::Add
        } else if p < toks.len() && matches!(toks[p].kind, TokenKind::Minus) {
            BinaryOp::Sub
        } else {
            return Ok((lhs, p));
        };
        let op_span = toks[p].span.dup();
        let (rhs, p2) = parse_mul(toks, p + 1)?;
        lhs = Exp::Binary(Box::new(lhs), op, Box::new(rhs), op_span);
        p = p2;
    }
}

/// The multiplicative level.
fn parse_mul(toks: &Vec<Token>, pos: usize) -> (r: Result<(Exp, usize), Error>)
    requires
        pos <= toks.len(),
    ensures
        parsed(pos as int, r, toks.len() as int),
        pos < toks.len() ==> lone_number_parse(toks, pos as int, r),
        lone_atom_parse(toks, pos as int, r),
        neg_atom_parse(toks, pos as int, r),
        product_parse(toks, pos as int, r),
    decreases toks.len() - pos, 4int,
{
    let (first, p0) = parse_unary(toks, pos)?;
    let mut lhs = first;
    let mut p = p0;
    loop
        invariant
            pos < p <= toks.len(),
            lone_number_state(toks, pos as int, &lhs, p as int),
            (pos < toks.len() && atom_token(&toks@[pos as int].kind) && stops_mul(toks, pos + 1))
                ==> (p == pos + 1 && atom_exp(&toks@[pos as int].kind, &lhs)),
            neg_atom_shape(toks, pos as int) ==> (p == pos + 2 && neg_atom_exp(
                toks,
                pos as int,
                &lhs,
            )),
            product_shape(toks, pos as int) ==> ((p == pos + 1 && atom_exp(
                &toks@[pos as int].kind,
                &lhs,
            )) || (p == pos + 3 && product_exp(toks, pos as int, &lhs))),
        decreases toks.len() - p,
    {
        let op: BinaryOp = if p < toks.len() && matches!(toks[p].kind, TokenKind::Star) {
            BinaryOp::Mul
        } else if p < toks.len() && matches!(toks[p].kind, TokenKind::Slash) {
            BinaryOp::Div
        } else if p < toks.len() && matches!(toks[p].kind, TokenKind::Percent) {
            BinaryOp::Mod
        } else {
            return Ok((lhs, p));
        };
        let op_span = toks[p].span.dup();
        let (rhs, p2) = parse_unary(toks, p + 1)?;
        lhs = Exp::Binary(Box::new(lhs), op, Box::new(rhs), op_span);
        p = p2;
    }
}

/// The unary prefix level: `+` and `-` bind to their operand only.
fn parse_unary(toks: &Vec<Token>, pos: usize) -> (r: Result<(Exp, usize), Error>)
    requires
        pos <= toks.len(),
    ensures
        parsed(pos as int, r, toks.len() as int),
        pos < toks.len() ==> lone_number_parse(toks, pos as int, r),
        atom_primary_parse(toks, pos as int, r),
        neg_primary_parse(toks, pos as int, r),
    decreases toks.len() - pos, 3int,
{
    if pos < toks.len() && matches!(toks[pos].kind, TokenKind::Plus) {
        let op_span = toks[pos].span.dup();
        let (inner, p) = parse_unary(toks, pos + 1)?;
        Ok((Exp::Unary(UnaryOp::Positive, Box::new(inner), op_span), p))
    } else if pos < toks.len() && matches!(toks[pos].kind, TokenKind::Minus) {
        let op_span = toks[pos].span.dup();
        let (inner, p) = parse_unary(toks, pos + 1)?;
        Ok((Exp::Unary(UnaryOp::Negative, Box::new(inner), op_span), p))
    } else {
        parse_primary(toks, pos)
    }
}

/// A primary expression: a parenthesized sub-expression, a numeric
/// literal, an identifier lvalue, a function call, an address-of, or a
/// pointer dereference.
fn parse_primary(toks: &Vec<Token>, pos: usize) -> (r: Result<(Exp, usize), Error>)
    requires
        pos <= toks.len(),
    ensures
        parsed(pos as int, r, toks.len() as int),
        pos < toks.len() ==> lone_number_parse(toks, pos as int, r),
        atom_primary_parse(toks, pos as int, r),
    decreases toks.len() - pos, 2int,
{
    if pos >= toks.len() {
        return Err(err_at(toks, pos, "expected an expression"));
    }
    match &toks[pos].kind {
        TokenKind::LParen => {
            let (e, p) = parse_exp(toks, pos + 1)?;
            if p < toks.len() && matches!(toks[p].kind, TokenKind::RParen) {
                Ok((e, p + 1))
            } else {
                Err(err_at(toks, p, "expected a closing parenthesis"))
            }
        },
        TokenKind::Num(v) => {
            let num = Number { num: *v, span: toks[pos].span.dup() };
            Ok((Exp::Number(num), pos + 1))
        },
        TokenKind::Amp => {
            if pos + 1 < toks.len() {
                match &toks[pos + 1].kind {
                    TokenKind::Ident(id) => {
                        let lval = LVal {
                            ids: vec![id.clone()],
                            span: toks[pos + 1].span.dup(),
                            exp: None,
                        };
                        let span = range_span(toks, pos, pos + 2);
                        Ok((Exp::GetAddr(Box::new(GetAddr { lval, span })), pos + 2))
                    },
                    _ => Err(err_at(toks, pos + 1, "expected an identifier after `&`")),
                }
            } else {
                Err(err_at(toks, pos + 1, "expected an identifier after `&`"))
            }
        },
        TokenKind::Star => {
            let (d, p) = parse_deref(toks, pos)?;
            Ok((Exp::Deref(Box::new(d)), p))
        },
        TokenKind::Ident(id) => {
            if pos + 1 < toks.len() && matches!(toks[pos + 1].kind, TokenKind::LParen) {
                let mut args: Vec<Exp> = Vec::new();
                let mut p: usize = pos + 2;
                if p < toks.len() && matches!(toks[p].kind, TokenKind::RParen) {
                    let span = range_span(toks, pos, p + 1);
                    let call = crate::stmt::FuncCall { ids: vec![id.clone()], args, span };
                    return Ok((Exp::FuncCall(call), p + 1));
                }
                loop
                    invariant
                        pos + 2 <= p <= toks.len(),
                        toks@[pos as int].kind matches TokenKind::Ident(_),
                        toks@[pos as int + 1].kind matches TokenKind::LParen,
                    decreases toks.len() - p,
                {
                    let (arg, p2) = parse_values(toks, p)?;
                    args.push(arg);
                    if p2 < toks.len() && matches!(toks[p2].kind, TokenKind::Comma) {
                        p = p2 + 1;
                        if p >= toks.len() {
                            return Err(err_at(toks, p, "expected an argument"));
                        }
                    } else if p2 < toks.len() && matches!(toks[p2].kind, TokenKind::RParen) {
                        let span = range_span(toks, pos, p2 + 1);
                        let call = crate::stmt::FuncCall { ids: vec![id.clone()], args, span };
                        return Ok((Exp::FuncCall(call), p2 + 1));
                    } else {
                        return Err(err_at(toks, p2, "expected `,` or `)` in an argument list"));
                    }
                }
            } else {
                let lval = LVal { ids: vec![id.clone()], span: toks[pos].span.dup(), exp: None };
                Ok((Exp::LVal(Box::new(lval)), pos + 1))
            }
        },
        _ => Err(err_at(toks, pos, "expected an expression")),
    }
}

/// A pointer dereference: `*` then a bare identifier or a parenthesized
/// expression, optionally followed by a bracketed offset expression.
fn parse_deref(toks: &Vec<Token>, pos: usize) -> (r: Result<(Deref, usize), Error>)
    requires
        pos <= toks.len(),
    ensures
        parsed(pos as int, r, toks.len() as int),
    decreases toks.len() - pos, 1int,
{
    if !(pos < toks.len() && matches!(toks[pos].kind, TokenKind::Star)) {
        return Err(err_at(toks, pos, "expected `*`"));
    }
    if pos + 1 >= toks.len() {
        return Err(err_at(toks, pos + 1, "expected a dereference target"));
    }
    match &toks[pos + 1].kind {
        TokenKind::Ident(id) => {
            let lval = LVal { ids: vec![id.clone()], span: toks[pos + 1].span.dup(), exp: None };
            let p = pos + 2;
            if p < toks.len() && matches!(toks[p].kind, TokenKind::LBracket) {
                let (off, p2) = parse_exp(toks, p + 1)?;
                if p2 < toks.len() && matches!(toks[p2].kind, TokenKind::RBracket) {
                    let span = range_span(toks, pos, p2 + 1);
                    Ok((Deref::DerefPtr(lval, off, span), p2 + 1))
                } else {
                    Err(err_at(toks, p2, "expected a closing bracket"))
                }
            } else {
                let span = range_span(toks, pos, p);
                Ok((Deref::DerefId(lval, span), p))
            }
        },
        TokenKind::LParen => {
            let (e, p) = parse_exp(toks, pos + 2)?;
            if !(p < toks.len() && matches!(toks[p].kind, TokenKind::RParen)) {
                return Err(err_at(toks, p, "expected a closing parenthesis"));
            }
            let p = p + 1;
            if p < toks.len() && matches!(toks[p].kind, TokenKind::LBracket) {
                let (off, p2) = parse_exp(toks, p + 1)?;
                if p2 < toks.len() && matches!(toks[p2].kind, TokenKind::RBracket) {
                    let span = range_span(toks, pos, p2 + 1);
                    Ok((Deref::DerefPtrExp(e, off, span), p2 + 1))
                } else {
                    Err(err_at(toks, p2, "expected a closing bracket"))
                }
            } else {
                let span = range_span(toks, pos, p);
                Ok((Deref::DerefExp(e, span), p))
            }
        },
        _ => Err(err_at(toks, pos + 1, "expected a dereference target")),
    }
}

/// A value: an expression, a string literal, or an array literal.
fn parse_values(toks: &Vec<Token>, pos: usize) -> (r: Result<(Exp, usize), Error>)
    requires
        pos <= toks.len(),
    ensures
        parsed(pos as int, r, toks.len() as int),
        lone_atom_exp_parse(toks, pos as int, r),
        array_forms_parse(toks, pos as int, r),
    decreases toks.len() - pos, 8int,
{
    if pos >= toks.len() {
        return Err(err_at(toks, pos, "expected a value"));
    }
    match &toks[pos].kind {
        TokenKind::StrLit(s) => Ok((Exp::Str(s.clone(), toks[pos].span.dup()), pos + 1)),
        TokenKind::LBracket => parse_array(toks, pos),
        _ => parse_exp(toks, pos),
    }
}

/// An array literal: empty, a single element, a comma-separated list, or
/// a template `value ; count` where the count is a constant expression.
fn parse_array(toks: &Vec<Token>, pos: usize) -> (r: Result<(Exp, usize), Error>)
    requires
        pos <= toks.len(),
    ensures
        parsed(pos as int, r, toks.len() as int),
        array_forms_parse(toks, pos as int, r),
    decreases toks.len() - pos, 7int,
{
    if !(pos < toks.len() && matches!(toks[pos].kind, TokenKind::LBracket)) {
        return Err(err_at(toks, pos, "expected `[`"));
    }
    if pos + 1 < toks.len() && matches!(toks[pos + 1].kind, TokenKind::RBracket) {
        let span = range_span(toks, pos, pos + 2);
        return Ok((Exp::Array(Box::new(Array::List(Vec::new(), span))), pos + 2));
    }
    let (first, p) = parse_values(toks, pos + 1)?;
    if p < toks.len() && matches!(toks[p].kind, TokenKind::RBracket) {
        let span = range_span(toks, pos, p + 1);
        return Ok((Exp::Array(Box::new(Array::List(vec![first], span))), p + 1));
    }
    if p < toks.len() && matches!(toks[p].kind, TokenKind::Semi) {
        let (count, p2) = parse_exp(toks, p + 1)?;
        if p2 < toks.len() && matches!(toks[p2].kind, TokenKind::RBracket) {
            let span = range_span(toks, pos, p2 + 1);
            let template = Array::Template(first, ConstExp { exp: count }, span);
            return Ok((Exp::Array(Box::new(template)), p2 + 1));
        }
        return Err(err_at(toks, p2, "expected a closing bracket"));
    }
    if p < toks.len() && matches!(toks[p].kind, TokenKind::Comma) {
        let mut values: Vec<Exp> = vec![first];
        let mut p2: usize = p;
        loop
            invariant
                pos < p2 < toks.len(),
                array_pair_shape(toks, pos as int) ==> (p2 == pos + 2 && values@.len() == 1
                    && atom_exp(&toks@[pos as int + 1].kind, &values@[0])),
                !array_empty_shape(toks, pos as int),
                !array_single_shape(toks, pos as int),
                !array_template_shape(toks, pos as int),
            decreases toks.len() - p2,
        {
            let (v, pv) = parse_values(toks, p2 + 1)?;
            values.push(v);
            if pv < toks.len() && matches!(toks[pv].kind, TokenKind::Comma) {
                p2 = pv;
            } else if pv < toks.len() && matches!(toks[pv].kind, TokenKind::RBracket) {
                let span = range_span(toks, pos, pv + 1);
                return Ok((Exp::Array(Box::new(Array::List(values, span))), pv + 1));
            } else {
                return Err(err_at(toks, pv, "expected `,` or `]` in an array literal"));
            }
        }
    }
    Err(err_at(toks, p, "expected `,`, `;` or `]` in an array literal"))
}

// ---------------------------------------------------------------------------
// Types and attributes
// ---------------------------------------------------------------------------
/// The base kind `ty` was parsed from the type keyword `kind`: one of the
/// three built-in keywords, mapped to its own base kind.
pub open spec fn base_of_keyword(ty: VTypeEnum, kind: &TokenKind) -> bool {
    match kind {
        TokenKind::Ident(s) => {
            &&& s@ == "u64"@ ==> ty == VTypeEnum::U64
            &&& s@ == "i8"@ ==> ty == VTypeEnum::I8
            &&& s@ == "void"@ ==> ty == VTypeEnum::Void
        },
        _ => false,
    }
}

/// What parsing a type returns for a given leading keyword token: success
/// exactly on the three built-in keywords, and an `UnknownType` failure on
/// any other identifier there.
pub open spec fn vtype_keyword_outcome<T>(r: Result<(T, usize), Error>, kind: &TokenKind) -> bool {
    match kind {
        TokenKind::Ident(s) => {
            &&& (r is Ok <==> (s@ == "u64"@ || s@ == "i8"@ || s@ == "void"@))
            &&& (r is Err ==> r->Err_0.kind == ErrorKind::UnknownType)
        },
        _ => true,
    }
}

/// A type: one of the built-in base keywords, then any number of pointer
/// markers. A type keyword outside the built-in set is an `UnknownType`
/// failure.
pub fn parse_vtype(toks: &Vec<Token>, pos: usize) -> (r: Result<(VType, usize), Error>)
    requires
        pos <= toks.len(),
    ensures
        parsed(pos as int, r, toks.len() as int),
        r matches Ok((t, _)) ==> !(t.ty matches VTypeEnum::Others(_)) && base_of_keyword(
            t.ty,
            &toks@[pos as int].kind,
        ),
        pos < toks.len() ==> vtype_keyword_outcome(r, &toks@[pos as int].kind),
        r matches Ok((t, p)) ==> {
            &&& t.star == p - pos - 1
            &&& (forall|j: int| pos < j < p ==> ((#[trigger] toks@[j]).kind matches TokenKind::Star))
            &&& t.span.start == toks@[pos as int].span.start
            &&& t.span.end == toks@[p - 1].span.end
        },
{
    if pos >= toks.len() {
        return Err(err_at(toks, pos, "expected a type"));
    }
    let base: VTypeEnum = match &toks[pos].kind {
        TokenKind::Ident(s) => {
            if str_eq(s.as_str(), "u64") {
                VTypeEnum::U64
            } else if str_eq(s.as_str(), "i8") {
                VTypeEnum::I8
            } else if str_eq(s.as_str(), "void") {
                VTypeEnum::Void
            } else {
                return Err(
                    Error {
                        kind: ErrorKind::UnknownType,
                        span: Some(toks[pos].span.dup()),
                        related: None,
                        msg: String::from_str("unknown type"),
                    },
                );
            }
        },
        _ => {
            return Err(err_at(toks, pos, "expected a type"));
        },
    };
    proof {
        reveal_strlit("u64");
        reveal_strlit("i8");
        reveal_strlit("void");
        assert("u64"@.len() == 3);
        assert("i8"@.len() == 2);
        assert("void"@.len() == 4);
    }
    let mut p: usize = pos + 1;
    let mut star: usize = 0;
    while p < toks.len() && matches!(toks[p].kind, TokenKind::Star)
        invariant
            pos < p <= toks.len(),
            star == p - pos - 1,
            forall|j: int| pos < j < p ==> ((#[trigger] toks@[j]).kind matches TokenKind::Star),
            !(base matches VTypeEnum::Others(_)),
            base_of_keyword(base, &toks@[pos as int].kind),
            toks@[pos as int].kind matches TokenKind::Ident(s) && (s@ == "u64"@ || s@ == "i8"@
                || s@ == "void"@),
        decreases toks.len() - p,
    {
        star = star + 1;
        p = p + 1;
    }
    let span = range_span(toks, pos, p);
    Ok((VType { ty: base, star, span }, p))
}

/// The token shape `# [ name ]`: a single-attribute list.
pub open spec fn single_attr_shape(toks: &Vec<Token>, pos: int) -> bool {
    &&& pos + 4 <= toks.len()
    &&& toks@[pos].kind matches TokenKind::Hash
    &&& toks@[pos + 1].kind matches TokenKind::LBracket
    &&& toks@[pos + 2].kind matches TokenKind::Ident(_)
    &&& toks@[pos + 3].kind matches TokenKind::RBracket
}

/// A single-attribute list parses to exactly that attribute.
pub open spec fn single_attr_parse(
    toks: &Vec<Token>,
    pos: int,
    r: Result<(Attributes, usize), Error>,
) -> bool {
    single_attr_shape(toks, pos) ==> (r matches Ok((a, p)) && p == pos + 4 && a.attrs@.len() == 1
        && match toks@[pos + 2].kind {
        TokenKind::Ident(name) => a.attrs@[0] == name,
        _ => false,
    })
}

/// A bracketed attribute list: `#` `[` at least one identifier, comma
/// separated, `]`.
fn parse_attributes(toks: &Vec<Token>, pos: usize) -> (r: Result<(Attributes, usize), Error>)
    requires
        pos <= toks.len(),
    ensures
        parsed(pos as int, r, toks.len() as int),
        r matches Ok((a, _)) ==> a.attrs@.len() >= 1,
        single_attr_parse(toks, pos as int, r),
{
    if !(pos < toks.len() && matches!(toks[pos].kind, TokenKind::Hash)) {
        return Err(err_at(toks, pos, "expected `#`"));
    }
    if !(pos + 1 < toks.len() && matches!(toks[pos + 1].kind, TokenKind::LBracket)) {
        return Err(err_at(toks, pos + 1, "expected `[` after `#`"));
    }
    let mut attrs: Vec<String> = Vec::new();
    let mut p: usize = pos + 2;
    loop
        invariant
            pos < p <= toks.len(),
            single_attr_shape(toks, pos as int) ==> (p == pos + 2 && attrs@.len() == 0),
        decreases toks.len() - p,
    {
        if p >= toks.len() {
            return Err(err_at(toks, p, "expected an attribute name"));
        }
        match &toks[p].kind {
            TokenKind::Ident(s) => {
                attrs.push(s.clone());
            },
            _ => {
                return Err(err_at(toks, p, "expected an attribute name"));
            },
        }
        if p + 1 < toks.len() && matches!(toks[p + 1].kind, TokenKind::Comma) {
            p = p + 2;
        } else if p + 1 < toks.len() && matches!(toks[p + 1].kind, TokenKind::RBracket) {
            let span = range_span(toks, pos, p + 2);
            return Ok((Attributes { attrs, span }, p + 2));
        } else {
            return Err(err_at(toks, p + 1, "expected `,` or `]` in an attribute list"));
        }
    }
}

// ---------------------------------------------------------------------------
// Statements and declarations
// ---------------------------------------------------------------------------
/// The token shape `return atom + atom ;`.
pub open spec fn return_sum_shape(toks: &Vec<Token>, pos: int) -> bool {
    &&& pos + 5 <= toks.len()
    &&& keyword_at(toks, pos, "return")
    &&& atom_token(&toks@[pos + 1].kind)
    &&& toks@[pos + 2].kind matches TokenKind::Plus
    &&& atom_token(&toks@[pos + 3].kind)
    &&& toks@[pos + 4].kind matches TokenKind::Semi
}

/// A `return` of the sum of two atoms parses to exactly that.
pub open spec fn return_sum_parse(
    toks: &Vec<Token>,
    pos: int,
    r: Result<(Return, usize), Error>,
) -> bool {
    return_sum_shape(toks, pos) ==> (r matches Ok((ret, p)) && p == pos + 5 && add_pair_exp(
        toks,
        pos + 1,
        &ret.exp,
    ))
}

/// A `return` statement: `return` expression `;`.
fn parse_return(toks: &Vec<Token>, pos: usize) -> (r: Result<(Return, usize), Error>)
    requires
        pos <= toks.len(),
    ensures
        parsed(pos as int, r, toks.len() as int),
        return_sum_parse(toks, pos as int, r),
{
    if !is_kw(toks, pos, "return") {
        return Err(err_at(toks, pos, "expected `return`"));
    }
    let (e, p) = parse_exp(toks, pos + 1)?;
    if p < toks.len() && matches!(toks[p].kind, TokenKind::Semi) {
        let span = range_span(toks, pos, p + 1);
        Ok((Return { exp: e, span }, p + 1))
    } else {
        Err(err_at(toks, p, "expected `;` after a return statement"))
    }
}

/// A loop terminator: exactly `break;` or `continue;`; the keyword with
/// anything but a semicolon after it is an `UnknownTerminator` failure.
fn parse_terminator(toks: &Vec<Token>, pos: usize) -> (r: Result<(Terminator, usize), Error>)
    requires
        pos <= toks.len(),
    ensures
        parsed(pos as int, r, toks.len() as int),
{
    let is_break = is_kw(toks, pos, "break");
    let is_continue = is_kw(toks, pos, "continue");
    if !is_break && !is_continue {
        return Err(err_at(toks, pos, "expected a terminator"));
    }
    if pos + 1 < toks.len() && matches!(toks[pos + 1].kind, TokenKind::Semi) {
        let span = range_span(toks, pos, pos + 2);
        if is_break {
            Ok((Terminator::Break(span), pos + 2))
        } else {
            Ok((Terminator::Continue(span), pos + 2))
        }
    } else {
        Err(
            Error {
                kind: ErrorKind::UnknownTerminator,
                span: Some(toks[pos].span.dup()),
                related: None,
                msg: String::from_str("a terminator is `break;` or `continue;`"),
            },
        )
    }
}

/// An inline-assembly statement: `assembly` `(` text, then zero or more
/// `, name : expression` input constraints, `)` `;`.
fn parse_inline_asm(toks: &Vec<Token>, pos: usize) -> (r: Result<(InlineAsm, usize), Error>)
    requires
        pos <= toks.len(),
    ensures
        parsed(pos as int, r, toks.len() as int),
{
    if !is_kw(toks, pos, "assembly") {
        return Err(err_at(toks, pos, "expected `assembly`"));
    }
    if !(pos + 1 < toks.len() && matches!(toks[pos + 1].kind, TokenKind::LParen)) {
        return Err(err_at(toks, pos + 1, "expected `(` after `assembly`"));
    }
    if pos + 2 >= toks.len() {
        return Err(err_at(toks, pos + 2, "expected assembly text"));
    }
    let code: String = match &toks[pos + 2].kind {
        TokenKind::StrLit(s) => s.clone(),
        _ => {
            return Err(err_at(toks, pos + 2, "expected assembly text"));
        },
    };
    let mut constraints: Vec<AsmConstraint> = Vec::new();
    let mut p: usize = pos + 3;
    loop
        invariant
            pos < p <= toks.len(),
        decreases toks.len() - p,
    {
        if p < toks.len() && matches!(toks[p].kind, TokenKind::RParen) {
            if !(p + 1 < toks.len() && matches!(toks[p + 1].kind, TokenKind::Semi)) {
                return Err(err_at(toks, p + 1, "expected `;` after an assembly statement"));
            }
            let span = range_span(toks, pos, p + 2);
            return Ok((InlineAsm { code, constraints, span }, p + 2));
        }
        if !(p < toks.len() && matches!(toks[p].kind, TokenKind::Comma)) {
            return Err(err_at(toks, p, "expected `,` or `)` in an assembly statement"));
        }
        if p + 1 >= toks.len() {
            return Err(err_at(toks, p + 1, "expected a constraint name"));
        }
        let id: String = match &toks[p + 1].kind {
            TokenKind::Ident(s) => s.clone(),
            _ => {
                return Err(err_at(toks, p + 1, "expected a constraint name"));
            },
        };
        if !(p + 2 < toks.len() && matches!(toks[p + 2].kind, TokenKind::Colon)) {
            return Err(err_at(toks, p + 2, "expected `:` in a constraint"));
        }
        let (e, p2) = parse_exp(toks, p + 3)?;
        let span = range_span(toks, p + 1, p2);
        constraints.push(AsmConstraint::In(id, e, span));
        p = p2;
    }
}

/// A variable declaration: `var` identifier `:` type `=` initializer `;`.
fn parse_var_decl(toks: &Vec<Token>, pos: usize) -> (r: Result<(VarDecl, usize), Error>)
    requires
        pos <= toks.len(),
    ensures
        parsed(pos as int, r, toks.len() as int),
{
    if !is_kw(toks, pos, "var") {
        return Err(err_at(toks, pos, "expected `var`"));
    }
    if pos + 1 >= toks.len() {
        return Err(err_at(toks, pos + 1, "expected a variable name"));
    }
    let id: String = match &toks[pos + 1].kind {
        TokenKind::Ident(s) => s.clone(),
        _ => {
            return Err(err_at(toks, pos + 1, "expected a variable name"));
        },
    };
    if !(pos + 2 < toks.len() && matches!(toks[pos + 2].kind, TokenKind::Colon)) {
        return Err(err_at(toks, pos + 2, "expected `:` in a variable declaration"));
    }
    let (ty, p) = parse_vtype(toks, pos + 3)?;
    if !(p < toks.len() && matches!(toks[p].kind, TokenKind::Assign)) {
        return Err(err_at(toks, p, "expected `=` in a variable declaration"));
    }
    let (e, p2) = parse_values(toks, p + 1)?;
    if !(p2 < toks.len() && matches!(toks[p2].kind, TokenKind::Semi)) {
        return Err(err_at(toks, p2, "expected `;` after a variable declaration"));
    }
    let span = range_span(toks, pos, p2 + 1);
    Ok((VarDecl { id, ty, init: InitVal { exp: e }, span }, p2 + 1))
}

/// An `if` statement: `if` `(` condition `)` block, optionally `else`
/// block.
fn parse_if(toks: &Vec<Token>, pos: usize) -> (r: Result<(If, usize), Error>)
    requires
        pos <= toks.len(),
    ensures
        parsed(pos as int, r, toks.len() as int),
    decreases toks.len() - pos, 11int,
{
    if !is_kw(toks, pos, "if") {
        return Err(err_at(toks, pos, "expected `if`"));
    }
    if !(pos + 1 < toks.len() && matches!(toks[pos + 1].kind, TokenKind::LParen)) {
        return Err(err_at(toks, pos + 1, "expected `(` after `if`"));
    }
    let (cond, p) = parse_exp(toks, pos + 2)?;
    if !(p < toks.len() && matches!(toks[p].kind, TokenKind::RParen)) {
        return Err(err_at(toks, p, "expected `)` after a condition"));
    }
    let (then, p2) = parse_block(toks, p + 1)?;
    if is_kw(toks, p2, "else") {
        let (else_then, p3) = parse_block(toks, p2 + 1)?;
        let span = range_span(toks, pos, p3);
        Ok((If { cond, body: then, else_body: Some(else_then), span }, p3))
    } else {
        let span = range_span(toks, pos, p2);
        Ok((If { cond, body: then, else_body: None, span }, p2))
    }
}

/// A `while` loop: `while` `(` condition `)` block.
fn parse_while(toks: &Vec<Token>, pos: usize) -> (r: Result<(While, usize), Error>)
    requires
        pos <= toks.len(),
    ensures
        parsed(pos as int, r, toks.len() as int),
    decreases toks.len() - pos, 11int,
{
    if !is_kw(toks, pos, "while") {
        return Err(err_at(toks, pos, "expected `while`"));
    }
    if !(pos + 1 < toks.len() && matches!(toks[pos + 1].kind, TokenKind::LParen)) {
        return Err(err_at(toks, pos + 1, "expected `(` after `while`"));
    }
    let (cond, p) = parse_exp(toks, pos + 2)?;
    if !(p < toks.len() && matches!(toks[p].kind, TokenKind::RParen)) {
        return Err(err_at(toks, p, "expected `)` after a condition"));
    }
    let (then, p2) = parse_block(toks, p + 1)?;
    let span = range_span(toks, pos, p2);
    Ok((While { cond, body: then, span }, p2))
}

/// A `for` loop: `for` identifier `in` start `..` end `step` step block.
fn parse_for(toks: &Vec<Token>, pos: usize) -> (r: Result<(For, usize), Error>)
    requires
        pos <= toks.len(),
    ensures
        parsed(pos as int, r, toks.len() as int),
    decreases toks.len() - pos, 11int,
{
    if !is_kw(toks, pos, "for") {
        return Err(err_at(toks, pos, "expected `for`"));
    }
    if pos + 1 >= toks.len() {
        return Err(err_at(toks, pos + 1, "expected a loop variable"));
    }
    let var: String = match &toks[pos + 1].kind {
        TokenKind::Ident(s) => s.clone(),
        _ => {
            return Err(err_at(toks, pos + 1, "expected a loop variable"));
        },
    };
    if !is_kw(toks, pos + 2, "in") {
        return Err(err_at(toks, pos + 2, "expected `in` in a for loop"));
    }
    let (start, p) = parse_exp(toks, pos + 3)?;
    if !(p < toks.len() && matches!(toks[p].kind, TokenKind::DotDot)) {
        return Err(err_at(toks, p, "expected `..` in a for loop"));
    }
    let (end, p2) = parse_exp(toks, p + 1)?;
    if !is_kw(toks, p2, "step") {
        return Err(err_at(toks, p2, "expected `step` in a for loop"));
    }
    let (step, p3) = parse_exp(toks, p2 + 1)?;
    let (then, p4) = parse_block(toks, p3)?;
    let span = range_span(toks, pos, p4);
    Ok((For { var, start, end, step, body: then, span }, p4))
}

/// A statement that is a `return` of a sum of two atoms parses to exactly
/// that.
pub open spec fn stmt_return_sum_parse(
    toks: &Vec<Token>,
    pos: int,
    r: Result<(Stmt, usize), Error>,
) -> bool {
    return_sum_shape(toks, pos) ==> (r matches Ok((st, p)) && p == pos + 5 && match st {
        Stmt::Return(ret) => add_pair_exp(toks, pos + 1, &ret.exp),
        _ => false,
    })
}

/// A statement, dispatched on its first token.
fn parse_stmt(toks: &Vec<Token>, pos: usize) -> (r: Result<(Stmt, usize), Error>)
    requires
        pos <= toks.len(),
    ensures
        parsed(pos as int, r, toks.len() as int),
        stmt_return_sum_parse(toks, pos as int, r),
    decreases toks.len() - pos, 14int,
{
    if pos >= toks.len() {
        return Err(err_at(toks, pos, "expected a statement"));
    }
    match &toks[pos].kind {
        TokenKind::LBrace => {
            let (b, p) = parse_block(toks, pos)?;
            Ok((Stmt::Block(b), p))
        },
        TokenKind::Star => {
            let (d, p) = parse_deref(toks, pos)?;
            if !(p < toks.len() && matches!(toks[p].kind, TokenKind::Assign)) {
                return Err(err_at(toks, p, "expected `=` in an assignment"));
            }
            let (e, p2) = parse_exp(toks, p + 1)?;
            if !(p2 < toks.len() && matches!(toks[p2].kind, TokenKind::Semi)) {
                return Err(err_at(toks, p2, "expected `;` after an assignment"));
            }
            let span = range_span(toks, pos, p2 + 1);
            Ok((Stmt::Assign(Assign::WritePtr(d, e, span)), p2 + 1))
        },
        TokenKind::Ident(id) => {
            if str_eq(id.as_str(), "return") {
                let (ret, p) = parse_return(toks, pos)?;
                Ok((Stmt::Return(ret), p))
            } else if str_eq(id.as_str(), "if") {
                let (i, p) = parse_if(toks, pos)?;
                Ok((Stmt::If(i), p))
            } else if str_eq(id.as_str(), "while") {
                let (w, p) = parse_while(toks, pos)?;
                Ok((Stmt::While(w), p))
            } else if str_eq(id.as_str(), "for") {
                let (f, p) = parse_for(toks, pos)?;
                Ok((Stmt::For(f), p))
            } else if str_eq(id.as_str(), "assembly") {
                let (a, p) = parse_inline_asm(toks, pos)?;
                Ok((Stmt::InlineAsm(a), p))
            } else if str_eq(id.as_str(), "break") || str_eq(id.as_str(), "continue") {
                let (t, p) = parse_terminator(toks, pos)?;
                Ok((Stmt::Terminator(t), p))
            } else if pos + 1 < toks.len() && matches!(toks[pos + 1].kind, TokenKind::Assign) {
                let lval = LVal { ids: vec![id.clone()], span: toks[pos].span.dup(), exp: None };
                let (e, p) = parse_exp(toks, pos + 2)?;
                if !(p < toks.len() && matches!(toks[p].kind, TokenKind::Semi)) {
                    return Err(err_at(toks, p, "expected `;` after an assignment"));
                }
                let span = range_span(toks, pos, p + 1);
                Ok((Stmt::Assign(Assign::WriteVar(lval, e, span)), p + 1))
            } else {
                let (e, p) = parse_exp(toks, pos)?;
                if !(p < toks.len() && matches!(toks[p].kind, TokenKind::Semi)) {
                    return Err(err_at(toks, p, "expected `;` after an expression"));
                }
                Ok((Stmt::Exp(Some(e)), p + 1))
            }
        },
        _ => {
            let (e, p) = parse_exp(toks, pos)?;
            if !(p < toks.len() && matches!(toks[p].kind, TokenKind::Semi)) {
                return Err(err_at(toks, p, "expected `;` after an expression"));
            }
            Ok((Stmt::Exp(Some(e)), p + 1))
        },
    }
}

/// The token shape `{ return atom + atom ; }`: a body of exactly one
/// return statement.
pub open spec fn block_return_shape(toks: &Vec<Token>, pos: int) -> bool {
    &&& pos + 7 <= toks.len()
    &&& toks@[pos].kind matches TokenKind::LBrace
    &&& return_sum_shape(toks, pos + 1)
    &&& toks@[pos + 6].kind matches TokenKind::RBrace
}

/// A block of exactly one `return` of a sum parses to exactly that: one
/// item, the return statement, its expression the sum of the two atoms.
pub open spec fn block_return_parse(
    toks: &Vec<Token>,
    pos: int,
    r: Result<(Block, usize), Error>,
) -> bool {
    block_return_shape(toks, pos) ==> (r matches Ok((b, p)) && p == pos + 7 && b.items@.len() == 1
        && match b.items@[0] {
        BlockItem::Stmt(st) => match st {
            Stmt::Return(ret) => add_pair_exp(toks, pos + 2, &ret.exp),
            _ => false,
        },
        _ => false,
    })
}

/// A block: `{` then declarations and statements in order, then `}`.
fn parse_block(toks: &Vec<Token>, pos: usize) -> (r: Result<(Block, usize), Error>)
    requires
        pos <= toks.len(),
    ensures
        parsed(pos as int, r, toks.len() as int),
        block_return_parse(toks, pos as int, r),
    decreases toks.len() - pos, 13int,
{
    if !(pos < toks.len() && matches!(toks[pos].kind, TokenKind::LBrace)) {
        return Err(err_at(toks, pos, "expected `{`"));
    }
    let mut items: Vec<BlockItem> = Vec::new();
    let mut p: usize = pos + 1;
    loop
        invariant
            pos < p <= toks.len(),
            block_return_shape(toks, pos as int) ==> ((p == pos + 1 && items@.len() == 0) || (p
                == pos + 6 && items@.len() == 1 && match items@[0] {
                BlockItem::Stmt(st) => match st {
                    Stmt::Return(ret) => add_pair_exp(toks, pos as int + 2, &ret.exp),
                    _ => false,
                },
                _ => false,
            })),
        decreases toks.len() - p,
    {
        proof {
            reveal_strlit("return");
            reveal_strlit("const");
            reveal_strlit("var");
            assert("return"@.len() == 6);
            assert("const"@.len() == 5);
            assert("var"@.len() == 3);
        }
        if p < toks.len() && matches!(toks[p].kind, TokenKind::RBrace) {
            let span = range_span(toks, pos, p + 1);
            return Ok((Block { items, span }, p + 1));
        }
        if p >= toks.len() {
            return Err(err_at(toks, p, "expected `}`"));
        }
        if is_kw(toks, p, "const") || matches!(toks[p].kind, TokenKind::Hash) {
            let (d, p2) = parse_const_decl(toks, p)?;
            items.push(BlockItem::Decl(Decl::Const(d)));
            p = p2;
        } else if is_kw(toks, p, "var") {
            let (d, p2) = parse_var_decl(toks, p)?;
            items.push(BlockItem::Decl(Decl::Var(d)));
            p = p2;
        } else {
            let (s, p2) = parse_stmt(toks, p)?;
            items.push(BlockItem::Stmt(s));
            p = p2;
        }
    }
}

/// The token shape `fn ( arg x : u64 , arg y : u64 ) -> u64` followed by
/// a body of exactly one `return` of a sum of two atoms: a two-port
/// machine.
pub open spec fn machine_fn_shape(toks: &Vec<Token>, pos: int) -> bool {
    &&& pos + 21 <= toks.len()
    &&& keyword_at(toks, pos, "fn")
    &&& toks@[pos + 1].kind matches TokenKind::LParen
    &&& keyword_at(toks, pos + 2, "arg")
    &&& toks@[pos + 3].kind matches TokenKind::Ident(_)
    &&& toks@[pos + 4].kind matches TokenKind::Colon
    &&& keyword_at(toks, pos + 5, "u64")
    &&& toks@[pos + 6].kind matches TokenKind::Comma
    &&& keyword_at(toks, pos + 7, "arg")
    &&& toks@[pos + 8].kind matches TokenKind::Ident(_)
    &&& toks@[pos + 9].kind matches TokenKind::Colon
    &&& keyword_at(toks, pos + 10, "u64")
    &&& toks@[pos + 11].kind matches TokenKind::RParen
    &&& toks@[pos + 12].kind matches TokenKind::Arrow
    &&& keyword_at(toks, pos + 13, "u64")
    &&& block_return_shape(toks, pos + 14)
}

/// One parameter of the machine shape: the declared name, 64 bits wide,
/// pointer depth zero.
pub open spec fn machine_param(toks: &Vec<Token>, name_pos: int, p: &Param) -> bool {
    &&& match toks@[name_pos].kind {
        TokenKind::Ident(name) => p.id == name,
        _ => false,
    }
    &&& p.ty.ty == VTypeEnum::U64
    &&& p.ty.star == 0
}

/// The tree the machine shape parses to: the two declared input ports in
/// order, a 64-bit return type, and a body of exactly one `return` of the
/// sum.
pub open spec fn machine_fn_tree(toks: &Vec<Token>, pos: int, f: &FuncDef) -> bool {
    &&& f.params@.len() == 2
    &&& machine_param(toks, pos + 3, &f.params@[0])
    &&& machine_param(toks, pos + 8, &f.params@[1])
    &&& f.func_type.ty == VTypeEnum::U64
    &&& f.func_type.star == 0
    &&& f.block.items@.len() == 1
    &&& match f.block.items@[0] {
        BlockItem::Stmt(st) => match st {
            Stmt::Return(ret) => add_pair_exp(toks, pos + 16, &ret.exp),
            _ => false,
        },
        _ => false,
    }
}

/// The machine shape parses to exactly the two declared input ports, a
/// 64-bit return type, and the single-return body.
pub open spec fn machine_fn_parse(
    toks: &Vec<Token>,
    pos: int,
    r: Result<(FuncDef, usize), Error>,
) -> bool {
    machine_fn_shape(toks, pos) ==> (r matches Ok((f, p)) && p == pos + 21 && machine_fn_tree(
        toks,
        pos,
        &f,
    ))
}

/// A function literal: `fn` `(` parameters `)` `->` return type, then the
/// body block. Each parameter is `arg` name `:` type.
fn parse_func_def(toks: &Vec<Token>, pos: usize) -> (r: Result<(FuncDef, usize), Error>)
    requires
        pos <= toks.len(),
    ensures
        parsed(pos as int, r, toks.len() as int),
        machine_fn_parse(toks, pos as int, r),
    decreases toks.len() - pos, 15int,
{
    if !is_kw(toks, pos, "fn") {
        return Err(err_at(toks, pos, "expected `fn`"));
    }
    if !(pos + 1 < toks.len() && matches!(toks[pos + 1].kind, TokenKind::LParen)) {
        return Err(err_at(toks, pos + 1, "expected `(` after `fn`"));
    }
    let mut params: Vec<Param> = Vec::new();
    let mut p: usize = pos + 2;
    if p < toks.len() && matches!(toks[p].kind, TokenKind::RParen) {
        p = p + 1;
    } else {
        loop
            invariant_except_break
                machine_fn_shape(toks, pos as int) ==> ((p == pos + 2 && params@.len() == 0) || (p
                    == pos + 7 && params@.len() == 1 && machine_param(
                    toks,
                    pos as int + 3,
                    &params@[0],
                ))),
            invariant
                pos < p <= toks.len(),
            ensures
                machine_fn_shape(toks, pos as int) ==> (p == pos + 12 && params@.len() == 2
                    && machine_param(toks, pos as int + 3, &params@[0]) && machine_param(
                    toks,
                    pos as int + 8,
                    &params@[1],
                )),
            decreases toks.len() - p,
        {
            if !is_kw(toks, p, "arg") {
                return Err(err_at(toks, p, "expected `arg` to begin a parameter"));
            }
            if p + 1 >= toks.len() {
                return Err(err_at(toks, p + 1, "expected a parameter name"));
            }
            let id: String = match &toks[p + 1].kind {
                TokenKind::Ident(s) => s.clone(),
                _ => {
                    return Err(err_at(toks, p + 1, "expected a parameter name"));
                },
            };
            if !(p + 2 < toks.len() && matches!(toks[p + 2].kind, TokenKind::Colon)) {
                return Err(err_at(toks, p + 2, "expected `:` in a parameter"));
            }
            let (ty, p2) = parse_vtype(toks, p + 3)?;
            let span = range_span(toks, p, p2);
            params.push(Param { ty, id, span });
            if p2 < toks.len() && matches!(toks[p2].kind, TokenKind::Comma) {
                p = p2 + 1;
            } else if p2 < toks.len() && matches!(toks[p2].kind, TokenKind::RParen) {
                p = p2 + 1;
                break ;
            } else {
                return Err(err_at(toks, p2, "expected `,` or `)` in a parameter list"));
            }
        }
    }
    if !(p < toks.len() && matches!(toks[p].kind, TokenKind::Arrow)) {
        return Err(err_at(toks, p, "expected `->` before the return type"));
    }
    let (func_type, p3) = parse_vtype(toks, p + 1)?;
    let (block, p4) = parse_block(toks, p3)?;
    let span = range_span(toks, pos, p4);
    Ok((FuncDef { func_type, block, params, span }, p4))
}

/// The token shape of the simplest constant declaration: `const`, a
/// name, `=`, a numeric literal, `;`, with no attribute list.
pub open spec fn plain_const_tokens(toks: &Vec<Token>, pos: int) -> bool {
    &&& pos + 5 <= toks.len()
    &&& match toks@[pos].kind {
        TokenKind::Ident(s) => s@ == "const"@,
        _ => false,
    }
    &&& toks@[pos + 1].kind matches TokenKind::Ident(_)
    &&& toks@[pos + 2].kind matches TokenKind::Assign
    &&& toks@[pos + 3].kind matches TokenKind::Num(_)
    &&& toks@[pos + 4].kind matches TokenKind::Semi
}

/// Success is owed on the simplest constant declarations, and the tree is
/// fixed: the declared name, the literal as its constant-expression
/// initializer, no attributes, and a span from `const` to the semicolon.
pub open spec fn plain_const_parse(
    toks: &Vec<Token>,
    pos: int,
    r: Result<(ConstDecl, usize), Error>,
) -> bool {
    plain_const_tokens(toks, pos) ==> (r matches Ok((d, p)) && {
        &&& p == pos + 5
        &&& d.attr is None
        &&& match toks@[pos + 1].kind {
            TokenKind::Ident(name) => d.id == name,
            _ => false,
        }
        &&& match toks@[pos + 3].kind {
            TokenKind::Num(v) => match d.init {
                ConstInitVal::Exp(ce) => ce.exp matches Exp::Number(n) && n.num == v,
                _ => false,
            },
            _ => false,
        }
        &&& d.span.start == toks@[pos].span.start
        &&& d.span.end == toks@[pos + 4].span.end
    })
}

/// The token shape of a whole attributed machine declaration:
/// `# [ name ] const Name = fn ( arg x : u64 , arg y : u64 ) -> u64
/// { return a + b ; } ;`.
pub open spec fn machine_decl_shape(toks: &Vec<Token>, pos: int) -> bool {
    &&& pos + 29 <= toks.len()
    &&& single_attr_shape(toks, pos)
    &&& keyword_at(toks, pos + 4, "const")
    &&& toks@[pos + 5].kind matches TokenKind::Ident(_)
    &&& toks@[pos + 6].kind matches TokenKind::Assign
    &&& machine_fn_shape(toks, pos + 7)
    &&& toks@[pos + 28].kind matches TokenKind::Semi
}

/// An attributed machine declaration parses to exactly its tree: the one
/// attribute, the declared name, and the function with its two ports and
/// single-return body.
pub open spec fn machine_decl_parse(
    toks: &Vec<Token>,
    pos: int,
    r: Result<(ConstDecl, usize), Error>,
) -> bool {
    machine_decl_shape(toks, pos) ==> (r matches Ok((d, p)) && p == pos + 29 && {
        &&& match d.attr {
            Some(a) => a.attrs@.len() == 1 && match toks@[pos + 2].kind {
                TokenKind::Ident(name) => a.attrs@[0] == name,
                _ => false,
            },
            None => false,
        }
        &&& match toks@[pos + 5].kind {
            TokenKind::Ident(name) => d.id == name,
            _ => false,
        }
        &&& match d.init {
            ConstInitVal::Function(f) => machine_fn_tree(toks, pos + 7, &f),
            _ => false,
        }
    })
}

/// A constant declaration: an optional attribute list, `const`, the
/// constant's name, `=`, then a function literal or a constant
/// expression, and `;`.
pub fn parse_const_decl(toks: &Vec<Token>, pos: usize) -> (r: Result<(ConstDecl, usize), Error>)
    requires
        pos <= toks.len(),
    ensures
        parsed(pos as int, r, toks.len() as int),
        plain_const_parse(toks, pos as int, r),
        machine_decl_parse(toks, pos as int, r),
    decreases toks.len() - pos, 16int,
{
    let (attr, p0): (Option<Attributes>, usize) = if pos < toks.len() && matches!(
        toks[pos].kind,
        TokenKind::Hash,
    ) {
        let (a, p) = parse_attributes(toks, pos)?;
        (Some(a), p)
    } else {
        (None, pos)
    };
    if !is_kw(toks, p0, "const") {
        return Err(err_at(toks, p0, "expected `const`"));
    }
    if p0 + 1 >= toks.len() {
        return Err(err_at(toks, p0 + 1, "expected a constant name"));
    }
    let id: String = match &toks[p0 + 1].kind {
        TokenKind::Ident(s) => s.clone(),
        _ => {
            return Err(err_at(toks, p0 + 1, "expected a constant name"));
        },
    };
    if !(p0 + 2 < toks.len() && matches!(toks[p0 + 2].kind, TokenKind::Assign)) {
        return Err(err_at(toks, p0 + 2, "expected `=` in a constant declaration"));
    }
    let (init, p1): (ConstInitVal, usize) = if is_kw(toks, p0 + 3, "fn") {
        let (f, p) = parse_func_def(toks, p0 + 3)?;
        (ConstInitVal::Function(f), p)
    } else {
        let (e, p) = parse_exp(toks, p0 + 3)?;
        (ConstInitVal::Exp(ConstExp { exp: e }), p)
    };
    if !(p1 < toks.len() && matches!(toks[p1].kind, TokenKind::Semi)) {
        return Err(err_at(toks, p1, "expected `;` after a constant declaration"));
    }
    let span = range_span(toks, pos, p1 + 1);
    Ok((ConstDecl { attr, id, init, span }, p1 + 1))
}

// ---------------------------------------------------------------------------
// The entry point
// ---------------------------------------------------------------------------
/// Parses a whole source text into a compilation unit: a sequence of
/// top-level constant declarations. Any grammar rejection, unknown type
/// keyword, or malformed terminator is returned as a structured error and
/// no tree is produced. What the grammar accepts is defined by this
/// parser itself; the contracts pin the error taxonomy and the shape of
/// the tree, and the precedence scheme is fixed by the level structure of
/// `parse_exp`.
pub fn parse(code: String, file: String) -> (r: Result<CompUnit, Error>)
    ensures
        r is Err ==> parse_error_kind(r->Err_0.kind),
        r matches Ok(u) ==> forall|i: int|
            0 <= i < u.global_items@.len() ==> (#[trigger] u.global_items@[i]) matches
                GlobalItem::ConstDecl(_),
        code@.len() == 0 ==> (r matches Ok(u) && u.global_items@.len() == 0),
{
    let lines = split_lines(code.as_str());
    let toks = match lex(code.as_str(), file.as_str(), &lines) {
        Ok(t) => t,
        Err(e) => {
            return Err(e);
        },
    };
    let mut items: Vec<GlobalItem> = Vec::new();
    let mut p: usize = 0;
    while p < toks.len()
        invariant
            p <= toks.len(),
            forall|i: int|
                0 <= i < items@.len() ==> (#[trigger] items@[i]) matches GlobalItem::ConstDecl(_),
            toks.len() == 0 ==> items@.len() == 0,
            code@.len() == 0 ==> toks.len() == 0,
        decreases toks.len() - p,
    {
        let (d, p2) = parse_const_decl(&toks, p)?;
        items.push(GlobalItem::ConstDecl(d));
        p = p2;
    }
    let span: Span = if toks.len() > 0 {
        range_span(&toks, 0, toks.len())
    } else {
        Span::new((1, 1), (1, 1), line_text(&lines, 1), file.clone())
    };
    Ok(CompUnit { global_items: items, span })
}

} // verus!
