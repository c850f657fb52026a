//! The prefix-expression grammar.  Parsing never fails while a character
//! remains to classify: unrecognized text becomes an `Error` leaf, and a
//! missing operand of a binary operator becomes a `MissingOperand` leaf.
//! Every function mirrors a ghost parser over `Seq<char>` exactly.

use vstd::prelude::*;

use crate::structs::{ErrKind, Expr, ExprV};
use crate::text::{
    check_name, check_number, copy_slice, scan_expr_word, scan_expr_word_chars, scan_num,
    scan_num_chars, scan_var, scan_var_chars, skip_sp, skip_spaces, tag_at, tag_matches,
    valid_name, valid_number,
};

verus! {

/// The ten binary operators of the grammar, in their dispatch order.
#[derive(Debug, Clone, Copy, PartialEq, Eq, Structural)]
pub enum BinOp {
    Add,
    Sub,
    Mul,
    Div,
    Eq,
    Ne,
    Lt,
    Gt,
    And,
    Or,
}

/// The token that introduces a binary operator.
pub open spec fn op_tag(op: BinOp) -> Seq<char> {
    match op {
        BinOp::Add => "+"@,
        BinOp::Sub => "-"@,
        BinOp::Mul => "*"@,
        BinOp::Div => "/"@,
        BinOp::Eq => "EQ"@,
        BinOp::Ne => "NE"@,
        BinOp::Lt => "LT"@,
        BinOp::Gt => "GT"@,
        BinOp::And => "AND"@,
        BinOp::Or => "OR"@,
    }
}

pub fn op_tag_str(op: BinOp) -> (t: &'static str)
    ensures
        t@ == op_tag(op),
{
    match op {
        BinOp::Add => "+",
        BinOp::Sub => "-",
        BinOp::Mul => "*",
        BinOp::Div => "/",
        BinOp::Eq => "EQ",
        BinOp::Ne => "NE",
        BinOp::Lt => "LT",
        BinOp::Gt => "GT",
        BinOp::And => "AND",
        BinOp::Or => "OR",
    }
}

pub open spec fn mk_bin(op: BinOp, a: ExprV, b: ExprV, n: int, l: int) -> ExprV {
    match op {
        BinOp::Add => ExprV::Add(Box::new(a), Box::new(b), n, l),
        BinOp::Sub => ExprV::Sub(Box::new(a), Box::new(b), n, l),
        BinOp::Mul => ExprV::Mul(Box::new(a), Box::new(b), n, l),
        BinOp::Div => ExprV::Div(Box::new(a), Box::new(b), n, l),
        BinOp::Eq => ExprV::Eq(Box::new(a), Box::new(b), n, l),
        BinOp::Ne => ExprV::Ne(Box::new(a), Box::new(b), n, l),
        BinOp::Lt => ExprV::Lt(Box::new(a), Box::new(b), n, l),
        BinOp::Gt => ExprV::Gt(Box::new(a), Box::new(b), n, l),
        BinOp::And => ExprV::And(Box::new(a), Box::new(b), n, l),
        BinOp::Or => ExprV::Or(Box::new(a), Box::new(b), n, l),
    }
}

pub fn build_bin(op: BinOp, a: Expr, b: Expr, n: usize, l: usize) -> (r: Expr)
    ensures
        r@ == mk_bin(op, a@, b@, n as int, l as int),
{
    match op {
        BinOp::Add => Expr::Add(Box::new(a), Box::new(b), n, l),
        BinOp::Sub => Expr::Sub(Box::new(a), Box::new(b), n, l),
        BinOp::Mul => Expr::Mul(Box::new(a), Box::new(b), n, l),
        BinOp::Div => Expr::Div(Box::new(a), Box::new(b), n, l),
        BinOp::Eq => Expr::Eq(Box::new(a), Box::new(b), n, l),
        BinOp::Ne => Expr::Ne(Box::new(a), Box::new(b), n, l),
        BinOp::Lt => Expr::Lt(Box::new(a), Box::new(b), n, l),
        BinOp::Gt => Expr::Gt(Box::new(a), Box::new(b), n, l),
        BinOp::And => Expr::And(Box::new(a), Box::new(b), n, l),
        BinOp::Or => Expr::Or(Box::new(a), Box::new(b), n, l),
    }
}

/// Ghost image of an executable parse result.
pub open spec fn pe_view(r: Option<(usize, Expr)>) -> Option<(int, ExprV)> {
    match r {
        Some((q, e)) => Some((q as int, e@)),
        None => None,
    }
}

/// Keeps a recursion position inside `[lo, hi]`; the parser's results are
/// always in range already, so this only serves the termination measure.
pub open spec fn bound_pos(x: int, lo: int, hi: int) -> int {
    if x < lo {
        lo
    } else if x > hi {
        hi
    } else {
        x
    }
}

pub open spec fn spec_parse_true(s: Seq<char>, p: int) -> Option<(int, ExprV)> {
    let p1 = skip_sp(s, p);
    if p1 < s.len() && s[p1] == '"' && tag_matches(s, p1 + 1, "TRUE"@) {
        let p2 = skip_sp(s, p1 + 1 + "TRUE"@.len());
        Some((p2, ExprV::Boolean(true, s.len() - p2, p2 - p)))
    } else {
        None
    }
}

pub open spec fn spec_parse_false(s: Seq<char>, p: int) -> Option<(int, ExprV)> {
    let p1 = skip_sp(s, p);
    if p1 < s.len() && s[p1] == '"' && tag_matches(s, p1 + 1, "FALSE"@) {
        let p2 = skip_sp(s, p1 + 1 + "FALSE"@.len());
        Some((p2, ExprV::Boolean(false, s.len() - p2, p2 - p)))
    } else {
        None
    }
}

pub open spec fn spec_parse_num(s: Seq<char>, p: int) -> Option<(int, ExprV)> {
    let p1 = skip_sp(s, p);
    if p1 < s.len() && s[p1] == '"' {
        let q = scan_num(s, p1 + 1);
        if q == p1 + 1 {
            None
        } else {
            let lit = s.subrange(p1 + 1, q);
            let p2 = skip_sp(s, q);
            if valid_number(lit) {
                Some((p2, ExprV::Float(lit, s.len() - p2, p2 - p)))
            } else {
                Some((p2, ExprV::Error(ErrKind::InvalidNumber, s.len() - p2, p2 - p)))
            }
        }
    } else {
        None
    }
}

pub open spec fn spec_parse_var(s: Seq<char>, p: int) -> Option<(int, ExprV)> {
    let p1 = skip_sp(s, p);
    if p1 < s.len() && s[p1] == ':' {
        let q = scan_var(s, p1 + 1);
        if q == p1 + 1 {
            None
        } else {
            let name = s.subrange(p1 + 1, q);
            let p2 = skip_sp(s, q);
            if valid_name(name) {
                Some((p2, ExprV::Var(name, s.len() - p2, p2 - p)))
            } else {
                Some((p2, ExprV::Error(ErrKind::InvalidName, s.len() - p2, p2 - p)))
            }
        }
    } else {
        None
    }
}

pub open spec fn spec_parse_sysvar(s: Seq<char>, p: int, tag: Seq<char>) -> Option<(int, int)> {
    let p1 = skip_sp(s, p);
    if tag.len() > 0 && tag_matches(s, p1, tag) {
        let p2 = skip_sp(s, p1 + tag.len());
        Some((p2, 0))
    } else {
        None
    }
}

pub open spec fn spec_parts_err(s: Seq<char>, p: int) -> Option<(int, ExprV)> {
    let p1 = skip_sp(s, p);
    let q = scan_expr_word(s, p1);
    if q == p1 {
        None
    } else {
        let p2 = skip_sp(s, q);
        Some((p2, ExprV::Error(ErrKind::UnexpectedExpr, s.len() - p2, p2 - p)))
    }
}

/// One binary operator: its token, then two complete sub-expressions,
/// consumed recursively; a failed sub-parse leaves a `MissingOperand` leaf
/// and consumes nothing.
pub open spec fn spec_parse_binop(s: Seq<char>, p: int, op: BinOp) -> Option<(int, ExprV)>
    decreases s.len() - p, 0int, when 0 <= p <= s.len()
{
    let p1 = skip_sp(s, p);
    if p < s.len() && op_tag(op).len() > 0 && tag_matches(s, p1, op_tag(op)) {
        let p2 = bound_pos(skip_sp(s, p1 + op_tag(op).len()), p + 1, s.len() as int);
        let (p3r, left) = match spec_parse_expr(s, p2) {
            Some(r) => r,
            None => (p2, ExprV::Error(ErrKind::MissingOperand, s.len() - p2, 0)),
        };
        let p3 = bound_pos(p3r, p2, s.len() as int);
        let (p4r, right) = match spec_parse_expr(s, p3) {
            Some(r) => r,
            None => (p3, ExprV::Error(ErrKind::MissingOperand, s.len() - p3, 0)),
        };
        let p4 = bound_pos(p4r, p3, s.len() as int);
        Some((p4, mk_bin(op, left, right, s.len() - p4, p4 - p)))
    } else {
        None
    }
}

/// The whole prefix grammar: literal booleans, quoted numbers, variable
/// references, the ten operators, the four system reads, and finally an
/// `UnexpectedExpr` error leaf absorbing one word.  It fails only when
/// nothing but spacing remains, or the next word starts with `[`.
pub open spec fn spec_parse_expr(s: Seq<char>, p: int) -> Option<(int, ExprV)>
    decreases s.len() - p, 1int, when 0 <= p <= s.len()
{
    if spec_parse_true(s, p) is Some {
        spec_parse_true(s, p)
    } else if spec_parse_false(s, p) is Some {
        spec_parse_false(s, p)
    } else if spec_parse_num(s, p) is Some {
        spec_parse_num(s, p)
    } else if spec_parse_var(s, p) is Some {
        spec_parse_var(s, p)
    } else if spec_parse_binop(s, p, BinOp::Add) is Some {
        spec_parse_binop(s, p, BinOp::Add)
    } else if spec_parse_binop(s, p, BinOp::Sub) is Some {
        spec_parse_binop(s, p, BinOp::Sub)
    } else if spec_parse_binop(s, p, BinOp::Mul) is Some {
        spec_parse_binop(s, p, BinOp::Mul)
    } else if spec_parse_binop(s, p, BinOp::Div) is Some {
        spec_parse_binop(s, p, BinOp::Div)
    } else if spec_parse_binop(s, p, BinOp::Eq) is Some {
        spec_parse_binop(s, p, BinOp::Eq)
    } else if spec_parse_binop(s, p, BinOp::Ne) is Some {
        spec_parse_binop(s, p, BinOp::Ne)
    } else if spec_parse_binop(s, p, BinOp::Lt) is Some {
        spec_parse_binop(s, p, BinOp::Lt)
    } else if spec_parse_binop(s, p, BinOp::Gt) is Some {
        spec_parse_binop(s, p, BinOp::Gt)
    } else if spec_parse_binop(s, p, BinOp::And) is Some {
        spec_parse_binop(s, p, BinOp::And)
    } else if spec_parse_binop(s, p, BinOp::Or) is Some {
        spec_parse_binop(s, p, BinOp::Or)
    } else if spec_parse_sysvar(s, p, "XCOR"@) is Some {
        match spec_parse_sysvar(s, p, "XCOR"@) {
            Some((p2, _)) => Some((p2, ExprV::XCor(s.len() - p2, p2 - p))),
            None => None,
        }
    } else if spec_parse_sysvar(s, p, "YCOR"@) is Some {
        match spec_parse_sysvar(s, p, "YCOR"@) {
            Some((p2, _)) => Some((p2, ExprV::YCor(s.len() - p2, p2 - p))),
            None => None,
        }
    } else if spec_parse_sysvar(s, p, "HEADING"@) is Some {
        match spec_parse_sysvar(s, p, "HEADING"@) {
            Some((p2, _)) => Some((p2, ExprV::Heading(s.len() - p2, p2 - p))),
            None => None,
        }
    } else if spec_parse_sysvar(s, p, "COLOR"@) is Some {
        match spec_parse_sysvar(s, p, "COLOR"@) {
            Some((p2, _)) => Some((p2, ExprV::Color(s.len() - p2, p2 - p))),
            None => None,
        }
    } else {
        spec_parts_err(s, p)
    }
}

/// Every span in an expression fits a sentence of length `len`.
pub open spec fn expr_spans_ok(e: ExprV, len: int) -> bool
    decreases e,
{
    let (n, l) = crate::structs::spec_end_len(e);
    &&& 0 <= n
    &&& 0 <= l
    &&& n + l <= len
    &&& match e {
        ExprV::Add(a, b, _, _)
        | ExprV::Sub(a, b, _, _)
        | ExprV::Mul(a, b, _, _)
        | ExprV::Div(a, b, _, _)
        | ExprV::Eq(a, b, _, _)
        | ExprV::Ne(a, b, _, _)
        | ExprV::Lt(a, b, _, _)
        | ExprV::Gt(a, b, _, _)
        | ExprV::And(a, b, _, _)
        | ExprV::Or(a, b, _, _) => expr_spans_ok(*a, len) && expr_spans_ok(*b, len),
        _ => true,
    }
}

/// What the parser records is coherent: a successful parse moves forward,
/// stays within the line, and stamps only in-line spans.
#[verifier::rlimit(100)]
pub proof fn lemma_binop_spans(s: Seq<char>, p: int, op: BinOp)
    requires
        0 <= p <= s.len(),
    ensures
        spec_parse_binop(s, p, op) matches Some((q, e)) ==> p < q <= s.len() && expr_spans_ok(
            e,
            s.len() as int,
        ),
    decreases s.len() - p, 0int,
{
    crate::text::lemma_skip_sp(s, p);
    let p1 = skip_sp(s, p);
    if p < s.len() && op_tag(op).len() > 0 && tag_matches(s, p1, op_tag(op)) {
        let p2 = bound_pos(skip_sp(s, p1 + op_tag(op).len()), p + 1, s.len() as int);
        lemma_expr_spans(s, p2);
        let (p3r, left) = match spec_parse_expr(s, p2) {
            Some(r) => r,
            None => (p2, ExprV::Error(ErrKind::MissingOperand, s.len() - p2, 0)),
        };
        let p3 = bound_pos(p3r, p2, s.len() as int);
        lemma_expr_spans(s, p3);
        let (p4r, right) = match spec_parse_expr(s, p3) {
            Some(r) => r,
            None => (p3, ExprV::Error(ErrKind::MissingOperand, s.len() - p3, 0)),
        };
        let p4 = bound_pos(p4r, p3, s.len() as int);
        assert(expr_spans_ok(left, s.len() as int));
        assert(expr_spans_ok(right, s.len() as int));
        assert(expr_spans_ok(mk_bin(op, left, right, s.len() - p4, p4 - p), s.len() as int));
    }
}

#[verifier::rlimit(100)]
pub proof fn lemma_expr_spans(s: Seq<char>, p: int)
    requires
        0 <= p <= s.len(),
    ensures
        spec_parse_expr(s, p) matches Some((q, e)) ==> p < q <= s.len() && expr_spans_ok(
            e,
            s.len() as int,
        ),
    decreases s.len() - p, 1int,
{
    crate::text::lemma_skip_sp(s, p);
    let p1 = skip_sp(s, p);
    if p1 < s.len() && s[p1] == '"' && tag_matches(s, p1 + 1, "TRUE"@) {
        crate::text::lemma_skip_sp(s, p1 + 1 + "TRUE"@.len());
    }
    if p1 < s.len() && s[p1] == '"' && tag_matches(s, p1 + 1, "FALSE"@) {
        crate::text::lemma_skip_sp(s, p1 + 1 + "FALSE"@.len());
    }
    if p1 < s.len() && s[p1] == '"' {
        crate::text::lemma_scan_num(s, p1 + 1);
        crate::text::lemma_skip_sp(s, scan_num(s, p1 + 1));
    }
    if p1 < s.len() && s[p1] == ':' {
        crate::text::lemma_scan_var(s, p1 + 1);
        crate::text::lemma_skip_sp(s, scan_var(s, p1 + 1));
    }
    lemma_binop_spans(s, p, BinOp::Add);
    lemma_binop_spans(s, p, BinOp::Sub);
    lemma_binop_spans(s, p, BinOp::Mul);
    lemma_binop_spans(s, p, BinOp::Div);
    lemma_binop_spans(s, p, BinOp::Eq);
    lemma_binop_spans(s, p, BinOp::Ne);
    lemma_binop_spans(s, p, BinOp::Lt);
    lemma_binop_spans(s, p, BinOp::Gt);
    lemma_binop_spans(s, p, BinOp::And);
    lemma_binop_spans(s, p, BinOp::Or);
    if tag_matches(s, p1, "XCOR"@) {
        crate::text::lemma_skip_sp(s, p1 + "XCOR"@.len());
    }
    if tag_matches(s, p1, "YCOR"@) {
        crate::text::lemma_skip_sp(s, p1 + "YCOR"@.len());
    }
    if tag_matches(s, p1, "HEADING"@) {
        crate::text::lemma_skip_sp(s, p1 + "HEADING"@.len());
    }
    if tag_matches(s, p1, "COLOR"@) {
        crate::text::lemma_skip_sp(s, p1 + "COLOR"@.len());
    }
    crate::text::lemma_scan_expr_word(s, p1);
    crate::text::lemma_skip_sp(s, scan_expr_word(s, p1));
}

fn parse_true(line: &Vec<char>, pos: usize) -> (r: Option<(usize, Expr)>)
    requires
        pos <= line@.len(),
    ensures
        pe_view(r) == spec_parse_true(line@, pos as int),
        r matches Some(t) ==> pos < t.0 <= line@.len(),
{
    let p1 = skip_spaces(line, pos);
    if p1 < line.len() && line[p1] == '"' && tag_at(line, p1 + 1, "TRUE") {
        let tlen = "TRUE".unicode_len();
        assert(p1 + 1 + tlen <= line@.len());
        let p2 = skip_spaces(line, p1 + 1 + tlen);
        proof {
            crate::text::lemma_skip_sp(line@, p1 + 1 + tlen);
        }
        Some((p2, Expr::Boolean(true, line.len() - p2, p2 - pos)))
    } else {
        None
    }
}

fn parse_false(line: &Vec<char>, pos: usize) -> (r: Option<(usize, Expr)>)
    requires
        pos <= line@.len(),
    ensures
        pe_view(r) == spec_parse_false(line@, pos as int),
        r matches Some(t) ==> pos < t.0 <= line@.len(),
{
    let p1 = skip_spaces(line, pos);
    if p1 < line.len() && line[p1] == '"' && tag_at(line, p1 + 1, "FALSE") {
        let tlen = "FALSE".unicode_len();
        assert(p1 + 1 + tlen <= line@.len());
        let p2 = skip_spaces(line, p1 + 1 + tlen);
        proof {
            crate::text::lemma_skip_sp(line@, p1 + 1 + tlen);
        }
        Some((p2, Expr::Boolean(false, line.len() - p2, p2 - pos)))
    } else {
        None
    }
}

fn parse_num(line: &Vec<char>, pos: usize) -> (r: Option<(usize, Expr)>)
    requires
        pos <= line@.len(),
    ensures
        pe_view(r) == spec_parse_num(line@, pos as int),
        r matches Some(t) ==> pos < t.0 <= line@.len(),
{
    let p1 = skip_spaces(line, pos);
    if p1 < line.len() && line[p1] == '"' {
        let q = scan_num_chars(line, p1 + 1);
        if q == p1 + 1 {
            None
        } else {
            let lit = copy_slice(line, p1 + 1, q);
            let p2 = skip_spaces(line, q);
            if check_number(&lit) {
                Some((p2, Expr::Float(lit, line.len() - p2, p2 - pos)))
            } else {
                Some((p2, Expr::Error(ErrKind::InvalidNumber, line.len() - p2, p2 - pos)))
            }
        }
    } else {
        None
    }
}

fn parse_var(line: &Vec<char>, pos: usize) -> (r: Option<(usize, Expr)>)
    requires
        pos <= line@.len(),
    ensures
        pe_view(r) == spec_parse_var(line@, pos as int),
        r matches Some(t) ==> pos < t.0 <= line@.len(),
{
    let p1 = skip_spaces(line, pos);
    if p1 < line.len() && line[p1] == ':' {
        let q = scan_var_chars(line, p1 + 1);
        if q == p1 + 1 {
            None
        } else {
            let name = copy_slice(line, p1 + 1, q);
            let p2 = skip_spaces(line, q);
            if check_name(&name) {
                Some((p2, Expr::Var(name, line.len() - p2, p2 - pos)))
            } else {
                Some((p2, Expr::Error(ErrKind::InvalidName, line.len() - p2, p2 - pos)))
            }
        }
    } else {
        None
    }
}

fn parse_sysvar(line: &Vec<char>, pos: usize, tag: &str) -> (r: Option<usize>)
    requires
        pos <= line@.len(),
    ensures
        match r {
            Some(p2) => spec_parse_sysvar(line@, pos as int, tag@) == Some((p2 as int, 0int))
                && pos < p2 <= line@.len(),
            None => spec_parse_sysvar(line@, pos as int, tag@) is None,
        },
{
    let ll = line.len();
    let p1 = skip_spaces(line, pos);
    let tlen = tag.unicode_len();
    if tlen > 0 && tag_at(line, p1, tag) {
        assert(p1 + tlen <= ll);
        let p2 = skip_spaces(line, p1 + tlen);
        proof {
            crate::text::lemma_skip_sp(line@, p1 + tlen);
        }
        Some(p2)
    } else {
        None
    }
}

fn parts_err(line: &Vec<char>, pos: usize) -> (r: Option<(usize, Expr)>)
    requires
        pos <= line@.len(),
    ensures
        pe_view(r) == spec_parts_err(line@, pos as int),
        r matches Some(t) ==> pos < t.0 <= line@.len(),
{
    let p1 = skip_spaces(line, pos);
    let q = scan_expr_word_chars(line, p1);
    if q == p1 {
        None
    } else {
        let p2 = skip_spaces(line, q);
        Some((p2, Expr::Error(ErrKind::UnexpectedExpr, line.len() - p2, p2 - pos)))
    }
}

fn parse_binop(line: &Vec<char>, pos: usize, op: BinOp) -> (r: Option<(usize, Expr)>)
    requires
        pos <= line@.len(),
    ensures
        pe_view(r) == spec_parse_binop(line@, pos as int, op),
        r matches Some(t) ==> pos < t.0 <= line@.len(),
    decreases line@.len() - pos, 0int,
{
    let p1 = skip_spaces(line, pos);
    let tag = op_tag_str(op);
    if pos < line.len() && tag.unicode_len() > 0 && tag_at(line, p1, tag) {
        let tlen = tag.unicode_len();
        assert(p1 + tlen <= line@.len());
        let p2 = skip_spaces(line, p1 + tlen);
        proof {
            crate::text::lemma_skip_sp(line@, p1 + tlen);
            assert(p2 == bound_pos(
                skip_sp(line@, p1 + op_tag(op).len()),
                pos + 1,
                line@.len() as int,
            ));
        }
        let (p3, left) = match parse_expr(line, p2) {
            Some(t) => t,
            None => (p2, Expr::Error(ErrKind::MissingOperand, line.len() - p2, 0)),
        };
        proof {
            assert(p3 == bound_pos(p3 as int, p2 as int, line@.len() as int));
        }
        let (p4, right) = match parse_expr(line, p3) {
            Some(t) => t,
            None => (p3, Expr::Error(ErrKind::MissingOperand, line.len() - p3, 0)),
        };
        proof {
            assert(p4 == bound_pos(p4 as int, p3 as int, line@.len() as int));
        }
        Some((p4, build_bin(op, left, right, line.len() - p4, p4 - pos)))
    } else {
        None
    }
}

/// Parses one prefix expression starting at `pos`, skipping spacing; the
/// result and the new position equal those of the ghost grammar exactly,
/// and a successful parse always consumes at least one character.
#[verifier::rlimit(80)]
pub fn parse_expr(line: &Vec<char>, pos: usize) -> (r: Option<(usize, Expr)>)
    requires
        pos <= line@.len(),
    ensures
        pe_view(r) == spec_parse_expr(line@, pos as int),
        r matches Some(t) ==> pos < t.0 <= line@.len(),
    decreases line@.len() - pos, 1int,
{
    if let Some(t) = parse_true(line, pos) {
        return Some(t);
    }
    if let Some(t) = parse_false(line, pos) {
        return Some(t);
    }
    if let Some(t) = parse_num(line, pos) {
        return Some(t);
    }
    if let Some(t) = parse_var(line, pos) {
        return Some(t);
    }
    if let Some(t) = parse_binop(line, pos, BinOp::Add) {
        return Some(t);
    }
    if let Some(t) = parse_binop(line, pos, BinOp::Sub) {
        return Some(t);
    }
    if let Some(t) = parse_binop(line, pos, BinOp::Mul) {
        return Some(t);
    }
    if let Some(t) = parse_binop(line, pos, BinOp::Div) {
        return Some(t);
    }
    if let Some(t) = parse_binop(line, pos, BinOp::Eq) {
        return Some(t);
    }
    if let Some(t) = parse_binop(line, pos, BinOp::Ne) {
        return Some(t);
    }
    if let Some(t) = parse_binop(line, pos, BinOp::Lt) {
        return Some(t);
    }
    if let Some(t) = parse_binop(line, pos, BinOp::Gt) {
        return Some(t);
    }
    if let Some(t) = parse_binop(line, pos, BinOp::And) {
        return Some(t);
    }
    if let Some(t) = parse_binop(line, pos, BinOp::Or) {
        return Some(t);
    }
    if let Some(p2) = parse_sysvar(line, pos, "XCOR") {
        return Some((p2, Expr::XCor(line.len() - p2, p2 - pos)));
    }
    if let Some(p2) = parse_sysvar(line, pos, "YCOR") {
        return Some((p2, Expr::YCor(line.len() - p2, p2 - pos)));
    }
    if let Some(p2) = parse_sysvar(line, pos, "HEADING") {
        return Some((p2, Expr::Heading(line.len() - p2, p2 - pos)));
    }
    if let Some(p2) = parse_sysvar(line, pos, "COLOR") {
        return Some((p2, Expr::Color(line.len() - p2, p2 - pos)));
    }
    parts_err(line, pos)
}

} // verus!
