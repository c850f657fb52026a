//! The statement grammar: dispatch on a line's leading keyword, composing
//! the assignment and expression parsers; any other leading word becomes a
//! function-call statement with greedily parsed arguments.

use vstd::prelude::*;

use crate::assign::{parse_assign, spec_parse_assign};
use crate::decl::{parse_decl_name, spec_parse_decl_name};
use crate::expr::{bound_pos, parse_expr, spec_parse_expr};
use crate::structs::{exprs_view, DeclName, DeclNameV, ErrKind, Expr, ExprV, Stmt, StmtV};
use crate::text::{skip_sp, skip_spaces, tag_at, tag_matches};

verus! {

pub open spec fn ps_view(r: Option<(usize, Stmt)>) -> Option<(int, StmtV)> {
    match r {
        Some((q, s)) => Some((q as int, s@)),
        None => None,
    }
}

/// A keyword alone: `PENUP` / `PENDOWN`.
pub open spec fn spec_kw0(s: Seq<char>, p: int, tag: Seq<char>) -> Option<int> {
    let p1 = skip_sp(s, p);
    if tag.len() > 0 && tag_matches(s, p1, tag) {
        Some(skip_sp(s, p1 + tag.len()))
    } else {
        None
    }
}

/// A keyword followed by one expression; a failed expression parse leaves a
/// one-character `MissingOperand` leaf in place.
pub open spec fn spec_kw1(s: Seq<char>, p: int, tag: Seq<char>) -> Option<(int, ExprV)> {
    let p1 = skip_sp(s, p);
    if tag.len() > 0 && tag_matches(s, p1, tag) {
        let p2 = bound_pos(skip_sp(s, p1 + tag.len()), if p < 0 {
            0
        } else {
            p
        }, s.len() as int);
        match spec_parse_expr(s, p2) {
            Some(r) => Some(r),
            None => Some((p2, ExprV::Error(ErrKind::MissingOperand, s.len() - p2, 1))),
        }
    } else {
        None
    }
}

/// A keyword followed by an assignment target and one expression; the
/// statement fails when no target parses at all.
pub open spec fn spec_kw2(s: Seq<char>, p: int, tag: Seq<char>) -> Option<
    (int, crate::structs::AssignV, ExprV),
> {
    let p1 = skip_sp(s, p);
    if tag.len() > 0 && tag_matches(s, p1, tag) {
        let p2 = bound_pos(skip_sp(s, p1 + tag.len()), if p < 0 {
            0
        } else {
            p
        }, s.len() as int);
        match spec_parse_assign(s, p2) {
            None => None,
            Some((q, a)) => {
                let p3 = bound_pos(q, p2, s.len() as int);
                match spec_parse_expr(s, p3) {
                    Some((p4, e)) => Some((p4, a, e)),
                    None => Some((p3, a, ExprV::Error(ErrKind::MissingOperand, s.len() - p3, 1))),
                }
            },
        }
    } else {
        None
    }
}

/// Greedy list of call arguments: expressions until none parses.
pub open spec fn spec_parse_args(s: Seq<char>, p: int) -> (int, Seq<ExprV>)
    decreases s.len() - p when 0 <= p <= s.len()
{
    match spec_parse_expr(s, p) {
        None => (p, Seq::empty()),
        Some((q, e)) => if p < q <= s.len() {
            let r = spec_parse_args(s, q);
            (r.0, seq![e] + r.1)
        } else {
            (p, seq![e])
        },
    }
}

/// A function-call statement: a declaration-name token, then arguments.
pub open spec fn spec_parse_func(s: Seq<char>, p: int) -> Option<(int, StmtV)> {
    match spec_parse_decl_name(s, p) {
        None => None,
        Some((q, name)) => {
            let p2 = bound_pos(q, if p < 0 {
                0
            } else {
                p
            }, s.len() as int);
            let r = spec_parse_args(s, p2);
            Some((r.0, StmtV::Func(name, r.1, 0)))
        },
    }
}

/// One statement, dispatched on the leading keyword in a fixed order, with
/// a function call as the final alternative.  Every statement is built with
/// line index `0`; the assembly pass replaces it with the true index.
pub open spec fn spec_parse_stmt(s: Seq<char>, p: int) -> Option<(int, StmtV)> {
    if spec_kw1(s, p, "IF"@) is Some {
        match spec_kw1(s, p, "IF"@) {
            Some((q, e)) => Some((q, StmtV::If(e, Seq::empty(), 0))),
            None => None,
        }
    } else if spec_kw1(s, p, "WHILE"@) is Some {
        match spec_kw1(s, p, "WHILE"@) {
            Some((q, e)) => Some((q, StmtV::While(e, Seq::empty(), 0))),
            None => None,
        }
    } else if spec_kw2(s, p, "MAKE"@) is Some {
        match spec_kw2(s, p, "MAKE"@) {
            Some((q, a, e)) => Some((q, StmtV::Make(a, e, 0))),
            None => None,
        }
    } else if spec_kw0(s, p, "PENUP"@) is Some {
        match spec_kw0(s, p, "PENUP"@) {
            Some(q) => Some((q, StmtV::PenUp(0))),
            None => None,
        }
    } else if spec_kw0(s, p, "PENDOWN"@) is Some {
        match spec_kw0(s, p, "PENDOWN"@) {
            Some(q) => Some((q, StmtV::PenDown(0))),
            None => None,
        }
    } else if spec_kw1(s, p, "FORWARD"@) is Some {
        match spec_kw1(s, p, "FORWARD"@) {
            Some((q, e)) => Some((q, StmtV::Forward(e, 0))),
            None => None,
        }
    } else if spec_kw1(s, p, "BACK"@) is Some {
        match spec_kw1(s, p, "BACK"@) {
            Some((q, e)) => Some((q, StmtV::Back(e, 0))),
            None => None,
        }
    } else if spec_kw1(s, p, "LEFT"@) is Some {
        match spec_kw1(s, p, "LEFT"@) {
            Some((q, e)) => Some((q, StmtV::Left(e, 0))),
            None => None,
        }
    } else if spec_kw1(s, p, "RIGHT"@) is Some {
        match spec_kw1(s, p, "RIGHT"@) {
            Some((q, e)) => Some((q, StmtV::Right(e, 0))),
            None => None,
        }
    } else if spec_kw1(s, p, "SETPENCOLOR"@) is Some {
        match spec_kw1(s, p, "SETPENCOLOR"@) {
            Some((q, e)) => Some((q, StmtV::SetPenColor(e, 0))),
            None => None,
        }
    } else if spec_kw1(s, p, "TURN"@) is Some {
        match spec_kw1(s, p, "TURN"@) {
            Some((q, e)) => Some((q, StmtV::Turn(e, 0))),
            None => None,
        }
    } else if spec_kw1(s, p, "SETHEADING"@) is Some {
        match spec_kw1(s, p, "SETHEADING"@) {
            Some((q, e)) => Some((q, StmtV::SetHeading(e, 0))),
            None => None,
        }
    } else if spec_kw1(s, p, "SETX"@) is Some {
        match spec_kw1(s, p, "SETX"@) {
            Some((q, e)) => Some((q, StmtV::SetX(e, 0))),
            None => None,
        }
    } else if spec_kw1(s, p, "SETY"@) is Some {
        match spec_kw1(s, p, "SETY"@) {
            Some((q, e)) => Some((q, StmtV::SetY(e, 0))),
            None => None,
        }
    } else if spec_kw2(s, p, "ADDASSIGN"@) is Some {
        match spec_kw2(s, p, "ADDASSIGN"@) {
            Some((q, a, e)) => Some((q, StmtV::AddAssign(a, e, 0))),
            None => None,
        }
    } else {
        spec_parse_func(s, p)
    }
}


/// Every span in a list of expressions fits the sentence.
pub open spec fn exprs_spans_ok(args: Seq<ExprV>, len: int) -> bool
    decreases args,
{
    args.len() == 0 || (crate::expr::expr_spans_ok(args[0], len) && exprs_spans_ok(
        args.drop_first(),
        len,
    ))
}

/// Every span a statement records fits a sentence of length `len`.
pub open spec fn stmt_spans_ok(st: StmtV, len: int) -> bool
    decreases st,
{
    match st {
        StmtV::If(e, b, _) | StmtV::While(e, b, _) => crate::expr::expr_spans_ok(e, len)
            && stmts_spans_ok(b, len),
        StmtV::Make(a, e, _) | StmtV::AddAssign(a, e, _) => crate::structs::assign_span_ok(a, len)
            && crate::expr::expr_spans_ok(e, len),
        StmtV::Forward(e, _)
        | StmtV::Back(e, _)
        | StmtV::Left(e, _)
        | StmtV::Right(e, _)
        | StmtV::SetPenColor(e, _)
        | StmtV::Turn(e, _)
        | StmtV::SetHeading(e, _)
        | StmtV::SetX(e, _)
        | StmtV::SetY(e, _) => crate::expr::expr_spans_ok(e, len),
        StmtV::Func(n, args, _) => crate::decl::name_span_ok(n, len) && exprs_spans_ok(args, len),
        _ => true,
    }
}

pub open spec fn stmts_spans_ok(b: Seq<StmtV>, len: int) -> bool
    decreases b,
{
    b.len() == 0 || (stmt_spans_ok(b[0], len) && stmts_spans_ok(b.drop_first(), len))
}

pub proof fn lemma_parse_args_spans(s: Seq<char>, p: int)
    requires
        0 <= p <= s.len(),
    ensures
        p <= spec_parse_args(s, p).0 <= s.len(),
        exprs_spans_ok(spec_parse_args(s, p).1, s.len() as int),
    decreases s.len() - p,
{
    crate::expr::lemma_expr_spans(s, p);
    match spec_parse_expr(s, p) {
        None => {
            assert(exprs_spans_ok(spec_parse_args(s, p).1, s.len() as int));
        },
        Some((q, e)) => {
            if p < q <= s.len() {
                lemma_parse_args_spans(s, q);
                let whole = spec_parse_args(s, p).1;
                assert(whole == seq![e] + spec_parse_args(s, q).1);
                assert(whole[0] == e);
                assert(whole.drop_first() =~= spec_parse_args(s, q).1);
            } else {
                let whole = spec_parse_args(s, p).1;
                assert(whole == seq![e]);
                assert(whole[0] == e);
                assert(whole.drop_first() =~= Seq::<ExprV>::empty());
            }
        },
    }
}

pub proof fn lemma_kw1_spans(s: Seq<char>, p: int, tag: Seq<char>)
    requires
        0 <= p <= s.len(),
        tag.len() >= 2,
    ensures
        spec_kw1(s, p, tag) matches Some((q, e)) ==> p < q <= s.len() && crate::expr::expr_spans_ok(
            e,
            s.len() as int,
        ),
{
    crate::text::lemma_skip_sp(s, p);
    let p1 = skip_sp(s, p);
    if tag.len() > 0 && tag_matches(s, p1, tag) {
        crate::text::lemma_skip_sp(s, p1 + tag.len());
        let p2 = bound_pos(skip_sp(s, p1 + tag.len()), if p < 0 {
            0
        } else {
            p
        }, s.len() as int);
        crate::expr::lemma_expr_spans(s, p2);
        assert(p2 >= 1);
    }
}

pub proof fn lemma_kw2_spans(s: Seq<char>, p: int, tag: Seq<char>)
    requires
        0 <= p <= s.len(),
        tag.len() >= 2,
    ensures
        spec_kw2(s, p, tag) matches Some((q, a, e)) ==> p < q <= s.len()
            && crate::structs::assign_span_ok(a, s.len() as int) && crate::expr::expr_spans_ok(
            e,
            s.len() as int,
        ),
{
    crate::text::lemma_skip_sp(s, p);
    let p1 = skip_sp(s, p);
    if tag.len() > 0 && tag_matches(s, p1, tag) {
        crate::text::lemma_skip_sp(s, p1 + tag.len());
        let p2 = bound_pos(skip_sp(s, p1 + tag.len()), if p < 0 {
            0
        } else {
            p
        }, s.len() as int);
        crate::assign::lemma_assign_spans(s, p2);
        match spec_parse_assign(s, p2) {
            None => {},
            Some((q, a)) => {
                let p3 = bound_pos(q, p2, s.len() as int);
                crate::expr::lemma_expr_spans(s, p3);
                assert(p3 >= 1);
            },
        }
    }
}

/// Every span a freshly parsed statement records fits its sentence, and
/// the parse stays within the line.
#[verifier::rlimit(100)]
pub proof fn lemma_parse_stmt_spans(s: Seq<char>, p: int)
    requires
        0 <= p <= s.len(),
    ensures
        spec_parse_stmt(s, p) matches Some((q, st)) ==> p < q <= s.len() && stmt_spans_ok(
            st,
            s.len() as int,
        ),
{
    reveal_strlit("IF");
    reveal_strlit("WHILE");
    reveal_strlit("MAKE");
    reveal_strlit("FORWARD");
    reveal_strlit("BACK");
    reveal_strlit("LEFT");
    reveal_strlit("RIGHT");
    reveal_strlit("SETPENCOLOR");
    reveal_strlit("TURN");
    reveal_strlit("SETHEADING");
    reveal_strlit("SETX");
    reveal_strlit("SETY");
    reveal_strlit("ADDASSIGN");
    lemma_kw1_spans(s, p, "IF"@);
    lemma_kw1_spans(s, p, "WHILE"@);
    lemma_kw2_spans(s, p, "MAKE"@);
    crate::text::lemma_skip_sp(s, p);
    let p1 = skip_sp(s, p);
    if "PENUP"@.len() > 0 && tag_matches(s, p1, "PENUP"@) {
        crate::text::lemma_skip_sp(s, p1 + "PENUP"@.len());
    }
    if "PENDOWN"@.len() > 0 && tag_matches(s, p1, "PENDOWN"@) {
        crate::text::lemma_skip_sp(s, p1 + "PENDOWN"@.len());
    }
    lemma_kw1_spans(s, p, "FORWARD"@);
    lemma_kw1_spans(s, p, "BACK"@);
    lemma_kw1_spans(s, p, "LEFT"@);
    lemma_kw1_spans(s, p, "RIGHT"@);
    lemma_kw1_spans(s, p, "SETPENCOLOR"@);
    lemma_kw1_spans(s, p, "TURN"@);
    lemma_kw1_spans(s, p, "SETHEADING"@);
    lemma_kw1_spans(s, p, "SETX"@);
    lemma_kw1_spans(s, p, "SETY"@);
    lemma_kw2_spans(s, p, "ADDASSIGN"@);
    crate::decl::lemma_decl_name_spans(s, p);
    match spec_parse_decl_name(s, p) {
        None => {},
        Some((q, _)) => {
            let p2 = bound_pos(q, if p < 0 {
                0
            } else {
                p
            }, s.len() as int);
            lemma_parse_args_spans(s, p2);
        },
    }
}

fn parse_kw0(line: &Vec<char>, pos: usize, tag: &str) -> (r: Option<usize>)
    requires
        pos <= line@.len(),
    ensures
        match r {
            Some(q) => spec_kw0(line@, pos as int, tag@) == Some(q as int) && pos < q
                <= line@.len(),
            None => spec_kw0(line@, pos as int, tag@) is None,
        },
{
    let ll = line.len();
    let p1 = skip_spaces(line, pos);
    let tlen = tag.unicode_len();
    if tlen > 0 && tag_at(line, p1, tag) {
        assert(p1 + tlen <= ll);
        let p2 = skip_spaces(line, p1 + tlen);
        proof {
            crate::text::lemma_skip_sp(line@, p1 + tlen);
        }
        Some(p2)
    } else {
        None
    }
}

fn parse_kw1(line: &Vec<char>, pos: usize, tag: &str) -> (r: Option<(usize, Expr)>)
    requires
        pos <= line@.len(),
    ensures
        match r {
            Some((q, e)) => spec_kw1(line@, pos as int, tag@) == Some((q as int, e@)) && pos < q
                <= line@.len(),
            None => spec_kw1(line@, pos as int, tag@) is None,
        },
{
    let ll = line.len();
    let p1 = skip_spaces(line, pos);
    let tlen = tag.unicode_len();
    if tlen > 0 && tag_at(line, p1, tag) {
        assert(p1 + tlen <= ll);
        let p2 = skip_spaces(line, p1 + tlen);
        proof {
            crate::text::lemma_skip_sp(line@, p1 + tlen);
            assert(p2 == bound_pos(
                skip_sp(line@, p1 + tag@.len()),
                pos as int,
                line@.len() as int,
            ));
        }
        match parse_expr(line, p2) {
            Some(t) => Some(t),
            None => Some((p2, Expr::Error(ErrKind::MissingOperand, ll - p2, 1))),
        }
    } else {
        None
    }
}

fn parse_kw2(line: &Vec<char>, pos: usize, tag: &str) -> (r: Option<
    (usize, crate::structs::Assign, Expr),
>)
    requires
        pos <= line@.len(),
    ensures
        match r {
            Some((q, a, e)) => spec_kw2(line@, pos as int, tag@) == Some((q as int, a@, e@)) && pos
                < q <= line@.len(),
            None => spec_kw2(line@, pos as int, tag@) is None,
        },
{
    let ll = line.len();
    let p1 = skip_spaces(line, pos);
    let tlen = tag.unicode_len();
    if tlen > 0 && tag_at(line, p1, tag) {
        assert(p1 + tlen <= ll);
        let p2 = skip_spaces(line, p1 + tlen);
        proof {
            crate::text::lemma_skip_sp(line@, p1 + tlen);
            assert(p2 == bound_pos(
                skip_sp(line@, p1 + tag@.len()),
                pos as int,
                line@.len() as int,
            ));
        }
        match parse_assign(line, p2) {
            None => None,
            Some((q, a)) => {
                proof {
                    assert(q == bound_pos(q as int, p2 as int, line@.len() as int));
                }
                match parse_expr(line, q) {
                    Some((p4, e)) => Some((p4, a, e)),
                    None => Some((q, a, Expr::Error(ErrKind::MissingOperand, ll - q, 1))),
                }
            },
        }
    } else {
        None
    }
}

fn parse_func(line: &Vec<char>, pos: usize) -> (r: Option<(usize, Stmt)>)
    requires
        pos <= line@.len(),
    ensures
        ps_view(r) == spec_parse_func(line@, pos as int),
        r matches Some(t) ==> pos < t.0 <= line@.len(),
{
    match parse_decl_name(line, pos) {
        None => None,
        Some((q, name)) => {
            proof {
                assert(q == bound_pos(q as int, pos as int, line@.len() as int));
            }
            let mut args: Vec<Expr> = Vec::new();
            let mut cur = q;
            proof {
                assert(exprs_view(args@) + spec_parse_args(line@, cur as int).1 =~= spec_parse_args(
                    line@,
                    cur as int,
                ).1);
            }
            loop
                invariant
                    pos < q <= cur <= line@.len(),
                    spec_parse_func(line@, pos as int) == Some(
                        (
                            spec_parse_args(line@, q as int).0,
                            StmtV::Func(name@, spec_parse_args(line@, q as int).1, 0),
                        ),
                    ),
                    spec_parse_args(line@, q as int).0 == spec_parse_args(line@, cur as int).0,
                    spec_parse_args(line@, q as int).1 == exprs_view(args@) + spec_parse_args(
                        line@,
                        cur as int,
                    ).1,
                ensures
                    spec_parse_expr(line@, cur as int) is None,
                decreases line@.len() - cur,
            {
                match parse_expr(line, cur) {
                    Some((p2, e)) => {
                        let ghost old_args = args@;
                        args.push(e);
                        proof {
                            assert(exprs_view(args@) =~= exprs_view(old_args).push(args@.last()@));
                            let rest = spec_parse_args(line@, p2 as int);
                            assert(spec_parse_args(line@, cur as int).1 =~= seq![
                                args@.last()@,
                            ] + rest.1);
                            assert(exprs_view(old_args) + (seq![args@.last()@] + rest.1)
                                =~= exprs_view(args@) + rest.1);
                        }
                        cur = p2;
                    },
                    None => {
                        break ;
                    },
                }
            }
            proof {
                assert(spec_parse_args(line@, cur as int).1 =~= Seq::<ExprV>::empty());
                assert(exprs_view(args@) + Seq::<ExprV>::empty() =~= exprs_view(args@));
            }
            Some((cur, Stmt::Func(Box::new(name), args, 0)))
        },
    }
}

/// Parses one statement; it succeeds whenever a word remains on the line,
/// and the result equals the ghost statement grammar exactly.
#[verifier::rlimit(80)]
pub fn parse_stmt(line: &Vec<char>, pos: usize) -> (r: Option<(usize, Stmt)>)
    requires
        pos <= line@.len(),
    ensures
        ps_view(r) == spec_parse_stmt(line@, pos as int),
        r matches Some(t) ==> pos < t.0 <= line@.len(),
{
    if let Some((q, e)) = parse_kw1(line, pos, "IF") {
        let body: Vec<Stmt> = Vec::new();
        proof {
            assert(crate::structs::stmts_view(body@) =~= Seq::<StmtV>::empty());
        }
        return Some((q, Stmt::If(Box::new(e), body, 0)));
    }
    if let Some((q, e)) = parse_kw1(line, pos, "WHILE") {
        let body: Vec<Stmt> = Vec::new();
        proof {
            assert(crate::structs::stmts_view(body@) =~= Seq::<StmtV>::empty());
        }
        return Some((q, Stmt::While(Box::new(e), body, 0)));
    }
    if let Some((q, a, e)) = parse_kw2(line, pos, "MAKE") {
        return Some((q, Stmt::Make(Box::new(a), Box::new(e), 0)));
    }
    if let Some(q) = parse_kw0(line, pos, "PENUP") {
        return Some((q, Stmt::PenUp(0)));
    }
    if let Some(q) = parse_kw0(line, pos, "PENDOWN") {
        return Some((q, Stmt::PenDown(0)));
    }
    if let Some((q, e)) = parse_kw1(line, pos, "FORWARD") {
        return Some((q, Stmt::Forward(Box::new(e), 0)));
    }
    if let Some((q, e)) = parse_kw1(line, pos, "BACK") {
        return Some((q, Stmt::Back(Box::new(e), 0)));
    }
    if let Some((q, e)) = parse_kw1(line, pos, "LEFT") {
        return Some((q, Stmt::Left(Box::new(e), 0)));
    }
    if let Some((q, e)) = parse_kw1(line, pos, "RIGHT") {
        return Some((q, Stmt::Right(Box::new(e), 0)));
    }
    if let Some((q, e)) = parse_kw1(line, pos, "SETPENCOLOR") {
        return Some((q, Stmt::SetPenColor(Box::new(e), 0)));
    }
    if let Some((q, e)) = parse_kw1(line, pos, "TURN") {
        return Some((q, Stmt::Turn(Box::new(e), 0)));
    }
    if let Some((q, e)) = parse_kw1(line, pos, "SETHEADING") {
        return Some((q, Stmt::SetHeading(Box::new(e), 0)));
    }
    if let Some((q, e)) = parse_kw1(line, pos, "SETX") {
        return Some((q, Stmt::SetX(Box::new(e), 0)));
    }
    if let Some((q, e)) = parse_kw1(line, pos, "SETY") {
        return Some((q, Stmt::SetY(Box::new(e), 0)));
    }
    if let Some((q, a, e)) = parse_kw2(line, pos, "ADDASSIGN") {
        return Some((q, Stmt::AddAssign(Box::new(a), Box::new(e), 0)));
    }
    parse_func(line, pos)
}

} // verus!
