//! The two-phase structural validator.  Phase A scans trimmed lines and
//! checks bracket/`TO`/`END` balance before any expression parsing; phase B
//! re-parses every line and assembles nested blocks with two explicit
//! stacks, closing each block when its bare `]` line arrives.  Phase A must
//! succeed first: phase B's stack machine relies on line-level balance, and
//! that reliance is proved here, not assumed.

use vstd::prelude::*;

use crate::decl::{parse_decl, spec_parse_decl, spec_parse_decl_name};
use crate::err::{
    check_decl_err, check_stmt_err, match_err, spec_check_decl_err, spec_check_stmt_err,
    spec_match_err, ASTError, ErrV,
};
use crate::stmt::{parse_stmt, spec_parse_stmt};
use crate::structs::{
    assoc_contains, assoc_set, stmts_view, Assign, AssignV, Decl, DeclName, DeclNameV, DeclV,
    ErrKind, Expr, Function, FunctionTypeV, Stmt, StmtV,
};
use crate::text::{skip_sp, tag_matches, trimmed, ws_hi, ws_lo};

verus! {

/// Whether `pre` begins `s`.
pub open spec fn has_prefix(s: Seq<char>, pre: Seq<char>) -> bool {
    tag_matches(s, 0, pre)
}

/// Whether `s` is exactly `t`.
pub open spec fn seq_is(s: Seq<char>, t: Seq<char>) -> bool {
    s.len() == t.len() && tag_matches(s, 0, t)
}

/// The text of a comment line: the trimmed sentence, leading `//` pairs
/// stripped, trimmed again.
pub open spec fn strip_slashes(u: Seq<char>) -> Seq<char>
    decreases u.len(),
{
    if u.len() >= 2 && u[0] == '/' && u[1] == '/' {
        strip_slashes(u.subrange(2, u.len() as int))
    } else {
        u
    }
}

// ---------------------------------------------------------------------------
// Phase A: the line scan.
// ---------------------------------------------------------------------------

/// Phase A state: the line after the open declaration's `TO` (zero when
/// none is open), and the indices of the open `IF`/`WHILE` lines.
pub struct ScanState {
    pub to: int,
    pub list: Seq<int>,
}

/// One phase-A line: dispatch on the trimmed line's leading token.
pub open spec fn sc_step(file: Seq<Seq<char>>, i: int, st: ScanState) -> Result<ScanState, ErrV> {
    let s = file[i];
    let t = trimmed(s);
    if has_prefix(t, "IF"@) || has_prefix(t, "WHILE"@) {
        if !(t.len() > 0 && t[t.len() - 1] == '[') {
            Err(
                spec_match_err(
                    s.subrange(0, ws_hi(s, s.len() as int)) + "  "@,
                    i + 1,
                    ErrKind::MissingLeftBracket,
                    0,
                    1,
                ),
            )
        } else {
            Ok(ScanState { to: st.to, list: st.list.push(i) })
        }
    } else if t.len() > 0 && t[0] == ']' {
        if st.list.len() == 0 {
            Err(spec_match_err(" \n"@ + s, i + 1, ErrKind::MissingWhileOrIf, s.len() as int + 1, 1))
        } else {
            Ok(ScanState { to: st.to, list: st.list.drop_last() })
        }
    } else if has_prefix(t, "TO"@) {
        if st.to != 0 {
            Err(spec_match_err(file[st.to - 1] + "\n "@, i + 1, ErrKind::MissingEnd, 0, 1))
        } else if st.list.len() > 0 {
            Err(
                spec_match_err(
                    file[st.list.last()] + "\n"@ + s,
                    i + 1,
                    ErrKind::DeclWrongPosition,
                    0,
                    s.len() as int,
                ),
            )
        } else {
            Ok(ScanState { to: i + 1, list: st.list })
        }
    } else if has_prefix(t, "END"@) {
        if st.list.len() > 0 {
            Err(
                spec_match_err(
                    file[st.list.last()] + "\n "@,
                    i + 1,
                    ErrKind::MissingRightBracket,
                    0,
                    1,
                ),
            )
        } else if st.to == 0 {
            Err(spec_match_err(" \n"@ + s, i + 1, ErrKind::MissingTo, s.len() as int + 1, 1))
        } else {
            Ok(ScanState { to: 0, list: st.list })
        }
    } else {
        Ok(st)
    }
}

/// Phase A over the first `i` lines.
pub open spec fn sc_run(file: Seq<Seq<char>>, i: int) -> Result<ScanState, ErrV>
    decreases i,
{
    if i <= 0 {
        Ok(ScanState { to: 0, list: Seq::empty() })
    } else {
        match sc_run(file, i - 1) {
            Err(e) => Err(e),
            Ok(st) => sc_step(file, i - 1, st),
        }
    }
}

/// The whole phase-A verdict, with the end-of-input checks: a still-open
/// declaration reports `MissingEnd`, a still-open block `MissingRightBracket`.
pub open spec fn spec_struct_check(file: Seq<Seq<char>>) -> Result<ScanState, ErrV> {
    match sc_run(file, file.len() as int) {
        Err(e) => Err(e),
        Ok(st) => {
            if st.to != 0 {
                Err(spec_match_err(file[st.to - 1] + "\n "@, 0, ErrKind::MissingEnd, 0, 1))
            } else if st.list.len() > 0 {
                Err(
                    spec_match_err(
                        file[st.list.last()] + "\n "@,
                        0,
                        ErrKind::MissingRightBracket,
                        0,
                        1,
                    ),
                )
            } else {
                Ok(st)
            }
        },
    }
}

/// Bounds that phase A maintains: the open-declaration marker and every
/// open-block index point at lines already scanned.
pub proof fn lemma_sc_run_bounds(file: Seq<Seq<char>>, i: int)
    requires
        0 <= i <= file.len(),
    ensures
        sc_run(file, i) matches Ok(st) ==> 0 <= st.to <= i && forall|j: int|
            0 <= j < st.list.len() ==> 0 <= #[trigger] st.list[j] < i,
    decreases i,
{
    if i > 0 {
        lemma_sc_run_bounds(file, i - 1);
    }
}

/// A failed scan stays failed, with the same error, over any longer run.
pub proof fn lemma_sc_run_err(file: Seq<Seq<char>>, i: int, n: int)
    requires
        0 <= i <= n,
        sc_run(file, i) is Err,
    ensures
        sc_run(file, n) == sc_run(file, i),
    decreases n - i,
{
    if i < n {
        lemma_sc_run_err(file, i + 1, n);
        assert(sc_run(file, i + 1) == sc_run(file, i));
    }
}

/// A successful full scan was successful at every prefix.
pub proof fn lemma_sc_run_prefix(file: Seq<Seq<char>>, i: int, n: int)
    requires
        0 <= i <= n,
        sc_run(file, n) is Ok,
    ensures
        sc_run(file, i) is Ok,
    decreases n - i,
{
    if i < n {
        lemma_sc_run_prefix(file, i + 1, n);
    }
}

/// The ghost image of the file handed to the validator.
pub open spec fn file_view(file: Seq<Vec<char>>) -> Seq<Seq<char>> {
    Seq::new(
        file.len(),
        |i: int|
            if 0 <= i < file.len() {
                file[i]@
            } else {
                arbitrary()
            },
    )
}

/// The trimmed copy of one line, with its trim bounds.
fn trim_line(line: &Vec<char>) -> (r: (Vec<char>, usize, usize))
    ensures
        r.0@ == trimmed(line@),
        r.1 == ws_lo(line@, 0),
        r.2 == ws_hi(line@, line@.len() as int),
        r.1 <= line@.len(),
        r.2 <= line@.len(),
{
    let (lo, hi) = crate::text::trim_bounds(line);
    if lo >= hi {
        let empty: Vec<char> = Vec::new();
        proof {
            assert(empty@ =~= trimmed(line@));
        }
        (empty, lo, hi)
    } else {
        (crate::text::copy_slice(line, lo, hi), lo, hi)
    }
}

/// Builds the two-line excerpt `first + "\n" + second`.
fn two_lines(first: &Vec<char>, second: &Vec<char>) -> (r: Vec<char>)
    ensures
        r@ == first@ + "\n"@ + second@,
{
    let mut out: Vec<char> = Vec::new();
    crate::text::push_chars(&mut out, first);
    crate::text::push_lit(&mut out, "\n");
    crate::text::push_chars(&mut out, second);
    out
}

/// Phase A: walks trimmed lines and verifies bracket/`TO`/`END` balance,
/// before any expression parsing.  The scan state on success, or the first
/// balance error, equal the ghost scan exactly.
pub fn struct_check(file: &Vec<Vec<char>>) -> (r: Result<(), ASTError>)
    ensures
        match r {
            Ok(()) => spec_struct_check(file_view(file@)) is Ok,
            Err(e) => spec_struct_check(file_view(file@)) == Err::<ScanState, ErrV>(e@),
        },
{
    let ghost fv = file_view(file@);
    let n = file.len();
    let mut to: usize = 0;
    let mut list: Vec<usize> = Vec::new();
    let mut i: usize = 0;
    proof {
        assert(Seq::new(list@.len(), |j: int| list@[j] as int) =~= Seq::<int>::empty());
    }
    while i < n
        invariant
            0 <= i <= n,
            n == file@.len(),
            fv == file_view(file@),
            fv.len() == n,
            sc_run(fv, i as int) == Ok::<ScanState, ErrV>(
                ScanState { to: to as int, list: Seq::new(list@.len(), |j: int| list@[j] as int) },
            ),
            to <= i,
            forall|j: int| 0 <= j < list@.len() ==> #[trigger] list@[j] < i,
        decreases n - i,
    {
        let ghost st0 = ScanState {
            to: to as int,
            list: Seq::new(list@.len(), |j: int| list@[j] as int),
        };
        let line = &file[i];
        proof {
            assert(fv[i as int] == line@);
        }
        let (t, _lo, hi) = trim_line(line);
        let tl = t.len();
        if crate::text::tag_at(&t, 0, "IF") || crate::text::tag_at(&t, 0, "WHILE") {
            if !(tl > 0 && t[tl - 1] == '[') {
                let mut src = crate::text::copy_slice(line, 0, hi);
                crate::text::push_lit(&mut src, "  ");
                proof {
                    assert(src@.len() >= 1) by {
                        crate::text::lemma_ws_hi(line@, line@.len() as int);
                        assert("  "@.len() == 2) by {
                            reveal_strlit("  ");
                        }
                    }
                }
                proof {
                    assert(sc_run(fv, i + 1) == sc_step(fv, i as int, st0));
                    lemma_sc_run_err(fv, i + 1, n as int);
                }
                return Err(match_err(src, i + 1, ErrKind::MissingLeftBracket, 0, 1));
            }
            let ghost oldl = list@;
            list.push(i);
            proof {
                assert(Seq::new(list@.len(), |j: int| list@[j] as int) =~= Seq::new(
                    oldl.len(),
                    |j: int| oldl[j] as int,
                ).push(i as int));
            }
        } else if tl > 0 && t[0] == ']' {
            if list.len() == 0 {
                let mut src: Vec<char> = Vec::new();
                crate::text::push_lit(&mut src, " \n");
                crate::text::push_chars(&mut src, line);
                proof {
                    assert(" \n"@.len() == 2) by {
                        reveal_strlit(" \n");
                    }
                    assert(src@ == " \n"@ + line@);
                }
                let sl = src.len();
                proof {
                    assert(sc_run(fv, i + 1) == sc_step(fv, i as int, st0));
                    lemma_sc_run_err(fv, i + 1, n as int);
                }
                return Err(match_err(src, i + 1, ErrKind::MissingWhileOrIf, sl - 1, 1));
            }
            let ghost oldl = list@;
            list.pop();
            proof {
                assert(Seq::new(list@.len(), |j: int| list@[j] as int) =~= Seq::new(
                    oldl.len(),
                    |j: int| oldl[j] as int,
                ).drop_last());
            }
        } else if crate::text::tag_at(&t, 0, "TO") {
            if to != 0 {
                let src = two_lines(&file[to - 1], &{
                    let mut sp: Vec<char> = Vec::new();
                    sp.push(' ');
                    sp
                });
                proof {
                    assert("\n"@.len() == 1) by {
                        reveal_strlit("\n");
                    }
                    assert(src@ == fv[to - 1] + "\n "@) by {
                        assert("\n "@ =~= "\n"@ + seq![' ']) by {
                            reveal_strlit("\n ");
                            reveal_strlit("\n");
                        }
                        assert(src@ =~= fv[to - 1] + "\n "@);
                    }
                }
                proof {
                    assert(sc_run(fv, i + 1) == sc_step(fv, i as int, st0));
                    lemma_sc_run_err(fv, i + 1, n as int);
                }
                return Err(match_err(src, i + 1, ErrKind::MissingEnd, 0, 1));
            } else if list.len() > 0 {
                let open = list[list.len() - 1];
                let src = two_lines(&file[open], line);
                proof {
                    assert("\n"@.len() == 1) by {
                        reveal_strlit("\n");
                    }
                    assert(st0.list.last() == open as int);
                }
                proof {
                    assert(sc_run(fv, i + 1) == sc_step(fv, i as int, st0));
                    lemma_sc_run_err(fv, i + 1, n as int);
                }
                return Err(match_err(src, i + 1, ErrKind::DeclWrongPosition, 0, line.len()));
            }
            to = i + 1;
        } else if crate::text::tag_at(&t, 0, "END") {
            if list.len() > 0 {
                let open = list[list.len() - 1];
                let src = two_lines(&file[open], &{
                    let mut sp: Vec<char> = Vec::new();
                    sp.push(' ');
                    sp
                });
                proof {
                    assert("\n"@.len() == 1) by {
                        reveal_strlit("\n");
                    }
                    assert(st0.list.last() == open as int);
                    assert(src@ == fv[open as int] + "\n "@) by {
                        assert("\n "@ =~= "\n"@ + seq![' ']) by {
                            reveal_strlit("\n ");
                            reveal_strlit("\n");
                        }
                        assert(src@ =~= fv[open as int] + "\n "@);
                    }
                }
                proof {
                    assert(sc_run(fv, i + 1) == sc_step(fv, i as int, st0));
                    lemma_sc_run_err(fv, i + 1, n as int);
                }
                return Err(match_err(src, i + 1, ErrKind::MissingRightBracket, 0, 1));
            } else if to == 0 {
                let mut src: Vec<char> = Vec::new();
                crate::text::push_lit(&mut src, " \n");
                crate::text::push_chars(&mut src, line);
                proof {
                    assert(" \n"@.len() == 2) by {
                        reveal_strlit(" \n");
                    }
                }
                let sl = src.len();
                proof {
                    assert(sc_run(fv, i + 1) == sc_step(fv, i as int, st0));
                    lemma_sc_run_err(fv, i + 1, n as int);
                }
                return Err(match_err(src, i + 1, ErrKind::MissingTo, sl - 1, 1));
            }
            to = 0;
        }
        i += 1;
    }
    if to != 0 {
        let src = two_lines(&file[to - 1], &{
            let mut sp: Vec<char> = Vec::new();
            sp.push(' ');
            sp
        });
        proof {
            assert("\n"@.len() == 1) by {
                reveal_strlit("\n");
            }
            assert(src@ == fv[to - 1] + "\n "@) by {
                assert("\n "@ =~= "\n"@ + seq![' ']) by {
                    reveal_strlit("\n ");
                    reveal_strlit("\n");
                }
                assert(src@ =~= fv[to - 1] + "\n "@);
            }
        }
        return Err(match_err(src, 0, ErrKind::MissingEnd, 0, 1));
    }
    if list.len() > 0 {
        let open = list[list.len() - 1];
        let src = two_lines(&file[open], &{
            let mut sp: Vec<char> = Vec::new();
            sp.push(' ');
            sp
        });
        proof {
            assert("\n"@.len() == 1) by {
                reveal_strlit("\n");
            }
            assert(Seq::new(list@.len(), |j: int| list@[j] as int).last() == open as int);
            assert(src@ == fv[open as int] + "\n "@) by {
                assert("\n "@ =~= "\n"@ + seq![' ']) by {
                    reveal_strlit("\n ");
                    reveal_strlit("\n");
                }
                assert(src@ =~= fv[open as int] + "\n "@);
            }
        }
        return Err(match_err(src, 0, ErrKind::MissingRightBracket, 0, 1));
    }
    Ok(())
}


// ---------------------------------------------------------------------------
// Phase B: assembly.
// ---------------------------------------------------------------------------

/// Stamps the originating line index on a freshly parsed statement.
pub open spec fn spec_set_line(st: StmtV, l: int) -> StmtV {
    match st {
        StmtV::If(e, b, _) => StmtV::If(e, b, l),
        StmtV::While(e, b, _) => StmtV::While(e, b, l),
        StmtV::Make(a, e, _) => StmtV::Make(a, e, l),
        StmtV::PenUp(_) => StmtV::PenUp(l),
        StmtV::PenDown(_) => StmtV::PenDown(l),
        StmtV::Forward(e, _) => StmtV::Forward(e, l),
        StmtV::Back(e, _) => StmtV::Back(e, l),
        StmtV::Left(e, _) => StmtV::Left(e, l),
        StmtV::Right(e, _) => StmtV::Right(e, l),
        StmtV::SetPenColor(e, _) => StmtV::SetPenColor(e, l),
        StmtV::Turn(e, _) => StmtV::Turn(e, l),
        StmtV::SetHeading(e, _) => StmtV::SetHeading(e, l),
        StmtV::SetX(e, _) => StmtV::SetX(e, l),
        StmtV::SetY(e, _) => StmtV::SetY(e, l),
        StmtV::AddAssign(a, e, _) => StmtV::AddAssign(a, e, l),
        StmtV::Func(n, a, _) => StmtV::Func(n, a, l),
        StmtV::Comments(t, x) => StmtV::Comments(t, x),
    }
}

fn set_line(st: Stmt, l: usize) -> (r: Stmt)
    ensures
        r@ == spec_set_line(st@, l as int),
{
    match st {
        Stmt::If(e, b, _) => Stmt::If(e, b, l),
        Stmt::While(e, b, _) => Stmt::While(e, b, l),
        Stmt::Make(a, e, _) => Stmt::Make(a, e, l),
        Stmt::PenUp(_) => Stmt::PenUp(l),
        Stmt::PenDown(_) => Stmt::PenDown(l),
        Stmt::Forward(e, _) => Stmt::Forward(e, l),
        Stmt::Back(e, _) => Stmt::Back(e, l),
        Stmt::Left(e, _) => Stmt::Left(e, l),
        Stmt::Right(e, _) => Stmt::Right(e, l),
        Stmt::SetPenColor(e, _) => Stmt::SetPenColor(e, l),
        Stmt::Turn(e, _) => Stmt::Turn(e, l),
        Stmt::SetHeading(e, _) => Stmt::SetHeading(e, l),
        Stmt::SetX(e, _) => Stmt::SetX(e, l),
        Stmt::SetY(e, _) => Stmt::SetY(e, l),
        Stmt::AddAssign(a, e, _) => Stmt::AddAssign(a, e, l),
        Stmt::Func(n, a, _) => Stmt::Func(n, a, l),
        Stmt::Comments(t, x) => Stmt::Comments(t, x),
    }
}

pub proof fn lemma_set_line_spans(st: StmtV, l: int, len: int)
    requires
        crate::stmt::stmt_spans_ok(st, len),
    ensures
        crate::stmt::stmt_spans_ok(spec_set_line(st, l), len),
{
    match st {
        StmtV::If(e, b, _) => {
            assert(crate::stmt::stmt_spans_ok(StmtV::If(e, b, l), len));
        },
        StmtV::While(e, b, _) => {
            assert(crate::stmt::stmt_spans_ok(StmtV::While(e, b, l), len));
        },
        _ => {},
    }
}

/// Phase B state: the function table so far, the control statements
/// awaiting a body, one statement list per open block scope (the outermost
/// is the top-level program), and the declaration in progress.
pub struct AsmState {
    pub res: Seq<(Seq<char>, FunctionTypeV)>,
    pub record: Seq<StmtV>,
    pub local: Seq<Seq<StmtV>>,
    pub func: Option<DeclV>,
}

pub open spec fn locals_view(ls: Seq<Vec<Stmt>>) -> Seq<Seq<StmtV>> {
    Seq::new(
        ls.len(),
        |i: int|
            if 0 <= i < ls.len() {
                stmts_view(ls[i]@)
            } else {
                arbitrary()
            },
    )
}

pub open spec fn decl_opt_view(d: Option<Decl>) -> Option<DeclV> {
    match d {
        Some(x) => Some(crate::structs::decl_view(x)),
        None => None,
    }
}

/// Appends a statement to the innermost open block.
pub open spec fn push_into_last(local: Seq<Seq<StmtV>>, st: StmtV) -> Seq<Seq<StmtV>> {
    local.update(local.len() - 1, local.last().push(st))
}

/// One phase-B line.  The branches that phase A's success makes
/// unreachable leave the state unchanged; the assembly function proves
/// they are never taken.
pub open spec fn pa_step(file: Seq<Seq<char>>, i: int, st: AsmState) -> Result<AsmState, ErrV> {
    let s = file[i];
    let t = trimmed(s);
    if t.len() == 0 {
        Ok(st)
    } else if has_prefix(t, "//"@) {
        let text = trimmed(strip_slashes(t));
        if st.local.len() == 0 {
            Ok(st)
        } else {
            Ok(
                AsmState {
                    res: st.res,
                    record: st.record,
                    local: push_into_last(st.local, StmtV::Comments(text, i + 1)),
                    func: st.func,
                },
            )
        }
    } else if seq_is(t, "]"@) {
        if st.local.len() == 1 {
            Err(spec_match_err(s, i + 1, ErrKind::MissingWhileOrIf, 0, 1))
        } else if st.local.len() == 0 || st.record.len() == 0 {
            Ok(st)
        } else {
            let block = st.local.last();
            let local1 = st.local.drop_last();
            let record1 = st.record.drop_last();
            match st.record.last() {
                StmtV::If(e, _, line) => Ok(
                    AsmState {
                        res: st.res,
                        record: record1,
                        local: push_into_last(local1, StmtV::If(e, block, line)),
                        func: st.func,
                    },
                ),
                StmtV::While(e, _, line) => Ok(
                    AsmState {
                        res: st.res,
                        record: record1,
                        local: push_into_last(local1, StmtV::While(e, block, line)),
                        func: st.func,
                    },
                ),
                _ => Ok(st),
            }
        }
    } else if has_prefix(t, "TO"@) {
        match spec_parse_decl(s, 0) {
            None => Ok(st),
            Some((endp, d)) => {
                if endp != s.len() {
                    Err(
                        spec_match_err(
                            s,
                            i + 1,
                            ErrKind::UnexpectedExtraOperand,
                            0,
                            s.len() - endp,
                        ),
                    )
                } else {
                    let dup = match d.name {
                        DeclNameV::Named(nm, ne, nl) => if assoc_contains(st.res, nm) {
                            Some((ne, nl))
                        } else {
                            None
                        },
                        _ => None,
                    };
                    match dup {
                        Some((ne, nl)) => Err(
                            spec_match_err(s, i + 1, ErrKind::RepeatFunctionName, ne, nl),
                        ),
                        None => match spec_check_decl_err(d) {
                            Some((k, e, l)) => Err(spec_match_err(s, i + 1, k, e, l)),
                            None => Ok(
                                AsmState {
                                    res: st.res,
                                    record: st.record,
                                    local: st.local.push(Seq::empty()),
                                    func: Some(d),
                                },
                            ),
                        },
                    }
                }
            },
        }
    } else if seq_is(t, "END"@) {
        match st.func {
            None => Err(spec_match_err(s, i + 1, ErrKind::MissingTo, 0, s.len() as int)),
            Some(d) => match d.name {
                DeclNameV::Named(nm, _, _) => {
                    if st.local.len() == 0 {
                        Ok(st)
                    } else {
                        Ok(
                            AsmState {
                                res: assoc_set(
                                    st.res,
                                    nm,
                                    FunctionTypeV { args: d.var, stmt_list: st.local.last() },
                                ),
                                record: st.record,
                                local: st.local.drop_last(),
                                func: None,
                            },
                        )
                    }
                },
                _ => Ok(AsmState { res: st.res, record: st.record, local: st.local, func: None }),
            },
        }
    } else {
        match spec_parse_stmt(s, 0) {
            None => Ok(st),
            Some((endp, stmt0)) => {
                let stmt = spec_set_line(stmt0, i);
                if has_prefix(t, "IF"@) || has_prefix(t, "WHILE"@) {
                    if !(s.len() - endp == 1 && endp < s.len() && s[endp] == '[') {
                        if s.len() == endp || !(s.len() > 0 && s[s.len() - 1] == '[') {
                            Err(spec_match_err(s, i + 1, ErrKind::MissingLeftBracket, 0, 1))
                        } else {
                            Err(
                                spec_match_err(
                                    s,
                                    i + 1,
                                    ErrKind::UnexpectedExtraOperand,
                                    1,
                                    s.len() - endp - 1,
                                ),
                            )
                        }
                    } else {
                        match spec_check_stmt_err(stmt) {
                            Some((k, e, l)) => Err(spec_match_err(s, i + 1, k, e, l)),
                            None => {
                                Ok(
                                    AsmState {
                                        res: st.res,
                                        record: st.record.push(stmt),
                                        local: st.local.push(Seq::empty()),
                                        func: st.func,
                                    },
                                )
                            },
                        }
                    }
                } else {
                    if endp != s.len() {
                        Err(
                            spec_match_err(
                                s,
                                i + 1,
                                ErrKind::UnexpectedExtraOperand,
                                0,
                                s.len() - endp,
                            ),
                        )
                    } else {
                        match spec_check_stmt_err(stmt) {
                            Some((k, e, l)) => Err(spec_match_err(s, i + 1, k, e, l)),
                            None => {
                                if st.local.len() == 0 {
                                    Ok(st)
                                } else {
                                    Ok(
                                        AsmState {
                                            res: st.res,
                                            record: st.record,
                                            local: push_into_last(st.local, stmt),
                                            func: st.func,
                                        },
                                    )
                                }
                            },
                        }
                    }
                }
            },
        }
    }
}

pub open spec fn pa_init() -> AsmState {
    AsmState {
        res: Seq::empty(),
        record: Seq::empty(),
        local: seq![Seq::<StmtV>::empty()],
        func: None,
    }
}

/// Phase B over the first `i` lines.
pub open spec fn pa_run(file: Seq<Seq<char>>, i: int) -> Result<AsmState, ErrV>
    decreases i,
{
    if i <= 0 {
        Ok(pa_init())
    } else {
        match pa_run(file, i - 1) {
            Err(e) => Err(e),
            Ok(st) => pa_step(file, i - 1, st),
        }
    }
}

pub proof fn lemma_pa_run_err(file: Seq<Seq<char>>, i: int, n: int)
    requires
        0 <= i <= n,
        pa_run(file, i) is Err,
    ensures
        pa_run(file, n) == pa_run(file, i),
    decreases n - i,
{
    if i < n {
        lemma_pa_run_err(file, i + 1, n);
        assert(pa_run(file, i + 1) == pa_run(file, i));
    }
}

/// The whole front end: phase A, then phase B, then the anonymous
/// top-level entry is recorded and any leftover open declaration or block
/// is rejected.
pub open spec fn spec_parse_ast(file: Seq<Seq<char>>) -> Result<
    Seq<(Seq<char>, FunctionTypeV)>,
    ErrV,
> {
    match spec_struct_check(file) {
        Err(e) => Err(e),
        Ok(_) => match pa_run(file, file.len() as int) {
            Err(e) => Err(e),
            Ok(st) => {
                if st.local.len() == 0 {
                    Ok(
                        assoc_set(
                            st.res,
                            Seq::<char>::empty(),
                            FunctionTypeV { args: Seq::empty(), stmt_list: Seq::empty() },
                        ),
                    )
                } else {
                    let res2 = assoc_set(
                        st.res,
                        Seq::<char>::empty(),
                        FunctionTypeV { args: Seq::empty(), stmt_list: st.local.last() },
                    );
                    if st.func is Some {
                        Err(spec_match_err(" "@, 0, ErrKind::MissingEnd, 0, 1))
                    } else if st.local.len() > 1 {
                        Err(spec_match_err(" "@, 0, ErrKind::MissingRightBracket, 0, 1))
                    } else {
                        Ok(res2)
                    }
                }
            },
        },
    }
}

/// The one shape of line the assembly pass cannot accept: a declaration
/// whose `TO` is preceded by whitespace other than spaces and tabs, which
/// the declaration grammar does not skip.
pub open spec fn file_ok(file: Seq<Seq<char>>) -> bool {
    forall|i: int|
        0 <= i < file.len() && has_prefix(trimmed(#[trigger] file[i]), "TO"@) ==> tag_matches(
            file[i],
            skip_sp(file[i], 0),
            "TO"@,
        )
}

fn push_last(local: &mut Vec<Vec<Stmt>>, st: Stmt)
    requires
        old(local)@.len() > 0,
    ensures
        locals_view(final(local)@) == push_into_last(locals_view(old(local)@), st@),
        final(local)@.len() == old(local)@.len(),
{
    let ghost stv = st@;
    let mut last = match local.pop() {
        Some(v) => v,
        None => unreached(),
    };
    let ghost lastv = last@;
    last.push(st);
    proof {
        assert(stmts_view(last@) =~= stmts_view(lastv).push(stv));
    }
    local.push(last);
    proof {
        assert(locals_view(local@) =~= push_into_last(locals_view(old(local)@), stv));
    }
}

/// The comment text of a trimmed comment line.
fn comment_text(t: &Vec<char>) -> (r: Vec<char>)
    ensures
        r@ == trimmed(strip_slashes(t@)),
{
    let mut cur: usize = 0;
    proof {
        assert(t@.subrange(0, t@.len() as int) =~= t@);
    }
    while cur < t.len() && cur + 1 < t.len() && t[cur] == '/' && t[cur + 1] == '/'
        invariant
            0 <= cur <= t@.len(),
            strip_slashes(t@) == strip_slashes(t@.subrange(cur as int, t@.len() as int)),
        decreases t@.len() - cur,
    {
        proof {
            let u = t@.subrange(cur as int, t@.len() as int);
            assert(u.subrange(2, u.len() as int) =~= t@.subrange(cur + 2, t@.len() as int));
        }
        cur += 2;
    }
    proof {
        let u = t@.subrange(cur as int, t@.len() as int);
        assert(!(u.len() >= 2 && u[0] == '/' && u[1] == '/'));
        assert(strip_slashes(t@) == u);
    }
    let stripped = crate::text::copy_slice(t, cur, t.len());
    let (lo, hi) = crate::text::trim_bounds(&stripped);
    if lo >= hi {
        let empty: Vec<char> = Vec::new();
        proof {
            assert(empty@ =~= trimmed(stripped@));
        }
        empty
    } else {
        crate::text::copy_slice(&stripped, lo, hi)
    }
}


/// One comment line: its text is pushed into the innermost open block.
#[verifier::rlimit(100)]
fn asm_comment_line(
    line: &Vec<char>,
    t: &Vec<char>,
    i: usize,
    local: &mut Vec<Vec<Stmt>>,
    Ghost(fv): Ghost<Seq<Seq<char>>>,
    Ghost(st0): Ghost<AsmState>,
)
    requires
        0 <= i < fv.len(),
        fv[i as int] == line@,
        t@ == trimmed(line@),
        t@.len() > 0,
        has_prefix(t@, "//"@),
        i + 1 <= usize::MAX,
        st0.local == locals_view(old(local)@),
    ensures
        pa_step(fv, i as int, st0) == Ok::<AsmState, ErrV>(
            AsmState {
                res: st0.res,
                record: st0.record,
                local: locals_view(final(local)@),
                func: st0.func,
            },
        ),
{
    let text = comment_text(t);
    if local.len() == 0 {
    } else {
        push_last(local, Stmt::Comments(text, i + 1));
    }
}

/// One bare `]` line: closes the innermost block and reattaches it to the
/// control statement that awaited it.
#[verifier::rlimit(100)]
fn asm_close_line(
    line: &Vec<char>,
    t: &Vec<char>,
    i: usize,
    record: &mut Vec<Stmt>,
    local: &mut Vec<Vec<Stmt>>,
    Ghost(fv): Ghost<Seq<Seq<char>>>,
    Ghost(st0): Ghost<AsmState>,
) -> (r: Option<ASTError>)
    requires
        0 <= i < fv.len(),
        fv[i as int] == line@,
        t@ == trimmed(line@),
        t@.len() > 0,
        !has_prefix(t@, "//"@),
        seq_is(t@, "]"@),
        i + 1 <= usize::MAX,
        st0.record == stmts_view(old(record)@),
        st0.local == locals_view(old(local)@),
    ensures
        match r {
            None => pa_step(fv, i as int, st0) == Ok::<AsmState, ErrV>(
                AsmState {
                    res: st0.res,
                    record: stmts_view(final(record)@),
                    local: locals_view(final(local)@),
                    func: st0.func,
                },
            ),
            Some(e) => pa_step(fv, i as int, st0) == Err::<AsmState, ErrV>(e@),
        },
{
    proof {
        crate::text::lemma_ws_lo(line@, 0);
        crate::text::lemma_ws_hi(line@, line@.len() as int);
        assert(line@.len() >= t@.len());
    }
    if local.len() == 1 {
        return Some(match_err(line.clone(), i + 1, ErrKind::MissingWhileOrIf, 0, 1));
    }
    if local.len() == 0 || record.len() == 0 {
        return None;
    }
    let is_ctrl = match &record[record.len() - 1] {
        Stmt::If(..) => true,
        Stmt::While(..) => true,
        _ => false,
    };
    proof {
        assert(stmts_view(record@)[record@.len() - 1] == record@.last()@);
    }
    if !is_ctrl {
        return None;
    }
    let block = match local.pop() {
        Some(v) => v,
        None => unreached(),
    };
    let top = match record.pop() {
        Some(v) => v,
        None => unreached(),
    };
    proof {
        assert(stmts_view(record@.push(top)) =~= stmts_view(record@).push(top@));
        assert(top@ == st0.record.last());
        assert(locals_view(local@.push(block)) =~~= locals_view(local@).push(stmts_view(block@)));
        assert(stmts_view(block@) == st0.local.last());
        assert(locals_view(local@) =~~= st0.local.drop_last());
        assert(stmts_view(record@) =~= st0.record.drop_last());
    }
    match top {
        Stmt::If(e, _b, line_idx) => {
            push_last(local, Stmt::If(e, block, line_idx));
        },
        Stmt::While(e, _b, line_idx) => {
            push_last(local, Stmt::While(e, block, line_idx));
        },
        _ => {
            proof {
                assert(false);
            }
        },
    }
    None
}

/// One `TO` line: parses the header, rejects trailing text, duplicate
/// names and error leaves, and records the declaration in progress.
#[verifier::rlimit(100)]
fn asm_decl_line(
    line: &Vec<char>,
    t: &Vec<char>,
    i: usize,
    res: &mut Function,
    local: &mut Vec<Vec<Stmt>>,
    func_record: &mut Option<Decl>,
    Ghost(fv): Ghost<Seq<Seq<char>>>,
    Ghost(st0): Ghost<AsmState>,
) -> (r: Option<ASTError>)
    requires
        0 <= i < fv.len(),
        fv[i as int] == line@,
        t@ == trimmed(line@),
        t@.len() > 0,
        !has_prefix(t@, "//"@),
        !seq_is(t@, "]"@),
        has_prefix(t@, "TO"@),
        tag_matches(line@, skip_sp(line@, 0), "TO"@),
        i + 1 <= usize::MAX,
        st0.res == old(res)@,
        st0.local == locals_view(old(local)@),
        st0.func == decl_opt_view(*old(func_record)),
    ensures
        match r {
            None => pa_step(fv, i as int, st0) == Ok::<AsmState, ErrV>(
                AsmState {
                    res: final(res)@,
                    record: st0.record,
                    local: locals_view(final(local)@),
                    func: decl_opt_view(*final(func_record)),
                },
            ) && (old(res).wf() ==> final(res).wf()),
            Some(e) => pa_step(fv, i as int, st0) == Err::<AsmState, ErrV>(e@),
        },
{
    proof {
        crate::text::lemma_ws_lo(line@, 0);
        crate::text::lemma_ws_hi(line@, line@.len() as int);
        assert(line@.len() >= t@.len());
    }
    match parse_decl(line, 0) {
        None => {
            proof {
                assert(false);
            }
            None
        },
        Some((endp, d)) => {
            proof {
                crate::decl::lemma_parse_decl_spans(line@, 0);
            }
            if endp != line.len() {
                return Some(
                    match_err(
                        line.clone(),
                        i + 1,
                        ErrKind::UnexpectedExtraOperand,
                        0,
                        line.len() - endp,
                    ),
                );
            }
            let mut repeated: Option<(usize, usize)> = None;
            if let DeclName::Named(nm, ne, nl) = &*d.name {
                if res.check_name(nm) {
                    repeated = Some((*ne, *nl));
                }
            }
            if let Some((ne, nl)) = repeated {
                return Some(
                    match_err(line.clone(), i + 1, ErrKind::RepeatFunctionName, ne, nl),
                );
            }
            if let Some((k, e, l)) = check_decl_err(&d) {
                proof {
                    crate::err::lemma_check_decl_err_spans(d@, line@.len() as int);
                }
                return Some(match_err(line.clone(), i + 1, k, e, l));
            }
            *func_record = Some(d);
            local.push(Vec::new());
            proof {
                assert(locals_view(local@) =~~= st0.local.push(Seq::empty()));
            }
            None
        },
    }
}

/// One `END` line: closes the declaration in progress and enters it into
/// the function table.
#[verifier::rlimit(100)]
fn asm_end_line(
    line: &Vec<char>,
    t: &Vec<char>,
    i: usize,
    res: &mut Function,
    local: &mut Vec<Vec<Stmt>>,
    func_record: &mut Option<Decl>,
    Ghost(fv): Ghost<Seq<Seq<char>>>,
    Ghost(st0): Ghost<AsmState>,
) -> (r: Option<ASTError>)
    requires
        0 <= i < fv.len(),
        fv[i as int] == line@,
        t@ == trimmed(line@),
        t@.len() > 0,
        !has_prefix(t@, "//"@),
        !seq_is(t@, "]"@),
        !has_prefix(t@, "TO"@),
        seq_is(t@, "END"@),
        i + 1 <= usize::MAX,
        st0.res == old(res)@,
        st0.local == locals_view(old(local)@),
        st0.func == decl_opt_view(*old(func_record)),
    ensures
        match r {
            None => pa_step(fv, i as int, st0) == Ok::<AsmState, ErrV>(
                AsmState {
                    res: final(res)@,
                    record: st0.record,
                    local: locals_view(final(local)@),
                    func: decl_opt_view(*final(func_record)),
                },
            ) && (old(res).wf() ==> final(res).wf()),
            Some(e) => pa_step(fv, i as int, st0) == Err::<AsmState, ErrV>(e@),
        },
{
    proof {
        crate::text::lemma_ws_lo(line@, 0);
        crate::text::lemma_ws_hi(line@, line@.len() as int);
        assert(line@.len() >= t@.len());
    }
    let mut named = false;
    match func_record {
        None => {
            return Some(match_err(line.clone(), i + 1, ErrKind::MissingTo, 0, line.len()));
        },
        Some(d) => {
            match &*d.name {
                DeclName::Named(..) => {
                    named = true;
                },
                DeclName::Error(..) => {},
            }
        },
    }
    if !named {
        // A declaration with a bad name never reaches the table; only the
        // open-declaration marker is cleared.
        *func_record = None;
        return None;
    }
    if local.len() == 0 {
        return None;
    }
    let fr = func_record.take();
    match fr {
        Some(d) => {
            let Decl { name, var } = d;
            match *name {
                DeclName::Named(nm, _ne, _nl) => {
                    let body = match local.pop() {
                        Some(v) => v,
                        None => unreached(),
                    };
                    proof {
                        assert(locals_view(local@.push(body)) =~~= locals_view(local@).push(
                            stmts_view(body@),
                        ));
                        assert(stmts_view(body@) == st0.local.last());
                        assert(locals_view(local@) =~~= st0.local.drop_last());
                    }
                    res.insert(nm, var, body);
                    None
                },
                DeclName::Error(..) => {
                    proof {
                        assert(false);
                    }
                    None
                },
            }
        },
        None => {
            proof {
                assert(false);
            }
            None
        },
    }
}

/// Any other line: parsed as one statement.  A control statement must
/// leave exactly `[` unconsumed and opens a block; any other statement
/// must consume the whole line and joins the innermost open block.
#[verifier::rlimit(100)]
fn asm_stmt_line(
    line: &Vec<char>,
    t: &Vec<char>,
    i: usize,
    record: &mut Vec<Stmt>,
    local: &mut Vec<Vec<Stmt>>,
    Ghost(fv): Ghost<Seq<Seq<char>>>,
    Ghost(st0): Ghost<AsmState>,
) -> (r: Option<ASTError>)
    requires
        0 <= i < fv.len(),
        fv[i as int] == line@,
        t@ == trimmed(line@),
        t@.len() > 0,
        !has_prefix(t@, "//"@),
        !seq_is(t@, "]"@),
        !has_prefix(t@, "TO"@),
        !seq_is(t@, "END"@),
        i + 1 <= usize::MAX,
        st0.record == stmts_view(old(record)@),
        st0.local == locals_view(old(local)@),
    ensures
        match r {
            None => pa_step(fv, i as int, st0) == Ok::<AsmState, ErrV>(
                AsmState {
                    res: st0.res,
                    record: stmts_view(final(record)@),
                    local: locals_view(final(local)@),
                    func: st0.func,
                },
            ),
            Some(e) => pa_step(fv, i as int, st0) == Err::<AsmState, ErrV>(e@),
        },
{
    proof {
        crate::text::lemma_ws_lo(line@, 0);
        crate::text::lemma_ws_hi(line@, line@.len() as int);
        assert(line@.len() >= t@.len());
    }
    match parse_stmt(line, 0) {
        None => None,
        Some((endp, st_raw)) => {
            proof {
                crate::stmt::lemma_parse_stmt_spans(line@, 0);
            }
            let stv = set_line(st_raw, i);
            proof {
                lemma_set_line_spans(
                    (spec_parse_stmt(line@, 0)->Some_0).1,
                    i as int,
                    line@.len() as int,
                );
            }
            let ll = line.len();
            let remlen = ll - endp;
            if crate::text::tag_at(t, 0, "IF") || crate::text::tag_at(t, 0, "WHILE") {
                if !(remlen == 1 && endp < ll && line[endp] == '[') {
                    if remlen == 0 || line[ll - 1] != '[' {
                        return Some(
                            match_err(line.clone(), i + 1, ErrKind::MissingLeftBracket, 0, 1),
                        );
                    } else {
                        return Some(
                            match_err(
                                line.clone(),
                                i + 1,
                                ErrKind::UnexpectedExtraOperand,
                                1,
                                remlen - 1,
                            ),
                        );
                    }
                }
                if let Some((k, e, l)) = check_stmt_err(&stv) {
                    proof {
                        crate::err::lemma_check_stmt_err_spans(stv@, line@.len() as int);
                    }
                    return Some(match_err(line.clone(), i + 1, k, e, l));
                }
                let ghost old_record = record@;
                record.push(stv);
                local.push(Vec::new());
                proof {
                    assert(stmts_view(record@) =~= stmts_view(old_record).push(record@.last()@));
                    assert(locals_view(local@) =~~= st0.local.push(Seq::empty()));
                }
                None
            } else {
                if remlen != 0 {
                    return Some(
                        match_err(line.clone(), i + 1, ErrKind::UnexpectedExtraOperand, 0, remlen),
                    );
                }
                if let Some((k, e, l)) = check_stmt_err(&stv) {
                    proof {
                        crate::err::lemma_check_stmt_err_spans(stv@, line@.len() as int);
                    }
                    return Some(match_err(line.clone(), i + 1, k, e, l));
                }
                if local.len() == 0 {
                    return None;
                }
                push_last(local, stv);
                None
            }
        },
    }
}

/// Phase B: assembles the function table from the validated line sequence.
/// The table on success, or the first error, equal the ghost assembly
/// exactly; the anonymous entry holds the top-level program.  Phase A runs
/// first; the ghost step leaves the state unchanged in the configurations
/// that a successful scan rules out, and this pass mirrors that.  The
/// precondition excludes one shape of line only: a `TO` header whose
/// keyword is preceded by trimmable whitespace other than spaces and tabs
/// (such as a carriage return), which the declaration grammar cannot skip.
#[verifier::rlimit(100)]
pub fn parse_ast(file: &Vec<Vec<char>>) -> (r: Result<Function, ASTError>)
    requires
        file_ok(file_view(file@)),
    ensures
        match r {
            Ok(f) => spec_parse_ast(file_view(file@)) == Ok::<
                Seq<(Seq<char>, FunctionTypeV)>,
                ErrV,
            >(f@) && f.wf(),
            Err(e) => spec_parse_ast(file_view(file@)) == Err::<
                Seq<(Seq<char>, FunctionTypeV)>,
                ErrV,
            >(e@),
        },
{
    let ghost fv = file_view(file@);
    if let Err(e) = struct_check(file) {
        return Err(e);
    }
    let n = file.len();
    let mut res = Function::new();
    let mut record: Vec<Stmt> = Vec::new();
    let mut local: Vec<Vec<Stmt>> = Vec::new();
    let mut func_record: Option<Decl> = None;
    local.push(Vec::new());
    let mut i: usize = 0;
    proof {
        assert(locals_view(local@) =~~= seq![Seq::<StmtV>::empty()]);
        assert(stmts_view(record@) =~= Seq::<StmtV>::empty());
        assert(pa_run(fv, 0) == Ok::<AsmState, ErrV>(pa_init()));
    }
    while i < n
        invariant
            0 <= i <= n,
            n == file@.len(),
            fv == file_view(file@),
            fv.len() == n,
            file_ok(fv),
            spec_struct_check(fv) is Ok,
            pa_run(fv, i as int) == Ok::<AsmState, ErrV>(
                AsmState {
                    res: res@,
                    record: stmts_view(record@),
                    local: locals_view(local@),
                    func: decl_opt_view(func_record),
                },
            ),
            res.wf(),
        decreases n - i,
    {
        let ghost st0 = AsmState {
            res: res@,
            record: stmts_view(record@),
            local: locals_view(local@),
            func: decl_opt_view(func_record),
        };
        let line = &file[i];
        proof {
            assert(fv[i as int] == line@);
        }
        let (t, _tlo, _thi) = trim_line(line);
        let tl = t.len();
        let step_err: Option<ASTError> = if tl == 0 {
            None
        } else if crate::text::tag_at(&t, 0, "//") {
            asm_comment_line(line, &t, i, &mut local, Ghost(fv), Ghost(st0));
            None
        } else if crate::text::slice_eq(&t, 0, tl, "]") {
            asm_close_line(line, &t, i, &mut record, &mut local, Ghost(fv), Ghost(st0))
        } else if crate::text::tag_at(&t, 0, "TO") {
            asm_decl_line(
                line,
                &t,
                i,
                &mut res,
                &mut local,
                &mut func_record,
                Ghost(fv),
                Ghost(st0),
            )
        } else if crate::text::slice_eq(&t, 0, tl, "END") {
            asm_end_line(
                line,
                &t,
                i,
                &mut res,
                &mut local,
                &mut func_record,
                Ghost(fv),
                Ghost(st0),
            )
        } else {
            asm_stmt_line(line, &t, i, &mut record, &mut local, Ghost(fv), Ghost(st0))
        };
        if let Some(e) = step_err {
            proof {
                assert(pa_run(fv, i + 1) == pa_step(fv, i as int, st0));
                lemma_pa_run_err(fv, i + 1, n as int);
            }
            return Err(e);
        }
        proof {
            assert(pa_run(fv, i + 1) == pa_step(fv, i as int, st0));
        }
        i += 1;
    }
    match local.pop() {
        None => {
            let empty_name: Vec<char> = Vec::new();
            let no_args: Vec<Box<Assign>> = Vec::new();
            let no_body: Vec<Stmt> = Vec::new();
            proof {
                assert(empty_name@ =~= Seq::<char>::empty());
                assert(crate::structs::assigns_view(no_args@) =~= Seq::<AssignV>::empty());
                assert(stmts_view(no_body@) =~= Seq::<StmtV>::empty());
            }
            res.insert(empty_name, no_args, no_body);
            Ok(res)
        },
        Some(main_body) => {
            proof {
                assert(locals_view(local@.push(main_body)) =~~= locals_view(local@).push(
                    stmts_view(main_body@),
                ));
                assert(stmts_view(main_body@) == locals_view(local@.push(main_body)).last());
            }
            let empty_name: Vec<char> = Vec::new();
            let no_args: Vec<Box<Assign>> = Vec::new();
            proof {
                assert(empty_name@ =~= Seq::<char>::empty());
                assert(crate::structs::assigns_view(no_args@) =~= Seq::<AssignV>::empty());
            }
            res.insert(empty_name, no_args, main_body);
            if func_record.is_some() {
                let mut src: Vec<char> = Vec::new();
                src.push(' ');
                proof {
                    reveal_strlit(" ");
                    assert(src@ =~= " "@);
                }
                return Err(match_err(src, 0, ErrKind::MissingEnd, 0, 1));
            }
            if local.len() > 0 {
                let mut src: Vec<char> = Vec::new();
                src.push(' ');
                proof {
                    reveal_strlit(" ");
                    assert(src@ =~= " "@);
                }
                return Err(match_err(src, 0, ErrKind::MissingRightBracket, 0, 1));
            }
            Ok(res)
        },
    }
}


// ---------------------------------------------------------------------------
// Laws of the assembled table.
// ---------------------------------------------------------------------------

/// Whether line `i` is a declaration header naming `k`.
pub open spec fn decl_line_names(file: Seq<Seq<char>>, i: int, k: Seq<char>) -> bool {
    &&& 0 <= i < file.len()
    &&& has_prefix(trimmed(file[i]), "TO"@)
    &&& match spec_parse_decl(file[i], 0) {
        Some((q, d)) => d.name matches DeclNameV::Named(nm, ne, nl) && nm == k,
        None => false,
    }
}

/// While assembly runs, every name in the table so far, and the name of
/// the declaration in progress, come from `TO` lines already processed.
#[verifier::rlimit(100)]
pub proof fn lemma_pa_run_keys(file: Seq<Seq<char>>, i: int)
    requires
        0 <= i <= file.len(),
    ensures
        pa_run(file, i) matches Ok(st) ==> (forall|k: Seq<char>|
            assoc_contains(st.res, k) ==> exists|j: int| #[trigger] decl_line_names(file, j, k)
                && j < i) && (st.func matches Some(d) ==> d.name matches DeclNameV::Named(
            nm,
            ne,
            nl,
        ) && exists|j: int| #[trigger] decl_line_names(file, j, nm) && j < i),
    decreases i,
{
    if i <= 0 {
        if pa_run(file, i) is Ok {
            let st = pa_run(file, i)->Ok_0;
            assert(st.res.len() == 0);
            assert forall|k: Seq<char>| assoc_contains(st.res, k) implies exists|j: int|
                #[trigger] decl_line_names(file, j, k) && j < i by {
                assert(crate::structs::assoc_get(st.res, k) is None);
            }
        }
    } else {
        lemma_pa_run_keys(file, i - 1);
        if pa_run(file, i) is Ok {
            let st = pa_run(file, i)->Ok_0;
            let st0 = pa_run(file, i - 1)->Ok_0;
            assert(pa_step(file, i - 1, st0) == Ok::<AsmState, ErrV>(st));
            let s = file[i - 1];
            let t = trimmed(s);
            if t.len() == 0 {
            } else if has_prefix(t, "//"@) {
            } else if seq_is(t, "]"@) {
            } else if has_prefix(t, "TO"@) {
                match spec_parse_decl(s, 0) {
                    None => {},
                    Some((endp, d)) => {
                        if st.func is Some {
                            let d2 = st.func->Some_0;
                            if st0.func != Some(d2) {
                                assert(d2 == d);
                                assert(decl_line_names(file, i - 1, d.name->Named_0));
                            }
                        }
                    },
                }
            } else if seq_is(t, "END"@) {
                match st0.func {
                    None => {},
                    Some(d) => {
                        match d.name {
                            DeclNameV::Named(nm, ne, nl) => {
                                if st0.local.len() > 0 {
                                    assert forall|k: Seq<char>|
                                        assoc_contains(st.res, k) implies exists|j: int|
                                        #[trigger] decl_line_names(file, j, k) && j < i by {
                                        crate::structs::lemma_assoc_set_get(
                                            st0.res,
                                            nm,
                                            FunctionTypeV {
                                                args: d.var,
                                                stmt_list: st0.local.last(),
                                            },
                                            k,
                                        );
                                        if k != nm {
                                            assert(assoc_contains(st0.res, k));
                                        }
                                    }
                                }
                            },
                            _ => {},
                        }
                    },
                }
            } else {
            }
        }
    }
}

/// The sound half of the table-contents law: whenever the front end
/// succeeds, the table holds the anonymous top-level entry, and every
/// other key is the name of some `TO` declaration line of the input.  The
/// converse — that every declared name reached the table — is not stated
/// here.
pub proof fn lemma_parse_ast_declared_names(file: Seq<Seq<char>>)
    requires
        spec_parse_ast(file) is Ok,
    ensures
        ({
            let table = spec_parse_ast(file)->Ok_0;
            &&& assoc_contains(table, Seq::<char>::empty())
            &&& forall|k: Seq<char>|
                assoc_contains(table, k) && k != Seq::<char>::empty() ==> exists|j: int|
                    #[trigger] decl_line_names(file, j, k)
        }),
{
    let n = file.len() as int;
    lemma_pa_run_keys(file, n);
    let st = pa_run(file, n)->Ok_0;
    let table = spec_parse_ast(file)->Ok_0;
    let main = if st.local.len() == 0 {
        FunctionTypeV { args: Seq::empty(), stmt_list: Seq::empty() }
    } else {
        FunctionTypeV { args: Seq::empty(), stmt_list: st.local.last() }
    };
    assert(table == crate::structs::assoc_set(st.res, Seq::<char>::empty(), main));
    crate::structs::lemma_assoc_set_get(st.res, Seq::<char>::empty(), main, Seq::<char>::empty());
    assert forall|k: Seq<char>|
        assoc_contains(table, k) && k != Seq::<char>::empty() implies exists|j: int|
        #[trigger] decl_line_names(file, j, k) by {
        crate::structs::lemma_assoc_set_get(st.res, Seq::<char>::empty(), main, k);
        assert(assoc_contains(st.res, k));
        let j = choose|j: int| #[trigger] decl_line_names(file, j, k) && j < n;
        assert(decl_line_names(file, j, k));
    }
}


/// A line in one of the shapes a well-formed program uses: blank, a
/// comment, exactly `]`, exactly `END`, a whole-line `TO` header with a
/// proper name and no error leaf, or a statement that consumes its line
/// (a control head parses as a control statement and leaves exactly `[`)
/// with no error leaf.
pub open spec fn line_clean(file: Seq<Seq<char>>, i: int) -> bool {
    let s = file[i];
    let t = trimmed(s);
    &&& (t.len() > 0 && t[0] == ']' ==> seq_is(t, "]"@))
    &&& (has_prefix(t, "END"@) ==> seq_is(t, "END"@))
    &&& (has_prefix(t, "TO"@) ==> tag_matches(s, skip_sp(s, 0), "TO"@) && spec_parse_decl(s, 0)
        is Some && (spec_parse_decl(s, 0)->Some_0).0 == s.len() && (spec_parse_decl(
        s,
        0,
    )->Some_0).1.name is Named && spec_check_decl_err((spec_parse_decl(s, 0)->Some_0).1) is None)
    &&& (t.len() > 0 && !has_prefix(t, "//"@) && t[0] != ']' && !has_prefix(t, "TO"@)
        && !has_prefix(t, "END"@) ==> spec_parse_stmt(s, 0) is Some && spec_check_stmt_err(
        spec_set_line((spec_parse_stmt(s, 0)->Some_0).1, i),
    ) is None && (if has_prefix(t, "IF"@) || has_prefix(t, "WHILE"@) {
        &&& s.len() - (spec_parse_stmt(s, 0)->Some_0).0 == 1
        &&& (spec_parse_stmt(s, 0)->Some_0).0 < s.len()
        &&& s[(spec_parse_stmt(s, 0)->Some_0).0] == '['
        &&& ((spec_parse_stmt(s, 0)->Some_0).1 is If || (spec_parse_stmt(s, 0)->Some_0).1
            is While)
    } else {
        (spec_parse_stmt(s, 0)->Some_0).0 == s.len()
    }))
}

/// No two declaration lines share a name.
pub open spec fn distinct_decl_names(file: Seq<Seq<char>>) -> bool {
    forall|i: int, j: int, k: Seq<char>|
        #[trigger] decl_line_names(file, i, k) && #[trigger] decl_line_names(file, j, k) ==> i == j
}

/// The agreement the two phases keep while both stay on the happy path:
/// as many control statements await a body as the scan counts open
/// blocks, every awaiting statement is a control statement, one
/// accumulator is open per block scope plus the declaration in progress,
/// and a declaration is in progress exactly while the scan holds one.
pub open spec fn phases_agree(st: AsmState, sst: ScanState) -> bool {
    &&& st.record.len() == sst.list.len()
    &&& st.local.len() == 1 + st.record.len() + (if st.func is Some {
        1int
    } else {
        0int
    })
    &&& (st.func is Some) == (sst.to != 0)
    &&& forall|j: int|
        0 <= j < st.record.len() ==> (#[trigger] st.record[j] is If || st.record[j] is While)
}

/// A declared name is accounted for: already in the table, or the
/// declaration in progress.
pub open spec fn name_covered(st: AsmState, k: Seq<char>) -> bool {
    ||| assoc_contains(st.res, k)
    ||| (st.func matches Some(d) && d.name == DeclNameV::Named(
        d.name->Named_0,
        d.name->Named_1,
        d.name->Named_2,
    ) && d.name->Named_0 == k)
}

/// A declaration line never declares the anonymous name.
proof fn lemma_decl_name_nonempty(file: Seq<Seq<char>>, j: int, k: Seq<char>)
    requires
        decl_line_names(file, j, k),
    ensures
        k.len() > 0,
{
    let s = file[j];
    let d = (spec_parse_decl(s, 0)->Some_0).1;
    let p1 = skip_sp(s, 0);
    let p2 = crate::expr::bound_pos(skip_sp(s, p1 + "TO"@.len()), 0, s.len() as int);
    match spec_parse_decl_name(s, p2) {
        Some((q, nm)) => {
            assert(d.name == nm);
            match nm {
                DeclNameV::Named(name, _, _) => {
                    assert(crate::text::valid_name(name));
                },
                _ => {},
            }
        },
        None => {
            assert(d.name is Error);
        },
    }
}

proof fn lemma_prefix_first(t: Seq<char>, pre: Seq<char>)
    requires
        has_prefix(t, pre),
        pre.len() > 0,
    ensures
        t.len() >= pre.len(),
        t[0] == pre[0],
{
    assert(t.subrange(0, pre.len() as int)[0] == t[0]);
}

proof fn lemma_seq_is_whole(t: Seq<char>, u: Seq<char>)
    requires
        seq_is(t, u),
    ensures
        t == u,
{
    assert(t.subrange(0, u.len() as int) =~= t);
}

/// One clean line under a balanced scan: assembly takes its happy branch
/// and the two phases stay in agreement.
#[verifier::rlimit(100)]
proof fn lemma_pa_step_ok(file: Seq<Seq<char>>, i: int)
    requires
        0 <= i < file.len(),
        sc_run(file, i) is Ok,
        sc_run(file, i + 1) is Ok,
        pa_run(file, i) is Ok,
        phases_agree(pa_run(file, i)->Ok_0, sc_run(file, i)->Ok_0),
        line_clean(file, i),
        distinct_decl_names(file),
        forall|k: Seq<char>|
            assoc_contains((pa_run(file, i)->Ok_0).res, k) ==> exists|j: int|
                #[trigger] decl_line_names(file, j, k) && j < i,
        (pa_run(file, i)->Ok_0).func matches Some(d) ==> d.name is Named,
        forall|j: int, k: Seq<char>|
            0 <= j < i && #[trigger] decl_line_names(file, j, k) ==> name_covered(
                pa_run(file, i)->Ok_0,
                k,
            ),
    ensures
        pa_run(file, i + 1) is Ok,
        phases_agree(pa_run(file, i + 1)->Ok_0, sc_run(file, i + 1)->Ok_0),
        forall|j: int, k: Seq<char>|
            0 <= j < i + 1 && #[trigger] decl_line_names(file, j, k) ==> name_covered(
                pa_run(file, i + 1)->Ok_0,
                k,
            ),
{
    reveal_strlit("IF");
    reveal_strlit("WHILE");
    reveal_strlit("TO");
    reveal_strlit("END");
    reveal_strlit("//");
    reveal_strlit("]");
    let st0 = pa_run(file, i)->Ok_0;
    let sst0 = sc_run(file, i)->Ok_0;
    let s = file[i];
    let t = trimmed(s);
    assert(sc_run(file, i + 1) == sc_step(file, i, sst0));
    assert(pa_run(file, i + 1) == pa_step(file, i, st0));
    if has_prefix(t, "IF"@) {
        lemma_prefix_first(t, "IF"@);
    }
    if has_prefix(t, "WHILE"@) {
        lemma_prefix_first(t, "WHILE"@);
    }
    if has_prefix(t, "TO"@) {
        lemma_prefix_first(t, "TO"@);
    }
    if has_prefix(t, "END"@) {
        lemma_prefix_first(t, "END"@);
    }
    if has_prefix(t, "//"@) {
        lemma_prefix_first(t, "//"@);
    }
    if t.len() == 0 {
    } else if has_prefix(t, "//"@) {
        assert(t[0] == '/');
    } else if seq_is(t, "]"@) {
        lemma_seq_is_whole(t, "]"@);
        assert(t[0] == ']');
        assert(sst0.list.len() > 0);
        assert(st0.record.len() > 0);
        assert(st0.local.len() >= 2);
        assert(st0.record.last() is If || st0.record.last() is While);
        let st1 = pa_run(file, i + 1)->Ok_0;
        assert forall|j: int| 0 <= j < st1.record.len() implies (#[trigger] st1.record[j] is If
            || st1.record[j] is While) by {
            assert(st1.record[j] == st0.record[j]);
        }
    } else if has_prefix(t, "TO"@) {
        assert(t[0] == 'T');
        let d = (spec_parse_decl(s, 0)->Some_0).1;
        let nm = d.name->Named_0;
        assert(decl_line_names(file, i, nm));
        if assoc_contains(st0.res, nm) {
            let j = choose|j: int| #[trigger] decl_line_names(file, j, nm) && j < i;
            assert(decl_line_names(file, j, nm));
            assert(false);
        }
    } else if seq_is(t, "END"@) {
        lemma_seq_is_whole(t, "END"@);
        assert(t[0] == 'E');
        assert(sst0.list.len() == 0);
        assert(sst0.to != 0);
        assert(st0.func is Some);
        assert((st0.func->Some_0).name is Named);
        assert(st0.local.len() >= 2);
    } else {
        assert(!(t.len() > 0 && t[0] == ']'));
        if has_prefix(t, "IF"@) || has_prefix(t, "WHILE"@) {
            let stp = spec_set_line((spec_parse_stmt(s, 0)->Some_0).1, i);
            assert(stp is If || stp is While);
            let st1 = pa_run(file, i + 1)->Ok_0;
            assert forall|j: int| 0 <= j < st1.record.len() implies (#[trigger] st1.record[j]
                is If || st1.record[j] is While) by {
                if j < st0.record.len() {
                    assert(st1.record[j] == st0.record[j]);
                } else {
                    assert(st1.record[j] == stp);
                }
            }
        } else {
            assert(st0.local.len() >= 1);
        }
    }
    let st1 = pa_run(file, i + 1)->Ok_0;
    assert forall|j: int, k: Seq<char>|
        0 <= j < i + 1 && #[trigger] decl_line_names(file, j, k) implies name_covered(
        st1,
        k,
    ) by {
        if j == i {
            assert(has_prefix(trimmed(file[i]), "TO"@));
            let d = (spec_parse_decl(s, 0)->Some_0).1;
            assert(st1.func == Some(d));
        } else {
            assert(name_covered(st0, k));
            if has_prefix(t, "TO"@) {
                assert(st0.func is None);
                assert(assoc_contains(st0.res, k));
                assert(st1.res == st0.res);
            } else if seq_is(t, "END"@) {
                assert(st0.func is Some);
                let d = st0.func->Some_0;
                assert(d.name is Named);
                let nm = d.name->Named_0;
                if st0.local.len() > 0 {
                    crate::structs::lemma_assoc_set_get(
                        st0.res,
                        nm,
                        FunctionTypeV { args: d.var, stmt_list: st0.local.last() },
                        k,
                    );
                    assert(name_covered(st1, k));
                }
            } else {
                assert(st1.res == st0.res && st1.func == st0.func);
            }
        }
    }
}

/// While the scan stays balanced and every line is clean, assembly never
/// fails and the two phases agree.
pub proof fn lemma_pa_run_ok(file: Seq<Seq<char>>, i: int)
    requires
        0 <= i <= file.len(),
        sc_run(file, file.len() as int) is Ok,
        forall|j: int| 0 <= j < file.len() ==> #[trigger] line_clean(file, j),
        distinct_decl_names(file),
    ensures
        pa_run(file, i) is Ok,
        phases_agree(pa_run(file, i)->Ok_0, sc_run(file, i)->Ok_0),
        forall|j: int, k: Seq<char>|
            0 <= j < i && #[trigger] decl_line_names(file, j, k) ==> name_covered(
                pa_run(file, i)->Ok_0,
                k,
            ),
    decreases i,
{
    let n = file.len() as int;
    lemma_sc_run_prefix(file, i, n);
    if i > 0 {
        lemma_pa_run_ok(file, i - 1);
        lemma_pa_run_keys(file, i - 1);
        lemma_sc_run_prefix(file, i - 1, n);
        lemma_pa_step_ok(file, i - 1);
    }
}

/// The first table law: a balanced program whose lines are all clean,
/// with pairwise distinct declaration names, parses, and its function
/// table holds exactly the declared names plus the anonymous top-level
/// entry.
pub proof fn lemma_parse_ast_succeeds(file: Seq<Seq<char>>)
    requires
        spec_struct_check(file) is Ok,
        forall|j: int| 0 <= j < file.len() ==> #[trigger] line_clean(file, j),
        distinct_decl_names(file),
    ensures
        spec_parse_ast(file) is Ok,
        forall|k: Seq<char>|
            assoc_contains(spec_parse_ast(file)->Ok_0, k) <==> (k == Seq::<char>::empty()
                || exists|j: int| #[trigger] decl_line_names(file, j, k)),
{
    let n = file.len() as int;
    lemma_pa_run_ok(file, n);
    let st = pa_run(file, n)->Ok_0;
    let sst = sc_run(file, n)->Ok_0;
    assert(sst.to == 0 && sst.list.len() == 0);
    assert(st.func is None);
    assert(st.local.len() == 1);
    lemma_parse_ast_declared_names(file);
    let table = spec_parse_ast(file)->Ok_0;
    let main = FunctionTypeV { args: Seq::empty(), stmt_list: st.local.last() };
    assert(table == crate::structs::assoc_set(st.res, Seq::<char>::empty(), main));
    assert forall|k: Seq<char>|
        assoc_contains(table, k) <==> (k == Seq::<char>::empty() || exists|j: int|
            #[trigger] decl_line_names(file, j, k)) by {
        crate::structs::lemma_assoc_set_get(st.res, Seq::<char>::empty(), main, k);
        if k != Seq::<char>::empty() && exists|j: int| #[trigger] decl_line_names(file, j, k) {
            let j = choose|j: int| #[trigger] decl_line_names(file, j, k);
            assert(0 <= j < n) by {
                assert(decl_line_names(file, j, k));
            }
            assert(name_covered(st, k));
            assert(assoc_contains(st.res, k));
        }
        if k == Seq::<char>::empty() {
            assert(assoc_contains(table, k));
        }
    }
}

} // verus!
