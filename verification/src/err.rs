//! Diagnostics for parsing and assembly: the positioned error record, the
//! mapper from internal `(kind, end, len)` triples to it, and the post-parse
//! walks that surface the first error leaf left in a tree.

use vstd::prelude::*;

use crate::structs::{
    assigns_view, exprs_view, Assign, AssignV, Decl, DeclName, DeclNameV, DeclV, ErrKind, Expr,
    ExprV, Stmt, StmtV,
};

verus! {

/// A positioned diagnostic: the offending source excerpt, the span
/// `(start, len)` within it, the line number reported, and the kind; the
/// fixed remediation hint and the positioned message come from `help` and
/// `message`.
#[derive(Debug, PartialEq)]
pub struct ASTError {
    pub kind: ErrKind,
    pub src: Vec<char>,
    pub start: usize,
    pub len: usize,
    pub line: usize,
}

/// Ghost form of a positioned diagnostic.
pub struct ErrV {
    pub kind: ErrKind,
    pub src: Seq<char>,
    pub start: int,
    pub len: int,
    pub line: int,
}

impl View for ASTError {
    type V = ErrV;

    open spec fn view(&self) -> ErrV {
        ErrV {
            kind: self.kind,
            src: self.src@,
            start: self.start as int,
            len: self.len as int,
            line: self.line as int,
        }
    }
}

/// The mapping that `match_err` performs, in ghost form: the span start is
/// recovered from the excerpt length, the distance from its end, and the
/// span length, without re-scanning the source.
pub open spec fn spec_match_err(
    src: Seq<char>,
    line: int,
    err: ErrKind,
    end: int,
    len: int,
) -> ErrV {
    ErrV { kind: err, src: src, start: src.len() - end - len, len: len, line: line }
}

/// Turns an internal `(kind, end-offset, length)` triple into a positioned
/// error anchored to the offending excerpt.
pub fn match_err(src: Vec<char>, line: usize, err: ErrKind, end: usize, len: usize) -> (r: ASTError)
    requires
        end + len <= src@.len(),
    ensures
        r@ == spec_match_err(src@, line as int, err, end as int, len as int),
{
    let start = src.len() - end - len;
    ASTError { kind: err, src, start, len, line }
}

pub open spec fn opt_err_view(r: Option<(ErrKind, usize, usize)>) -> Option<(ErrKind, int, int)> {
    match r {
        Some((k, e, l)) => Some((k, e as int, l as int)),
        None => None,
    }
}

/// The first error leaf of an expression tree, walking the left operand
/// of every binary node before the right one.
pub open spec fn spec_check_expr_err(e: ExprV) -> Option<(ErrKind, int, int)>
    decreases e,
{
    match e {
        ExprV::Add(a, b, _, _)
        | ExprV::Sub(a, b, _, _)
        | ExprV::Mul(a, b, _, _)
        | ExprV::Div(a, b, _, _)
        | ExprV::Eq(a, b, _, _)
        | ExprV::Ne(a, b, _, _)
        | ExprV::Lt(a, b, _, _)
        | ExprV::Gt(a, b, _, _)
        | ExprV::And(a, b, _, _)
        | ExprV::Or(a, b, _, _) => match spec_check_expr_err(*a) {
            Some(t) => Some(t),
            None => spec_check_expr_err(*b),
        },
        ExprV::Error(k, n, l) => Some((k, n, l)),
        _ => None,
    }
}

pub fn check_expr_err(input: &Expr) -> (r: Option<(ErrKind, usize, usize)>)
    ensures
        opt_err_view(r) == spec_check_expr_err(input@),
    decreases *input,
{
    match input {
        Expr::Add(a, b, _, _)
        | Expr::Sub(a, b, _, _)
        | Expr::Mul(a, b, _, _)
        | Expr::Div(a, b, _, _)
        | Expr::Eq(a, b, _, _)
        | Expr::Ne(a, b, _, _)
        | Expr::Lt(a, b, _, _)
        | Expr::Gt(a, b, _, _)
        | Expr::And(a, b, _, _)
        | Expr::Or(a, b, _, _) => {
            if let Some(t) = check_expr_err(a) {
                return Some(t);
            }
            check_expr_err(b)
        },
        Expr::Error(k, n, l) => Some((*k, *n, *l)),
        _ => None,
    }
}

pub open spec fn spec_check_assign_err(a: AssignV) -> Option<(ErrKind, int, int)> {
    match a {
        AssignV::Error(k, n, l) => Some((k, n, l)),
        _ => None,
    }
}

pub fn check_assign_err(input: &Assign) -> (r: Option<(ErrKind, usize, usize)>)
    ensures
        opt_err_view(r) == spec_check_assign_err(input@),
{
    match input {
        Assign::Error(k, n, l) => Some((*k, *n, *l)),
        _ => None,
    }
}

pub open spec fn spec_check_decl_name_err(d: DeclNameV) -> Option<(ErrKind, int, int)> {
    match d {
        DeclNameV::Error(k, n, l) => Some((k, n, l)),
        _ => None,
    }
}

pub fn check_decl_name_err(input: &DeclName) -> (r: Option<(ErrKind, usize, usize)>)
    ensures
        opt_err_view(r) == spec_check_decl_name_err(input@),
{
    match input {
        DeclName::Error(k, n, l) => Some((*k, *n, *l)),
        _ => None,
    }
}

/// First error among the formal parameters of a declaration.
pub open spec fn spec_check_params_err(vars: Seq<AssignV>) -> Option<(ErrKind, int, int)>
    decreases vars.len(),
{
    if vars.len() == 0 {
        None
    } else {
        match vars[0] {
            AssignV::Error(k, n, l) => Some((k, n, l)),
            _ => spec_check_params_err(vars.drop_first()),
        }
    }
}

/// First error in a declaration header: its name, then its parameters in
/// order.
pub open spec fn spec_check_decl_err(d: DeclV) -> Option<(ErrKind, int, int)> {
    match d.name {
        DeclNameV::Error(k, n, l) => Some((k, n, l)),
        _ => spec_check_params_err(d.var),
    }
}

pub fn check_decl_err(input: &Decl) -> (r: Option<(ErrKind, usize, usize)>)
    ensures
        opt_err_view(r) == spec_check_decl_err(input@),
{
    if let DeclName::Error(k, n, l) = &*input.name {
        return Some((*k, *n, *l));
    }
    proof {
        assert(assigns_view(input.var@).skip(0) =~= assigns_view(input.var@));
    }
    let mut i: usize = 0;
    while i < input.var.len()
        invariant
            0 <= i <= input.var@.len(),
            spec_check_decl_name_err(input@.name) is None,
            spec_check_params_err(assigns_view(input.var@)) == spec_check_params_err(
                assigns_view(input.var@).skip(i as int),
            ),
        decreases input.var@.len() - i,
    {
        let ghost vars = assigns_view(input.var@);
        if let Assign::Error(k, n, l) = &*input.var[i] {
            proof {
                assert(vars.skip(i as int)[0] == vars[i as int]);
            }
            return Some((*k, *n, *l));
        }
        proof {
            assert(vars.skip(i as int)[0] == vars[i as int]);
            assert(vars.skip(i as int).drop_first() =~= vars.skip(i + 1));
        }
        i += 1;
    }
    proof {
        assert(assigns_view(input.var@).skip(i as int).len() == 0);
    }
    None
}

/// First error visible in a freshly parsed statement: condition expressions
/// for blocks, target before value for assignments, name before first
/// argument for calls.
pub open spec fn spec_check_stmt_err(s: StmtV) -> Option<(ErrKind, int, int)> {
    match s {
        StmtV::If(e, _, _) | StmtV::While(e, _, _) => spec_check_expr_err(e),
        StmtV::Make(a, e, _) | StmtV::AddAssign(a, e, _) => match spec_check_assign_err(a) {
            Some(t) => Some(t),
            None => spec_check_expr_err(e),
        },
        StmtV::Forward(e, _)
        | StmtV::Back(e, _)
        | StmtV::Left(e, _)
        | StmtV::Right(e, _)
        | StmtV::SetPenColor(e, _)
        | StmtV::Turn(e, _)
        | StmtV::SetHeading(e, _)
        | StmtV::SetX(e, _)
        | StmtV::SetY(e, _) => spec_check_expr_err(e),
        StmtV::Func(name, args, _) => match spec_check_decl_name_err(name) {
            Some(t) => Some(t),
            None => spec_check_args_err(args),
        },
        _ => None,
    }
}

/// First error among a call's arguments, in order.
pub open spec fn spec_check_args_err(args: Seq<ExprV>) -> Option<(ErrKind, int, int)>
    decreases args.len(),
{
    if args.len() == 0 {
        None
    } else {
        match spec_check_expr_err(args[0]) {
            Some(t) => Some(t),
            None => spec_check_args_err(args.drop_first()),
        }
    }
}

pub fn check_stmt_err(input: &Stmt) -> (r: Option<(ErrKind, usize, usize)>)
    ensures
        opt_err_view(r) == spec_check_stmt_err(input@),
{
    match input {
        Stmt::If(e, _, _) | Stmt::While(e, _, _) => check_expr_err(e),
        Stmt::Make(a, e, _) | Stmt::AddAssign(a, e, _) => {
            if let Some(t) = check_assign_err(a) {
                return Some(t);
            }
            check_expr_err(e)
        },
        Stmt::Forward(e, _)
        | Stmt::Back(e, _)
        | Stmt::Left(e, _)
        | Stmt::Right(e, _)
        | Stmt::SetPenColor(e, _)
        | Stmt::Turn(e, _)
        | Stmt::SetHeading(e, _)
        | Stmt::SetX(e, _)
        | Stmt::SetY(e, _) => check_expr_err(e),
        Stmt::Func(name, args, _) => {
            if let Some(t) = check_decl_name_err(name) {
                return Some(t);
            }
            proof {
                assert(exprs_view(args@).skip(0) =~= exprs_view(args@));
            }
            let mut i: usize = 0;
            while i < args.len()
                invariant
                    0 <= i <= args@.len(),
                    spec_check_stmt_err(input@) == spec_check_args_err(exprs_view(args@)),
                    spec_check_args_err(exprs_view(args@)) == spec_check_args_err(
                        exprs_view(args@).skip(i as int),
                    ),
                decreases args@.len() - i,
            {
                let ghost av = exprs_view(args@);
                proof {
                    assert(av.skip(i as int)[0] == av[i as int]);
                    assert(av[i as int] == args@[i as int]@);
                    assert(av.skip(i as int).drop_first() =~= av.skip(i + 1));
                }
                if let Some(t) = check_expr_err(&args[i]) {
                    return Some(t);
                }
                i += 1;
            }
            proof {
                assert(exprs_view(args@).skip(i as int).len() == 0);
            }
            None
        },
        _ => None,
    }
}


/// An error surfaced by the shallow expression walk lies within the spans
/// the expression records.
pub proof fn lemma_check_expr_err_spans(e: ExprV, len: int)
    requires
        crate::expr::expr_spans_ok(e, len),
    ensures
        spec_check_expr_err(e) matches Some((k, n, l)) ==> 0 <= n && 0 <= l && n + l <= len,
    decreases e,
{
    match e {
        ExprV::Add(a, b, _, _)
        | ExprV::Sub(a, b, _, _)
        | ExprV::Mul(a, b, _, _)
        | ExprV::Div(a, b, _, _)
        | ExprV::Eq(a, b, _, _)
        | ExprV::Ne(a, b, _, _)
        | ExprV::Lt(a, b, _, _)
        | ExprV::Gt(a, b, _, _)
        | ExprV::And(a, b, _, _)
        | ExprV::Or(a, b, _, _) => {
            assert(crate::expr::expr_spans_ok(*a, len));
            assert(crate::expr::expr_spans_ok(*b, len));
            lemma_check_expr_err_spans(*a, len);
            lemma_check_expr_err_spans(*b, len);
        },
        _ => {},
    }
}

pub proof fn lemma_check_args_err_spans(args: Seq<ExprV>, len: int)
    requires
        crate::stmt::exprs_spans_ok(args, len),
    ensures
        spec_check_args_err(args) matches Some((k, n, l)) ==> 0 <= n && 0 <= l && n + l <= len,
    decreases args.len(),
{
    if args.len() > 0 {
        lemma_check_expr_err_spans(args[0], len);
        lemma_check_args_err_spans(args.drop_first(), len);
    }
}

pub proof fn lemma_check_stmt_err_spans(st: StmtV, len: int)
    requires
        crate::stmt::stmt_spans_ok(st, len),
    ensures
        spec_check_stmt_err(st) matches Some((k, n, l)) ==> 0 <= n && 0 <= l && n + l <= len,
{
    match st {
        StmtV::If(e, _, _) | StmtV::While(e, _, _) => lemma_check_expr_err_spans(e, len),
        StmtV::Make(a, e, _) | StmtV::AddAssign(a, e, _) => lemma_check_expr_err_spans(e, len),
        StmtV::Forward(e, _)
        | StmtV::Back(e, _)
        | StmtV::Left(e, _)
        | StmtV::Right(e, _)
        | StmtV::SetPenColor(e, _)
        | StmtV::Turn(e, _)
        | StmtV::SetHeading(e, _)
        | StmtV::SetX(e, _)
        | StmtV::SetY(e, _) => lemma_check_expr_err_spans(e, len),
        StmtV::Func(_, args, _) => {
            lemma_check_args_err_spans(args, len);
        },
        _ => {},
    }
}

pub proof fn lemma_check_params_err_spans(vars: Seq<AssignV>, len: int)
    requires
        forall|j: int|
            0 <= j < vars.len() ==> crate::structs::assign_span_ok(#[trigger] vars[j], len),
    ensures
        spec_check_params_err(vars) matches Some((k, n, l)) ==> 0 <= n && 0 <= l && n + l <= len,
    decreases vars.len(),
{
    if vars.len() > 0 {
        assert(crate::structs::assign_span_ok(vars[0], len));
        lemma_check_params_err_spans(vars.drop_first(), len);
        assert(forall|j: int|
            0 <= j < vars.drop_first().len() ==> vars.drop_first()[j] == vars[j + 1]);
    }
}

pub proof fn lemma_check_decl_err_spans(d: DeclV, len: int)
    requires
        crate::decl::name_span_ok(d.name, len),
        forall|j: int|
            0 <= j < d.var.len() ==> crate::structs::assign_span_ok(#[trigger] d.var[j], len),
    ensures
        spec_check_decl_err(d) matches Some((k, n, l)) ==> 0 <= n && 0 <= l && n + l <= len,
{
    lemma_check_params_err_spans(d.var, len);
}


/// The fixed remediation hint for each parse-time kind.
pub open spec fn spec_ast_help(k: ErrKind) -> Seq<char> {
    match k {
        ErrKind::UnexpectedExtraOperand => "Check the format of each command and remove redundant operand"@,
        ErrKind::InvalidNumber => "Try using a valid number"@,
        ErrKind::UnexpectedExpr => "If it is a variable, the format is `:{ variable_name }`. \nIf it is a number, the format is `\"{ number }`. \nIf it is a system variable, only `XCOR`, `YCOR`, `COLOR`, `HEADING` are allowed."@,
        ErrKind::MissingLeftBracket => "Add a left curly brace `[` to end of the `IF` or `WHILE` statement."@,
        ErrKind::MissingRightBracket => "Add a right curly brace `]` in a new line to end the `IF` or `WHILE` statement."@,
        ErrKind::MissingOperand => "Check the format of each command and Add the missing Operand."@,
        ErrKind::UnexpectedAssign => "Check the format of the variable name, the format is `\"{ variable_name }`."@,
        ErrKind::MissingEnd => "Add `END` to end the function declaration."@,
        ErrKind::MissingName => "Add a valid function name to the function declaration."@,
        ErrKind::InvalidName => "Change a valid function or variable name which need follow by the `Rust` function or variable name rules."@,
        ErrKind::MissingTo => "Add `TO` to start the function declaration."@,
        ErrKind::MissingWhileOrIf => "Add `IF` or `WHILE` to start the condition declaration."@,
        ErrKind::DeclWrongPosition => "Move the function declaration outside the `IF` or `WHILE` statement."@,
        ErrKind::RepeatFunctionName => "Change the function name to a unique name."@,
    }
}

/// The message label for each parse-time kind, up to the line number.
pub open spec fn spec_ast_label(k: ErrKind) -> Seq<char> {
    match k {
        ErrKind::UnexpectedExtraOperand => "Unexpected extra operands (Ln "@,
        ErrKind::InvalidNumber => "Invalid number (Ln "@,
        ErrKind::UnexpectedExpr => "Unexpected Expression (Ln "@,
        ErrKind::MissingLeftBracket => "Missing left curly brace (Ln "@,
        ErrKind::MissingRightBracket => "Missing right curly brace (Ln "@,
        ErrKind::MissingOperand => "Missing Operand (Ln "@,
        ErrKind::UnexpectedAssign => "Unexpected Assignment format(Ln "@,
        ErrKind::MissingEnd => "Missing END (Ln "@,
        ErrKind::MissingName => "Missing Function Name (Ln "@,
        ErrKind::InvalidName => "Invalid Function Name (Ln "@,
        ErrKind::MissingTo => "Missing Function declaration (Ln "@,
        ErrKind::MissingWhileOrIf => "Missing `IF` or `WHILE` (Ln "@,
        ErrKind::DeclWrongPosition => "Wrong Position of Function Declaration (Ln "@,
        ErrKind::RepeatFunctionName => "Repeat Function Name (Ln "@,
    }
}

/// The human-readable message: the kind's label, then the line and the
/// one-based column of the span start.
pub open spec fn spec_ast_message(k: ErrKind, line: int, start: int) -> Seq<char> {
    spec_ast_label(k) + crate::text::spec_dec(line) + ", Col "@ + crate::text::spec_dec(start + 1)
        + ")"@
}

impl ASTError {
    /// The fixed remediation hint for this diagnostic's kind.
    pub fn help(&self) -> (r: &'static str)
        ensures
            r@ == spec_ast_help(self.kind),
    {
        match self.kind {
            ErrKind::UnexpectedExtraOperand => "Check the format of each command and remove redundant operand",
            ErrKind::InvalidNumber => "Try using a valid number",
            ErrKind::UnexpectedExpr => "If it is a variable, the format is `:{ variable_name }`. \nIf it is a number, the format is `\"{ number }`. \nIf it is a system variable, only `XCOR`, `YCOR`, `COLOR`, `HEADING` are allowed.",
            ErrKind::MissingLeftBracket => "Add a left curly brace `[` to end of the `IF` or `WHILE` statement.",
            ErrKind::MissingRightBracket => "Add a right curly brace `]` in a new line to end the `IF` or `WHILE` statement.",
            ErrKind::MissingOperand => "Check the format of each command and Add the missing Operand.",
            ErrKind::UnexpectedAssign => "Check the format of the variable name, the format is `\"{ variable_name }`.",
            ErrKind::MissingEnd => "Add `END` to end the function declaration.",
            ErrKind::MissingName => "Add a valid function name to the function declaration.",
            ErrKind::InvalidName => "Change a valid function or variable name which need follow by the `Rust` function or variable name rules.",
            ErrKind::MissingTo => "Add `TO` to start the function declaration.",
            ErrKind::MissingWhileOrIf => "Add `IF` or `WHILE` to start the condition declaration.",
            ErrKind::DeclWrongPosition => "Move the function declaration outside the `IF` or `WHILE` statement.",
            ErrKind::RepeatFunctionName => "Change the function name to a unique name.",
        }
    }

    /// The positioned message, citing the reported line number and the
    /// one-based column of the span start.
    pub fn message(&self) -> (r: Vec<char>)
        requires
            self.start < usize::MAX,
        ensures
            r@ == spec_ast_message(self.kind, self.line as int, self.start as int),
    {
        let mut out: Vec<char> = Vec::new();
        match self.kind {
            ErrKind::UnexpectedExtraOperand => crate::text::push_lit(
                &mut out,
                "Unexpected extra operands (Ln ",
            ),
            ErrKind::InvalidNumber => crate::text::push_lit(&mut out, "Invalid number (Ln "),
            ErrKind::UnexpectedExpr => crate::text::push_lit(
                &mut out,
                "Unexpected Expression (Ln ",
            ),
            ErrKind::MissingLeftBracket => crate::text::push_lit(
                &mut out,
                "Missing left curly brace (Ln ",
            ),
            ErrKind::MissingRightBracket => crate::text::push_lit(
                &mut out,
                "Missing right curly brace (Ln ",
            ),
            ErrKind::MissingOperand => crate::text::push_lit(&mut out, "Missing Operand (Ln "),
            ErrKind::UnexpectedAssign => crate::text::push_lit(
                &mut out,
                "Unexpected Assignment format(Ln ",
            ),
            ErrKind::MissingEnd => crate::text::push_lit(&mut out, "Missing END (Ln "),
            ErrKind::MissingName => crate::text::push_lit(&mut out, "Missing Function Name (Ln "),
            ErrKind::InvalidName => crate::text::push_lit(&mut out, "Invalid Function Name (Ln "),
            ErrKind::MissingTo => crate::text::push_lit(
                &mut out,
                "Missing Function declaration (Ln ",
            ),
            ErrKind::MissingWhileOrIf => crate::text::push_lit(
                &mut out,
                "Missing `IF` or `WHILE` (Ln ",
            ),
            ErrKind::DeclWrongPosition => crate::text::push_lit(
                &mut out,
                "Wrong Position of Function Declaration (Ln ",
            ),
            ErrKind::RepeatFunctionName => crate::text::push_lit(
                &mut out,
                "Repeat Function Name (Ln ",
            ),
        }
        let ln = crate::text::usize_chars(self.line);
        crate::text::push_chars(&mut out, &ln);
        crate::text::push_lit(&mut out, ", Col ");
        let col = crate::text::usize_chars(self.start + 1);
        crate::text::push_chars(&mut out, &col);
        crate::text::push_lit(&mut out, ")");
        out
    }
}

} // verus!
