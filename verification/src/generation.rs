//! The shared evaluation semantics, as a step machine.  Walking statements
//! and expressions, the flat environment, type rules and error selection
//! are all decided here and verified; every numeric operation and every
//! touch of the drawing surface is delegated to the caller as an `Action`,
//! whose outcome comes back as an `Event`.  Numbers travel as IEEE-754
//! single-precision bit patterns, which this module never interprets.

use vstd::prelude::*;

use crate::expr::BinOp;
use crate::structs::{
    assoc_get, assoc_set, spec_end_len, Assign, AssignV, DeclName, ErrKind, Expr, ExprV,
    Function, FunctionTypeV, Stmt, StmtV,
};
use crate::variable::{Type, Variable};

verus! {

/// A runtime value: a number (as bits) or a boolean.
#[derive(Debug, Clone, Copy, PartialEq, Eq, Structural)]
pub enum Value {
    F(u32),
    B(bool),
}

/// The failure kinds evaluation can report.
#[derive(Debug, Clone, Copy, PartialEq, Eq, Structural)]
pub enum GenErrKind {
    UnexpectedNumberType,
    UnexpectedBooleanType,
    DivideByZero,
    UnmatchedExprType,
    NonIntegerValueError,
    UnDefinedColor,
    UnDefinedVariable,
    UnDefinedVariableValue,
    UnDefinedFunction,
    TooManyArguments,
    MissingArguments,
}

/// A positioned evaluation diagnostic, anchored to the offending sentence.
#[derive(Debug, PartialEq)]
pub struct GenerationError {
    pub kind: GenErrKind,
    pub src: Vec<char>,
    pub start: usize,
    pub len: usize,
    pub line: usize,
}

pub struct GenErrV {
    pub kind: GenErrKind,
    pub src: Seq<char>,
    pub start: int,
    pub len: int,
    pub line: int,
}

impl View for GenerationError {
    type V = GenErrV;

    open spec fn view(&self) -> GenErrV {
        GenErrV {
            kind: self.kind,
            src: self.src@,
            start: self.start as int,
            len: self.len as int,
            line: self.line as int,
        }
    }
}

pub open spec fn spec_gen_err(
    src: Seq<char>,
    line: int,
    err: GenErrKind,
    end: int,
    len: int,
) -> GenErrV {
    GenErrV { kind: err, src: src, start: src.len() - end - len, len: len, line: line }
}

/// Turns an internal `(kind, end-offset, length)` triple into a positioned
/// evaluation error.
pub fn match_err(
    src: Vec<char>,
    line: usize,
    err: GenErrKind,
    end: usize,
    len: usize,
) -> (r: GenerationError)
    requires
        end + len <= src@.len(),
    ensures
        r@ == spec_gen_err(src@, line as int, err, end as int, len as int),
{
    let start = src.len() - end - len;
    GenerationError { kind: err, src, start, len, line }
}

/// The span of an expression node, as the evaluator reads it back.
pub fn get_end_len(expr: &Expr) -> (r: (usize, usize))
    ensures
        (r.0 as int, r.1 as int) == spec_end_len(expr@),
{
    match expr {
        Expr::Boolean(_, n, l) => (*n, *l),
        Expr::Float(_, n, l) => (*n, *l),
        Expr::Var(_, n, l) => (*n, *l),
        Expr::Add(_, _, n, l) => (*n, *l),
        Expr::Sub(_, _, n, l) => (*n, *l),
        Expr::Mul(_, _, n, l) => (*n, *l),
        Expr::Div(_, _, n, l) => (*n, *l),
        Expr::Eq(_, _, n, l) => (*n, *l),
        Expr::Ne(_, _, n, l) => (*n, *l),
        Expr::Lt(_, _, n, l) => (*n, *l),
        Expr::Gt(_, _, n, l) => (*n, *l),
        Expr::And(_, _, n, l) => (*n, *l),
        Expr::Or(_, _, n, l) => (*n, *l),
        Expr::XCor(n, l) => (*n, *l),
        Expr::YCor(n, l) => (*n, *l),
        Expr::Heading(n, l) => (*n, *l),
        Expr::Color(n, l) => (*n, *l),
        Expr::Error(_, n, l) => (*n, *l),
    }
}

/// What the machine asks its driver to do next.  Arithmetic, comparison,
/// parsing, formatting and classification of numbers act on bit patterns;
/// the turtle commands act on the drawing surface; the read commands
/// return the turtle's state.
#[derive(Debug, PartialEq)]
pub enum Action {
    Add(u32, u32),
    Sub(u32, u32),
    Mul(u32, u32),
    Div(u32, u32),
    EqZero(u32),
    EqNum(u32, u32),
    NeNum(u32, u32),
    LtNum(u32, u32),
    GtNum(u32, u32),
    ParseNum(Vec<char>),
    IsInt(u32),
    InColorRange(u32),
    Trunc(u32),
    PenUp,
    PenDown,
    Move(i32, u32),
    SetColor(usize),
    Turn(i32),
    SetHeading(i32),
    SetX(u32),
    SetY(u32),
    ReadX,
    ReadY,
    ReadHeading,
    ReadColor,
}

#[verifier::ext_equal]
pub enum ActionV {
    Add(u32, u32),
    Sub(u32, u32),
    Mul(u32, u32),
    Div(u32, u32),
    EqZero(u32),
    EqNum(u32, u32),
    NeNum(u32, u32),
    LtNum(u32, u32),
    GtNum(u32, u32),
    ParseNum(Seq<char>),
    IsInt(u32),
    InColorRange(u32),
    Trunc(u32),
    PenUp,
    PenDown,
    Move(i32, u32),
    SetColor(usize),
    Turn(i32),
    SetHeading(i32),
    SetX(u32),
    SetY(u32),
    ReadX,
    ReadY,
    ReadHeading,
    ReadColor,
}

impl View for Action {
    type V = ActionV;

    open spec fn view(&self) -> ActionV {
        match *self {
            Action::Add(a, b) => ActionV::Add(a, b),
            Action::Sub(a, b) => ActionV::Sub(a, b),
            Action::Mul(a, b) => ActionV::Mul(a, b),
            Action::Div(a, b) => ActionV::Div(a, b),
            Action::EqZero(a) => ActionV::EqZero(a),
            Action::EqNum(a, b) => ActionV::EqNum(a, b),
            Action::NeNum(a, b) => ActionV::NeNum(a, b),
            Action::LtNum(a, b) => ActionV::LtNum(a, b),
            Action::GtNum(a, b) => ActionV::GtNum(a, b),
            Action::ParseNum(ref t) => ActionV::ParseNum(t@),
            Action::IsInt(a) => ActionV::IsInt(a),
            Action::InColorRange(a) => ActionV::InColorRange(a),
            Action::Trunc(a) => ActionV::Trunc(a),
            Action::PenUp => ActionV::PenUp,
            Action::PenDown => ActionV::PenDown,
            Action::Move(o, d) => ActionV::Move(o, d),
            Action::SetColor(c) => ActionV::SetColor(c),
            Action::Turn(a) => ActionV::Turn(a),
            Action::SetHeading(a) => ActionV::SetHeading(a),
            Action::SetX(v) => ActionV::SetX(v),
            Action::SetY(v) => ActionV::SetY(v),
            Action::ReadX => ActionV::ReadX,
            Action::ReadY => ActionV::ReadY,
            Action::ReadHeading => ActionV::ReadHeading,
            Action::ReadColor => ActionV::ReadColor,
        }
    }
}

pub open spec fn opt_action_view(r: Option<Action>) -> Option<ActionV> {
    match r {
        Some(a) => Some(a@),
        None => None,
    }
}

/// What the driver hands back for the latest action: a number's bits, a
/// truth value, a truncated integer, or a plain acknowledgement for the
/// turtle commands.
#[derive(Debug, Clone, Copy, PartialEq, Eq, Structural)]
pub enum Event {
    Num(u32),
    Bool(bool),
    Int(i32),
    Ack,
}

/// A pending control entry of the walk.
#[derive(Debug, PartialEq)]
pub enum Ctl {
    /// Execute a statement list from an index on.
    Stmts(Vec<Stmt>, usize),
    /// Evaluate an expression; its value lands on the value stack.
    Eval(Expr, usize),
    /// Combine the two freshly evaluated operands of a binary node.
    Apply { op: BinOp, end: usize, len: usize, le: usize, ll: usize, re: usize, rl: usize, line: usize },
    /// Enter the body when the freshly evaluated condition is true.
    IfJudge { body: Vec<Stmt>, end: usize, len: usize, line: usize },
    /// Re-run body and condition while the condition stays true.
    WhileJudge { cond: Expr, body: Vec<Stmt>, line: usize },
    /// Bind the freshly evaluated value to a `MAKE` target.
    MakeFin { target: Assign, line: usize },
    /// Add the freshly evaluated value to the target's old number.
    AddAssignFin { name: Vec<char>, org: u32, end: usize, len: usize, line: usize },
    /// Move by the freshly evaluated distance at a fixed heading offset.
    MoveFin { offset: i32, end: usize, len: usize, line: usize },
    /// Check and apply the freshly evaluated pen color.
    ColorFin { end: usize, len: usize, line: usize },
    /// Check and apply the freshly evaluated turn or heading angle.
    TurnFin { heading: bool, end: usize, len: usize, line: usize },
    /// Apply the freshly evaluated absolute coordinate.
    SetXYFin { isx: bool, end: usize, len: usize, line: usize },
    /// Bind the freshly evaluated argument to a formal parameter.
    BindArg { target: Assign },
    /// Reject a boolean left operand of an arithmetic node before its
    /// right operand is evaluated, as the recursive walk did.
    NumCheck { end: usize, len: usize, line: usize },
}

#[verifier::ext_equal]
pub enum CtlV {
    Stmts(Seq<StmtV>, int),
    Eval(ExprV, int),
    Apply { op: BinOp, end: int, len: int, le: int, ll: int, re: int, rl: int, line: int },
    IfJudge { body: Seq<StmtV>, end: int, len: int, line: int },
    WhileJudge { cond: ExprV, body: Seq<StmtV>, line: int },
    MakeFin { target: AssignV, line: int },
    AddAssignFin { name: Seq<char>, org: u32, end: int, len: int, line: int },
    MoveFin { offset: i32, end: int, len: int, line: int },
    ColorFin { end: int, len: int, line: int },
    TurnFin { heading: bool, end: int, len: int, line: int },
    SetXYFin { isx: bool, end: int, len: int, line: int },
    BindArg { target: AssignV },
    NumCheck { end: int, len: int, line: int },
}

impl View for Ctl {
    type V = CtlV;

    open spec fn view(&self) -> CtlV {
        match *self {
            Ctl::Stmts(ref l, i) => CtlV::Stmts(crate::structs::stmts_view(l@), i as int),
            Ctl::Eval(ref e, line) => CtlV::Eval(e@, line as int),
            Ctl::Apply { op, end, len, le, ll, re, rl, line } => CtlV::Apply {
                op,
                end: end as int,
                len: len as int,
                le: le as int,
                ll: ll as int,
                re: re as int,
                rl: rl as int,
                line: line as int,
            },
            Ctl::IfJudge { ref body, end, len, line } => CtlV::IfJudge {
                body: crate::structs::stmts_view(body@),
                end: end as int,
                len: len as int,
                line: line as int,
            },
            Ctl::WhileJudge { ref cond, ref body, line } => CtlV::WhileJudge {
                cond: cond@,
                body: crate::structs::stmts_view(body@),
                line: line as int,
            },
            Ctl::MakeFin { ref target, line } => CtlV::MakeFin {
                target: target@,
                line: line as int,
            },
            Ctl::AddAssignFin { ref name, org, end, len, line } => CtlV::AddAssignFin {
                name: name@,
                org,
                end: end as int,
                len: len as int,
                line: line as int,
            },
            Ctl::MoveFin { offset, end, len, line } => CtlV::MoveFin {
                offset,
                end: end as int,
                len: len as int,
                line: line as int,
            },
            Ctl::ColorFin { end, len, line } => CtlV::ColorFin {
                end: end as int,
                len: len as int,
                line: line as int,
            },
            Ctl::TurnFin { heading, end, len, line } => CtlV::TurnFin {
                heading,
                end: end as int,
                len: len as int,
                line: line as int,
            },
            Ctl::SetXYFin { isx, end, len, line } => CtlV::SetXYFin {
                isx,
                end: end as int,
                len: len as int,
                line: line as int,
            },
            Ctl::BindArg { ref target } => CtlV::BindArg { target: target@ },
            Ctl::NumCheck { end, len, line } => CtlV::NumCheck {
                end: end as int,
                len: len as int,
                line: line as int,
            },
        }
    }
}

pub open spec fn ctls_view(s: Seq<Ctl>) -> Seq<CtlV> {
    Seq::new(
        s.len(),
        |i: int|
            if 0 <= i < s.len() {
                s[i]@
            } else {
                arbitrary()
            },
    )
}

/// What the machine is waiting to hear back, and how to resume.
#[derive(Debug, PartialEq)]
pub enum Await {
    PushNum,
    PushBool,
    DivCheck { a: u32, b: u32, end: usize, len: usize, line: usize },
    ColorIsInt { v: u32, end: usize, len: usize, line: usize },
    ColorRange { v: u32, end: usize, len: usize, line: usize },
    ColorSet { end: usize, len: usize, line: usize },
    TurnIsInt { v: u32, heading: bool, end: usize, len: usize, line: usize },
    TurnSet { heading: bool },
    AddAssignBind { name: Vec<char> },
    Ack,
}

#[verifier::ext_equal]
pub enum AwaitV {
    PushNum,
    PushBool,
    DivCheck { a: u32, b: u32, end: int, len: int, line: int },
    ColorIsInt { v: u32, end: int, len: int, line: int },
    ColorRange { v: u32, end: int, len: int, line: int },
    ColorSet { end: int, len: int, line: int },
    TurnIsInt { v: u32, heading: bool, end: int, len: int, line: int },
    TurnSet { heading: bool },
    AddAssignBind { name: Seq<char> },
    Ack,
}

impl View for Await {
    type V = AwaitV;

    open spec fn view(&self) -> AwaitV {
        match *self {
            Await::PushNum => AwaitV::PushNum,
            Await::PushBool => AwaitV::PushBool,
            Await::DivCheck { a, b, end, len, line } => AwaitV::DivCheck {
                a,
                b,
                end: end as int,
                len: len as int,
                line: line as int,
            },
            Await::ColorIsInt { v, end, len, line } => AwaitV::ColorIsInt {
                v,
                end: end as int,
                len: len as int,
                line: line as int,
            },
            Await::ColorRange { v, end, len, line } => AwaitV::ColorRange {
                v,
                end: end as int,
                len: len as int,
                line: line as int,
            },
            Await::ColorSet { end, len, line } => AwaitV::ColorSet {
                end: end as int,
                len: len as int,
                line: line as int,
            },
            Await::TurnIsInt { v, heading, end, len, line } => AwaitV::TurnIsInt {
                v,
                heading,
                end: end as int,
                len: len as int,
                line: line as int,
            },
            Await::TurnSet { heading } => AwaitV::TurnSet { heading },
            Await::AddAssignBind { ref name } => AwaitV::AddAssignBind { name: name@ },
            Await::Ack => AwaitV::Ack,
        }
    }
}

/// Whether the machine runs, waits for an event, or has finished.
#[derive(Debug, PartialEq)]
pub enum Mode {
    Run,
    Waiting(Await),
    Done(Result<(), GenerationError>),
}

#[verifier::ext_equal]
pub enum ModeV {
    Run,
    Waiting(AwaitV),
    Done(Result<(), GenErrV>),
}

impl View for Mode {
    type V = ModeV;

    open spec fn view(&self) -> ModeV {
        match *self {
            Mode::Run => ModeV::Run,
            Mode::Waiting(ref a) => ModeV::Waiting(a@),
            Mode::Done(Ok(())) => ModeV::Done(Ok(())),
            Mode::Done(Err(ref e)) => ModeV::Done(Err(e@)),
        }
    }
}

/// The machine configuration: the control stack (top at the end), the
/// operand stack, the variable environment, and the mode.
pub struct Machine {
    pub ctl: Vec<Ctl>,
    pub vals: Vec<Value>,
    pub vars: Variable,
    pub mode: Mode,
}

#[verifier::ext_equal]
pub struct MachineV {
    pub ctl: Seq<CtlV>,
    pub vals: Seq<Value>,
    pub vars: Seq<(Seq<char>, Option<Type>)>,
    pub mode: ModeV,
}

impl View for Machine {
    type V = MachineV;

    open spec fn view(&self) -> MachineV {
        MachineV { ctl: ctls_view(self.ctl@), vals: self.vals@, vars: self.vars@, mode: self.mode@ }
    }
}


// ---------------------------------------------------------------------------
// The ghost step.
// ---------------------------------------------------------------------------

pub open spec fn with_push(m: MachineV, v: Value) -> MachineV {
    MachineV { ctl: m.ctl, vals: m.vals.push(v), vars: m.vars, mode: ModeV::Run }
}

pub open spec fn with_wait(m: MachineV, aw: AwaitV) -> MachineV {
    MachineV { ctl: m.ctl, vals: m.vals, vars: m.vars, mode: ModeV::Waiting(aw) }
}

pub open spec fn with_run(m: MachineV) -> MachineV {
    MachineV { ctl: m.ctl, vals: m.vals, vars: m.vars, mode: ModeV::Run }
}

pub open spec fn with_ctl(m: MachineV, ctl: Seq<CtlV>) -> MachineV {
    MachineV { ctl: ctl, vals: m.vals, vars: m.vars, mode: ModeV::Run }
}

pub open spec fn with_vars(m: MachineV, vars: Seq<(Seq<char>, Option<Type>)>) -> MachineV {
    MachineV { ctl: m.ctl, vals: m.vals, vars: vars, mode: ModeV::Run }
}

/// Halts with a positioned error; a span that does not fit its sentence
/// never arises from a parsed program and degrades to an unpositioned
/// error of the same kind.
pub open spec fn finish(
    m: MachineV,
    file: Seq<Seq<char>>,
    line: int,
    kind: GenErrKind,
    end: int,
    len: int,
) -> MachineV {
    let e = if 0 <= line < file.len() && 0 <= end && 0 <= len && end + len <= file[line].len() {
        spec_gen_err(file[line], line, kind, end, len)
    } else {
        GenErrV { kind: kind, src: Seq::empty(), start: 0, len: 0, line: line }
    };
    MachineV { ctl: m.ctl, vals: m.vals, vars: m.vars, mode: ModeV::Done(Err(e)) }
}

/// Resumes after an event.  An event of the wrong shape changes nothing.
pub open spec fn spec_apply_event(m: MachineV, aw: AwaitV, ev: Event, file: Seq<Seq<char>>) -> (
    MachineV,
    Option<ActionV>,
) {
    match (aw, ev) {
        (AwaitV::PushNum, Event::Num(b)) => (with_push(m, Value::F(b)), None),
        (AwaitV::PushBool, Event::Bool(x)) => (with_push(m, Value::B(x)), None),
        (AwaitV::DivCheck { a, b, end, len, line }, Event::Bool(z)) => {
            if z {
                (finish(m, file, line, GenErrKind::DivideByZero, end, len), None)
            } else {
                (with_wait(m, AwaitV::PushNum), Some(ActionV::Div(a, b)))
            }
        },
        (AwaitV::ColorIsInt { v, end, len, line }, Event::Bool(z)) => {
            if !z {
                (finish(m, file, line, GenErrKind::NonIntegerValueError, end, len), None)
            } else {
                (
                    with_wait(m, AwaitV::ColorRange { v, end, len, line }),
                    Some(ActionV::InColorRange(v)),
                )
            }
        },
        (AwaitV::ColorRange { v, end, len, line }, Event::Bool(z)) => {
            if !z {
                (finish(m, file, line, GenErrKind::UnDefinedColor, end, len), None)
            } else {
                (with_wait(m, AwaitV::ColorSet { end, len, line }), Some(ActionV::Trunc(v)))
            }
        },
        (AwaitV::ColorSet { end, len, line }, Event::Int(k)) => {
            if 0 <= k < 16 {
                (with_wait(m, AwaitV::Ack), Some(ActionV::SetColor(k as usize)))
            } else {
                (finish(m, file, line, GenErrKind::UnDefinedColor, end, len), None)
            }
        },
        (AwaitV::TurnIsInt { v, heading, end, len, line }, Event::Bool(z)) => {
            if !z {
                (finish(m, file, line, GenErrKind::NonIntegerValueError, end, len), None)
            } else {
                (with_wait(m, AwaitV::TurnSet { heading }), Some(ActionV::Trunc(v)))
            }
        },
        (AwaitV::TurnSet { heading }, Event::Int(k)) => {
            if heading {
                (with_wait(m, AwaitV::Ack), Some(ActionV::SetHeading(k)))
            } else {
                (with_wait(m, AwaitV::Ack), Some(ActionV::Turn(k)))
            }
        },
        (AwaitV::AddAssignBind { name }, Event::Num(r)) => {
            (with_vars(m, assoc_set(m.vars, name, Some(Type::F(r)))), None)
        },
        (AwaitV::Ack, Event::Ack) => (with_run(m), None),
        _ => (m, None),
    }
}

/// The call prologue: from the last argument to the first, evaluate and
/// bind, so that the first argument is evaluated first and later ones see
/// the earlier bindings.
pub open spec fn call_seq(args: Seq<ExprV>, formals: Seq<AssignV>, line: int) -> Seq<CtlV>
    decreases args.len(),
{
    if args.len() == 0 || formals.len() == 0 {
        Seq::empty()
    } else {
        call_seq(args.drop_first(), formals.drop_first(), line) + seq![
            CtlV::BindArg { target: formals[0] },
            CtlV::Eval(args[0], line),
        ]
    }
}

/// One statement of a list: the walk over statements, as in the original
/// recursive evaluation, one decision per step.
pub open spec fn spec_process_stmts(
    m: MachineV,
    list: Seq<StmtV>,
    idx: int,
    table: Seq<(Seq<char>, FunctionTypeV)>,
    file: Seq<Seq<char>>,
) -> (MachineV, Option<ActionV>) {
    if !(0 <= idx < list.len()) {
        (with_run(m), None)
    } else {
        let mb = with_ctl(m, m.ctl.push(CtlV::Stmts(list, idx + 1)));
        match list[idx] {
            StmtV::Comments(_, _) => (mb, None),
            StmtV::If(e, body, line) => {
                let (en, el) = spec_end_len(e);
                (
                    with_ctl(
                        mb,
                        mb.ctl + seq![
                            CtlV::IfJudge { body, end: en, len: el, line },
                            CtlV::Eval(e, line),
                        ],
                    ),
                    None,
                )
            },
            StmtV::While(e, body, line) => {
                (
                    with_ctl(
                        mb,
                        mb.ctl + seq![
                            CtlV::WhileJudge { cond: e, body, line },
                            CtlV::Eval(e, line),
                        ],
                    ),
                    None,
                )
            },
            StmtV::Make(a, e, line) => {
                (
                    with_ctl(
                        mb,
                        mb.ctl + seq![CtlV::MakeFin { target: a, line }, CtlV::Eval(e, line)],
                    ),
                    None,
                )
            },
            StmtV::AddAssign(a, e, line) => {
                match a {
                    AssignV::Var(nm, an, al) => {
                        match assoc_get(mb.vars, nm) {
                            Some(Some(Type::F(org))) => {
                                let (en, el) = spec_end_len(e);
                                (
                                    with_ctl(
                                        mb,
                                        mb.ctl + seq![
                                            CtlV::AddAssignFin {
                                                name: nm,
                                                org,
                                                end: en,
                                                len: el,
                                                line,
                                            },
                                            CtlV::Eval(e, line),
                                        ],
                                    ),
                                    None,
                                )
                            },
                            Some(Some(Type::B(_))) => (
                                finish(mb, file, line, GenErrKind::UnexpectedBooleanType, an, al),
                                None,
                            ),
                            Some(None) => (
                                finish(mb, file, line, GenErrKind::UnDefinedVariableValue, an, al),
                                None,
                            ),
                            None => (
                                finish(mb, file, line, GenErrKind::UnDefinedVariable, an, al),
                                None,
                            ),
                        }
                    },
                    _ => (mb, None),
                }
            },
            StmtV::PenUp(_) => (with_wait(mb, AwaitV::Ack), Some(ActionV::PenUp)),
            StmtV::PenDown(_) => (with_wait(mb, AwaitV::Ack), Some(ActionV::PenDown)),
            StmtV::Forward(e, line) => {
                let (en, el) = spec_end_len(e);
                (
                    with_ctl(
                        mb,
                        mb.ctl + seq![
                            CtlV::MoveFin { offset: 0i32, end: en, len: el, line },
                            CtlV::Eval(e, line),
                        ],
                    ),
                    None,
                )
            },
            StmtV::Back(e, line) => {
                let (en, el) = spec_end_len(e);
                (
                    with_ctl(
                        mb,
                        mb.ctl + seq![
                            CtlV::MoveFin { offset: 180i32, end: en, len: el, line },
                            CtlV::Eval(e, line),
                        ],
                    ),
                    None,
                )
            },
            StmtV::Left(e, line) => {
                let (en, el) = spec_end_len(e);
                (
                    with_ctl(
                        mb,
                        mb.ctl + seq![
                            CtlV::MoveFin { offset: -90i32, end: en, len: el, line },
                            CtlV::Eval(e, line),
                        ],
                    ),
                    None,
                )
            },
            StmtV::Right(e, line) => {
                let (en, el) = spec_end_len(e);
                (
                    with_ctl(
                        mb,
                        mb.ctl + seq![
                            CtlV::MoveFin { offset: 90i32, end: en, len: el, line },
                            CtlV::Eval(e, line),
                        ],
                    ),
                    None,
                )
            },
            StmtV::SetPenColor(e, line) => {
                let (en, el) = spec_end_len(e);
                (
                    with_ctl(
                        mb,
                        mb.ctl + seq![
                            CtlV::ColorFin { end: en, len: el, line },
                            CtlV::Eval(e, line),
                        ],
                    ),
                    None,
                )
            },
            StmtV::Turn(e, line) => {
                let (en, el) = spec_end_len(e);
                (
                    with_ctl(
                        mb,
                        mb.ctl + seq![
                            CtlV::TurnFin { heading: false, end: en, len: el, line },
                            CtlV::Eval(e, line),
                        ],
                    ),
                    None,
                )
            },
            StmtV::SetHeading(e, line) => {
                let (en, el) = spec_end_len(e);
                (
                    with_ctl(
                        mb,
                        mb.ctl + seq![
                            CtlV::TurnFin { heading: true, end: en, len: el, line },
                            CtlV::Eval(e, line),
                        ],
                    ),
                    None,
                )
            },
            StmtV::SetX(e, line) => {
                let (en, el) = spec_end_len(e);
                (
                    with_ctl(
                        mb,
                        mb.ctl + seq![
                            CtlV::SetXYFin { isx: true, end: en, len: el, line },
                            CtlV::Eval(e, line),
                        ],
                    ),
                    None,
                )
            },
            StmtV::SetY(e, line) => {
                let (en, el) = spec_end_len(e);
                (
                    with_ctl(
                        mb,
                        mb.ctl + seq![
                            CtlV::SetXYFin { isx: false, end: en, len: el, line },
                            CtlV::Eval(e, line),
                        ],
                    ),
                    None,
                )
            },
            StmtV::Func(nmv, args, line) => {
                match nmv {
                    crate::structs::DeclNameV::Named(name, ne, nl) => {
                        match assoc_get(table, name) {
                            None => (
                                finish(mb, file, line, GenErrKind::UnDefinedFunction, ne, nl),
                                None,
                            ),
                            Some(ft) => {
                                if args.len() > ft.args.len() {
                                    (
                                        finish(
                                            mb,
                                            file,
                                            line,
                                            GenErrKind::TooManyArguments,
                                            ne,
                                            nl,
                                        ),
                                        None,
                                    )
                                } else {
                                    (
                                        with_ctl(
                                            mb,
                                            mb.ctl + seq![CtlV::Stmts(ft.stmt_list, 0)]
                                                + call_seq(args, ft.args, line),
                                        ),
                                        None,
                                    )
                                }
                            },
                        }
                    },
                    _ => (mb, None),
                }
            },
        }
    }
}

/// One expression node: leaves push their value or ask the driver;
/// binary nodes schedule the left operand, the right operand, and the
/// combination, in that order.
pub open spec fn spec_process_eval(m: MachineV, e: ExprV, line: int, file: Seq<Seq<char>>) -> (
    MachineV,
    Option<ActionV>,
) {
    match e {
        ExprV::Boolean(b, _, _) => (with_push(m, Value::B(b)), None),
        ExprV::Float(t, _, _) => (with_wait(m, AwaitV::PushNum), Some(ActionV::ParseNum(t))),
        ExprV::Var(nm, en, el) => {
            match assoc_get(m.vars, nm) {
                Some(Some(Type::F(x))) => (with_push(m, Value::F(x)), None),
                Some(Some(Type::B(x))) => (with_push(m, Value::B(x)), None),
                Some(None) => (
                    finish(m, file, line, GenErrKind::UnDefinedVariableValue, en, el),
                    None,
                ),
                None => (finish(m, file, line, GenErrKind::UnDefinedVariable, en, el), None),
            }
        },
        ExprV::XCor(_, _) => (with_wait(m, AwaitV::PushNum), Some(ActionV::ReadX)),
        ExprV::YCor(_, _) => (with_wait(m, AwaitV::PushNum), Some(ActionV::ReadY)),
        ExprV::Heading(_, _) => (with_wait(m, AwaitV::PushNum), Some(ActionV::ReadHeading)),
        ExprV::Color(_, _) => (with_wait(m, AwaitV::PushNum), Some(ActionV::ReadColor)),
        ExprV::Error(_, _, _) => (with_run(m), None),
        _ => {
            let (op, a, b, en, el) = spec_as_binop(e);
            let (le, ll) = spec_end_len(a);
            let (re, rl) = spec_end_len(b);
            if op == BinOp::Add || op == BinOp::Sub || op == BinOp::Mul || op == BinOp::Div {
                (
                    with_ctl(
                        m,
                        m.ctl + seq![
                            CtlV::Apply { op, end: en, len: el, le, ll, re, rl, line },
                            CtlV::Eval(b, line),
                            CtlV::NumCheck { end: en, len: el, line },
                            CtlV::Eval(a, line),
                        ],
                    ),
                    None,
                )
            } else {
                (
                    with_ctl(
                        m,
                        m.ctl + seq![
                            CtlV::Apply { op, end: en, len: el, le, ll, re, rl, line },
                            CtlV::Eval(b, line),
                            CtlV::Eval(a, line),
                        ],
                    ),
                    None,
                )
            }
        },
    }
}

/// The operator, operands and span of a binary node.
pub open spec fn spec_as_binop(e: ExprV) -> (BinOp, ExprV, ExprV, int, int) {
    match e {
        ExprV::Add(a, b, n, l) => (BinOp::Add, *a, *b, n, l),
        ExprV::Sub(a, b, n, l) => (BinOp::Sub, *a, *b, n, l),
        ExprV::Mul(a, b, n, l) => (BinOp::Mul, *a, *b, n, l),
        ExprV::Div(a, b, n, l) => (BinOp::Div, *a, *b, n, l),
        ExprV::Eq(a, b, n, l) => (BinOp::Eq, *a, *b, n, l),
        ExprV::Ne(a, b, n, l) => (BinOp::Ne, *a, *b, n, l),
        ExprV::Lt(a, b, n, l) => (BinOp::Lt, *a, *b, n, l),
        ExprV::Gt(a, b, n, l) => (BinOp::Gt, *a, *b, n, l),
        ExprV::And(a, b, n, l) => (BinOp::And, *a, *b, n, l),
        ExprV::Or(a, b, n, l) => (BinOp::Or, *a, *b, n, l),
        _ => arbitrary(),
    }
}

/// Combines two operand values under one operator: the numeric work goes
/// to the driver; type mismatches are decided here, with the error span
/// selected as the original selected it.
pub open spec fn spec_process_apply(
    m: MachineV,
    op: BinOp,
    end: int,
    len: int,
    le: int,
    ll: int,
    re: int,
    rl: int,
    line: int,
    file: Seq<Seq<char>>,
) -> (MachineV, Option<ActionV>) {
    if m.vals.len() < 2 {
        (with_run(m), None)
    } else {
        let v2 = m.vals.last();
        let v1 = m.vals[m.vals.len() - 2];
        let m3 = MachineV {
            ctl: m.ctl,
            vals: m.vals.drop_last().drop_last(),
            vars: m.vars,
            mode: ModeV::Run,
        };
        match op {
            BinOp::Add => match (v1, v2) {
                (Value::F(a), Value::F(b)) => (
                    with_wait(m3, AwaitV::PushNum),
                    Some(ActionV::Add(a, b)),
                ),
                _ => (finish(m3, file, line, GenErrKind::UnexpectedBooleanType, end, len), None),
            },
            BinOp::Sub => match (v1, v2) {
                (Value::F(a), Value::F(b)) => (
                    with_wait(m3, AwaitV::PushNum),
                    Some(ActionV::Sub(a, b)),
                ),
                _ => (finish(m3, file, line, GenErrKind::UnexpectedBooleanType, end, len), None),
            },
            BinOp::Mul => match (v1, v2) {
                (Value::F(a), Value::F(b)) => (
                    with_wait(m3, AwaitV::PushNum),
                    Some(ActionV::Mul(a, b)),
                ),
                _ => (finish(m3, file, line, GenErrKind::UnexpectedBooleanType, end, len), None),
            },
            BinOp::Div => match (v1, v2) {
                (Value::F(a), Value::F(b)) => (
                    with_wait(m3, AwaitV::DivCheck { a, b, end, len, line }),
                    Some(ActionV::EqZero(b)),
                ),
                _ => (finish(m3, file, line, GenErrKind::UnexpectedBooleanType, end, len), None),
            },
            BinOp::Eq => match (v1, v2) {
                (Value::F(a), Value::F(b)) => (
                    with_wait(m3, AwaitV::PushBool),
                    Some(ActionV::EqNum(a, b)),
                ),
                (Value::B(a), Value::B(b)) => (with_push(m3, Value::B(a == b)), None),
                _ => (finish(m3, file, line, GenErrKind::UnmatchedExprType, end, len), None),
            },
            BinOp::Ne => match (v1, v2) {
                (Value::F(a), Value::F(b)) => (
                    with_wait(m3, AwaitV::PushBool),
                    Some(ActionV::NeNum(a, b)),
                ),
                (Value::B(a), Value::B(b)) => (with_push(m3, Value::B(a != b)), None),
                _ => (finish(m3, file, line, GenErrKind::UnmatchedExprType, end, len), None),
            },
            BinOp::Lt => match (v1, v2) {
                (Value::F(a), Value::F(b)) => (
                    with_wait(m3, AwaitV::PushBool),
                    Some(ActionV::LtNum(a, b)),
                ),
                (Value::B(_), _) => (
                    finish(m3, file, line, GenErrKind::UnexpectedBooleanType, le, ll),
                    None,
                ),
                _ => (finish(m3, file, line, GenErrKind::UnexpectedBooleanType, re, rl), None),
            },
            BinOp::Gt => match (v1, v2) {
                (Value::F(a), Value::F(b)) => (
                    with_wait(m3, AwaitV::PushBool),
                    Some(ActionV::GtNum(a, b)),
                ),
                (Value::B(_), _) => (
                    finish(m3, file, line, GenErrKind::UnexpectedBooleanType, le, ll),
                    None,
                ),
                _ => (finish(m3, file, line, GenErrKind::UnexpectedBooleanType, re, rl), None),
            },
            BinOp::And => match (v1, v2) {
                (Value::B(a), Value::B(b)) => (with_push(m3, Value::B(a && b)), None),
                (Value::F(_), _) => (
                    finish(m3, file, line, GenErrKind::UnexpectedNumberType, le, ll),
                    None,
                ),
                _ => (finish(m3, file, line, GenErrKind::UnexpectedNumberType, re, rl), None),
            },
            BinOp::Or => match (v1, v2) {
                (Value::B(a), Value::B(b)) => (with_push(m3, Value::B(a || b)), None),
                (Value::F(_), _) => (
                    finish(m3, file, line, GenErrKind::UnexpectedNumberType, le, ll),
                    None,
                ),
                _ => (finish(m3, file, line, GenErrKind::UnexpectedNumberType, re, rl), None),
            },
        }
    }
}

/// Consumes the value a judge or finisher waited for.
pub open spec fn spec_process_fin(m: MachineV, top: CtlV, file: Seq<Seq<char>>) -> (
    MachineV,
    Option<ActionV>,
) {
    if top matches CtlV::NumCheck { end, len, line } {
        let (end, len, line) = match top {
            CtlV::NumCheck { end, len, line } => (end, len, line),
            _ => arbitrary(),
        };
        if m.vals.len() < 1 {
            (with_run(m), None)
        } else {
            match m.vals.last() {
                Value::F(_) => (with_run(m), None),
                Value::B(_) => {
                    let m3 = MachineV {
                        ctl: m.ctl,
                        vals: m.vals.drop_last(),
                        vars: m.vars,
                        mode: ModeV::Run,
                    };
                    (finish(m3, file, line, GenErrKind::UnexpectedBooleanType, end, len), None)
                },
            }
        }
    } else if m.vals.len() < 1 {
        (with_run(m), None)
    } else {
        let v = m.vals.last();
        let m3 = MachineV {
            ctl: m.ctl,
            vals: m.vals.drop_last(),
            vars: m.vars,
            mode: ModeV::Run,
        };
        match top {
            CtlV::IfJudge { body, end, len, line } => match v {
                Value::B(true) => (with_ctl(m3, m3.ctl.push(CtlV::Stmts(body, 0))), None),
                Value::B(false) => (m3, None),
                Value::F(_) => (
                    finish(m3, file, line, GenErrKind::UnexpectedNumberType, end, len),
                    None,
                ),
            },
            CtlV::WhileJudge { cond, body, line } => match v {
                Value::B(true) => (
                    with_ctl(
                        m3,
                        m3.ctl + seq![
                            CtlV::WhileJudge { cond, body, line },
                            CtlV::Eval(cond, line),
                            CtlV::Stmts(body, 0),
                        ],
                    ),
                    None,
                ),
                Value::B(false) => (m3, None),
                Value::F(_) => {
                    let (en, el) = spec_end_len(cond);
                    (finish(m3, file, line, GenErrKind::UnexpectedNumberType, en, el), None)
                },
            },
            CtlV::MakeFin { target, line } => match target {
                AssignV::Var(nm, _, _) => {
                    let t = match v {
                        Value::F(x) => Type::F(x),
                        Value::B(x) => Type::B(x),
                    };
                    (with_vars(m3, assoc_set(m3.vars, nm, Some(t))), None)
                },
                _ => (m3, None),
            },
            CtlV::AddAssignFin { name, org, end, len, line } => match v {
                Value::B(_) => (
                    finish(m3, file, line, GenErrKind::UnexpectedNumberType, end, len),
                    None,
                ),
                Value::F(num) => (
                    with_wait(m3, AwaitV::AddAssignBind { name }),
                    Some(ActionV::Add(num, org)),
                ),
            },
            CtlV::MoveFin { offset, end, len, line } => match v {
                Value::B(_) => (
                    finish(m3, file, line, GenErrKind::UnexpectedNumberType, end, len),
                    None,
                ),
                Value::F(d) => (with_wait(m3, AwaitV::Ack), Some(ActionV::Move(offset, d))),
            },
            CtlV::ColorFin { end, len, line } => match v {
                Value::B(_) => (
                    finish(m3, file, line, GenErrKind::UnexpectedNumberType, end, len),
                    None,
                ),
                Value::F(x) => (
                    with_wait(m3, AwaitV::ColorIsInt { v: x, end, len, line }),
                    Some(ActionV::IsInt(x)),
                ),
            },
            CtlV::TurnFin { heading, end, len, line } => match v {
                Value::B(_) => (
                    finish(m3, file, line, GenErrKind::UnexpectedNumberType, end, len),
                    None,
                ),
                Value::F(x) => (
                    with_wait(m3, AwaitV::TurnIsInt { v: x, heading, end, len, line }),
                    Some(ActionV::IsInt(x)),
                ),
            },
            CtlV::SetXYFin { isx, end, len, line } => match v {
                Value::B(_) => (
                    finish(m3, file, line, GenErrKind::UnexpectedNumberType, end, len),
                    None,
                ),
                Value::F(x) => {
                    if isx {
                        (with_wait(m3, AwaitV::Ack), Some(ActionV::SetX(x)))
                    } else {
                        (with_wait(m3, AwaitV::Ack), Some(ActionV::SetY(x)))
                    }
                },
            },
            CtlV::BindArg { target } => match target {
                AssignV::Var(nm, _, _) => {
                    let t = match v {
                        Value::F(x) => Type::F(x),
                        Value::B(x) => Type::B(x),
                    };
                    (with_vars(m3, assoc_set(m3.vars, nm, Some(t))), None)
                },
                _ => (m3, None),
            },
            _ => (m3, None),
        }
    }
}

/// One step of the machine.  In `Run` mode with no pending event it
/// consumes the top control entry; in `Waiting` mode it consumes the
/// event; a finished machine, or a call against the protocol, changes
/// nothing.
pub open spec fn spec_step(
    m: MachineV,
    ev: Option<Event>,
    table: Seq<(Seq<char>, FunctionTypeV)>,
    file: Seq<Seq<char>>,
) -> (MachineV, Option<ActionV>) {
    match m.mode {
        ModeV::Done(_) => (m, None),
        ModeV::Waiting(aw) => match ev {
            Some(e) => spec_apply_event(m, aw, e, file),
            None => (m, None),
        },
        ModeV::Run => match ev {
            Some(_) => (m, None),
            None => {
                if m.ctl.len() == 0 {
                    (
                        MachineV {
                            ctl: m.ctl,
                            vals: m.vals,
                            vars: m.vars,
                            mode: ModeV::Done(Ok(())),
                        },
                        None,
                    )
                } else {
                    let top = m.ctl.last();
                    let m2 = MachineV {
                        ctl: m.ctl.drop_last(),
                        vals: m.vals,
                        vars: m.vars,
                        mode: ModeV::Run,
                    };
                    match top {
                        CtlV::Stmts(list, idx) => spec_process_stmts(m2, list, idx, table, file),
                        CtlV::Eval(e, line) => spec_process_eval(m2, e, line, file),
                        CtlV::Apply { op, end, len, le, ll, re, rl, line } => spec_process_apply(
                            m2,
                            op,
                            end,
                            len,
                            le,
                            ll,
                            re,
                            rl,
                            line,
                            file,
                        ),
                        _ => spec_process_fin(m2, top, file),
                    }
                }
            },
        },
    }
}


// ---------------------------------------------------------------------------
// The executable step.
// ---------------------------------------------------------------------------

fn clone_await(a: &Await) -> (r: Await)
    ensures
        r@ == a@,
{
    match a {
        Await::PushNum => Await::PushNum,
        Await::PushBool => Await::PushBool,
        Await::DivCheck { a, b, end, len, line } => Await::DivCheck {
            a: *a,
            b: *b,
            end: *end,
            len: *len,
            line: *line,
        },
        Await::ColorIsInt { v, end, len, line } => Await::ColorIsInt {
            v: *v,
            end: *end,
            len: *len,
            line: *line,
        },
        Await::ColorRange { v, end, len, line } => Await::ColorRange {
            v: *v,
            end: *end,
            len: *len,
            line: *line,
        },
        Await::ColorSet { end, len, line } => Await::ColorSet {
            end: *end,
            len: *len,
            line: *line,
        },
        Await::TurnIsInt { v, heading, end, len, line } => Await::TurnIsInt {
            v: *v,
            heading: *heading,
            end: *end,
            len: *len,
            line: *line,
        },
        Await::TurnSet { heading } => Await::TurnSet { heading: *heading },
        Await::AddAssignBind { name } => Await::AddAssignBind { name: name.clone() },
        Await::Ack => Await::Ack,
    }
}

impl Machine {
    /// A machine poised to run a statement list under an environment.
    pub fn new(body: Vec<Stmt>, vars: Variable) -> (r: Machine)
        ensures
            r@ =~~= (MachineV {
                ctl: seq![CtlV::Stmts(crate::structs::stmts_view(body@), 0)],
                vals: Seq::empty(),
                vars: vars@,
                mode: ModeV::Run,
            }),
    {
        let ghost bodyv = crate::structs::stmts_view(body@);
        let ghost varsv = vars@;
        let mut ctl: Vec<Ctl> = Vec::new();
        ctl.push(Ctl::Stmts(body, 0));
        let r = Machine { ctl, vals: Vec::new(), vars, mode: Mode::Run };
        proof {
            assert(r@.ctl =~= seq![CtlV::Stmts(bodyv, 0)]);
            assert(r@.vals =~= Seq::<Value>::empty());
        }
        r
    }

    /// Halts with a positioned error.
    fn fail(&mut self, file: &Vec<Vec<char>>, line: usize, kind: GenErrKind, end: usize, len: usize)
        ensures
            final(self)@ =~~= finish(
                old(self)@,
                crate::parse::file_view(file@),
                line as int,
                kind,
                end as int,
                len as int,
            ),
    {
        let ghost fv = crate::parse::file_view(file@);
        if line < file.len() && end <= file[line].len() && len <= file[line].len() - end {
            proof {
                assert(fv[line as int] == file@[line as int]@);
            }
            let e = match_err(file[line].clone(), line, kind, end, len);
            self.mode = Mode::Done(Err(e));
        } else {
            let e = GenerationError { kind, src: Vec::new(), start: 0, len: 0, line };
            proof {
                assert(e@.src =~= Seq::<char>::empty());
            }
            self.mode = Mode::Done(Err(e));
        }
    }

    /// Resumes with the outcome of the last action.
    #[verifier::rlimit(100)]
    fn apply_event(&mut self, ev: Event, file: &Vec<Vec<char>>) -> (r: Option<Action>)
        requires
            old(self)@.mode is Waiting,
        ensures
            ({
                let res = spec_apply_event(
                    old(self)@,
                    old(self)@.mode->Waiting_0,
                    ev,
                    crate::parse::file_view(file@),
                );
                final(self)@ =~~= res.0 && opt_action_view(r) == res.1
            }),
    {
        let aw = match &self.mode {
            Mode::Waiting(a) => clone_await(a),
            _ => unreached(),
        };
        match (aw, ev) {
            (Await::PushNum, Event::Num(b)) => {
                self.mode = Mode::Run;
                self.vals.push(Value::F(b));
                None
            },
            (Await::PushBool, Event::Bool(x)) => {
                self.mode = Mode::Run;
                self.vals.push(Value::B(x));
                None
            },
            (Await::DivCheck { a, b, end, len, line }, Event::Bool(z)) => {
                if z {
                    self.fail(file, line, GenErrKind::DivideByZero, end, len);
                    None
                } else {
                    self.mode = Mode::Waiting(Await::PushNum);
                    Some(Action::Div(a, b))
                }
            },
            (Await::ColorIsInt { v, end, len, line }, Event::Bool(z)) => {
                if !z {
                    self.fail(file, line, GenErrKind::NonIntegerValueError, end, len);
                    None
                } else {
                    self.mode = Mode::Waiting(Await::ColorRange { v, end, len, line });
                    Some(Action::InColorRange(v))
                }
            },
            (Await::ColorRange { v, end, len, line }, Event::Bool(z)) => {
                if !z {
                    self.fail(file, line, GenErrKind::UnDefinedColor, end, len);
                    None
                } else {
                    self.mode = Mode::Waiting(Await::ColorSet { end, len, line });
                    Some(Action::Trunc(v))
                }
            },
            (Await::ColorSet { end, len, line }, Event::Int(k)) => {
                if 0 <= k && k < 16 {
                    self.mode = Mode::Waiting(Await::Ack);
                    Some(Action::SetColor(k as usize))
                } else {
                    self.fail(file, line, GenErrKind::UnDefinedColor, end, len);
                    None
                }
            },
            (Await::TurnIsInt { v, heading, end, len, line }, Event::Bool(z)) => {
                if !z {
                    self.fail(file, line, GenErrKind::NonIntegerValueError, end, len);
                    None
                } else {
                    self.mode = Mode::Waiting(Await::TurnSet { heading });
                    Some(Action::Trunc(v))
                }
            },
            (Await::TurnSet { heading }, Event::Int(k)) => {
                self.mode = Mode::Waiting(Await::Ack);
                if heading {
                    Some(Action::SetHeading(k))
                } else {
                    Some(Action::Turn(k))
                }
            },
            (Await::AddAssignBind { name }, Event::Num(r)) => {
                self.mode = Mode::Run;
                self.vars.insert_num(name, Some(r));
                None
            },
            (Await::Ack, Event::Ack) => {
                self.mode = Mode::Run;
                None
            },
            _ => None,
        }
    }
}


impl Machine {
    /// Executes one statement of a list: the statement-level walk.
    #[verifier::rlimit(100)]
    fn process_stmt(
        &mut self,
        list: Vec<Stmt>,
        idx: usize,
        table: &Function,
        file: &Vec<Vec<char>>,
    ) -> (r: Option<Action>)
        requires
            old(self)@.mode is Run,
        ensures
            ({
                let res = spec_process_stmts(
                    old(self)@,
                    crate::structs::stmts_view(list@),
                    idx as int,
                    table@,
                    crate::parse::file_view(file@),
                );
                final(self)@ =~~= res.0 && opt_action_view(r) == res.1
            }),
    {
        let ghost listv = crate::structs::stmts_view(list@);
        let ghost m0 = self@;
        if idx >= list.len() {
            return None;
        }
        proof {
            assert(listv[idx as int] == list@[idx as int]@);
        }
        match &list[idx] {
            Stmt::Comments(_, _) => {
                self.ctl.push(Ctl::Stmts(list, idx + 1));
                proof {
                    assert(self@.ctl =~= m0.ctl.push(CtlV::Stmts(listv, idx + 1)));
                }
                None
            },
            Stmt::If(e, body, line) => {
                let (en, el) = get_end_len(e);
                let ec = crate::structs::clone_expr(e);
                let bc = crate::structs::clone_stmts(body);
                let ln = *line;
                self.ctl.push(Ctl::Stmts(list, idx + 1));
                self.ctl.push(Ctl::IfJudge { body: bc, end: en, len: el, line: ln });
                self.ctl.push(Ctl::Eval(ec, ln));
                proof {
                    assert(self@.ctl =~= m0.ctl.push(CtlV::Stmts(listv, idx + 1)) + seq![
                        CtlV::IfJudge {
                            body: listv[idx as int]->If_1,
                            end: en as int,
                            len: el as int,
                            line: ln as int,
                        },
                        CtlV::Eval(listv[idx as int]->If_0, ln as int),
                    ]);
                }
                None
            },
            Stmt::While(e, body, line) => {
                let ec = crate::structs::clone_expr(e);
                let ec2 = crate::structs::clone_expr(e);
                let bc = crate::structs::clone_stmts(body);
                let ln = *line;
                self.ctl.push(Ctl::Stmts(list, idx + 1));
                self.ctl.push(Ctl::WhileJudge { cond: ec, body: bc, line: ln });
                self.ctl.push(Ctl::Eval(ec2, ln));
                proof {
                    assert(self@.ctl =~= m0.ctl.push(CtlV::Stmts(listv, idx + 1)) + seq![
                        CtlV::WhileJudge {
                            cond: listv[idx as int]->While_0,
                            body: listv[idx as int]->While_1,
                            line: ln as int,
                        },
                        CtlV::Eval(listv[idx as int]->While_0, ln as int),
                    ]);
                }
                None
            },
            Stmt::Make(a, e, line) => {
                let ac = crate::structs::clone_assign(a);
                let ec = crate::structs::clone_expr(e);
                let ln = *line;
                self.ctl.push(Ctl::Stmts(list, idx + 1));
                self.ctl.push(Ctl::MakeFin { target: ac, line: ln });
                self.ctl.push(Ctl::Eval(ec, ln));
                proof {
                    assert(self@.ctl =~= m0.ctl.push(CtlV::Stmts(listv, idx + 1)) + seq![
                        CtlV::MakeFin { target: listv[idx as int]->Make_0, line: ln as int },
                        CtlV::Eval(listv[idx as int]->Make_1, ln as int),
                    ]);
                }
                None
            },
            Stmt::AddAssign(a, e, line) => {
                let ln = *line;
                match &**a {
                    Assign::Var(nm, an, al) => {
                        let nmc = nm.clone();
                        let ane = *an;
                        let ale = *al;
                        match self.vars.get(&nmc) {
                            Some(Some(Type::F(org))) => {
                                let (en, el) = get_end_len(e);
                                let ec = crate::structs::clone_expr(e);
                                self.ctl.push(Ctl::Stmts(list, idx + 1));
                                self.ctl.push(
                                    Ctl::AddAssignFin {
                                        name: nmc,
                                        org,
                                        end: en,
                                        len: el,
                                        line: ln,
                                    },
                                );
                                self.ctl.push(Ctl::Eval(ec, ln));
                                proof {
                                    assert(self@.ctl =~= m0.ctl.push(
                                        CtlV::Stmts(listv, idx + 1),
                                    ) + seq![
                                        CtlV::AddAssignFin {
                                            name: (listv[idx as int]->AddAssign_0)->Var_0,
                                            org: org,
                                            end: en as int,
                                            len: el as int,
                                            line: ln as int,
                                        },
                                        CtlV::Eval(listv[idx as int]->AddAssign_1, ln as int),
                                    ]);
                                }
                                None
                            },
                            Some(Some(Type::B(_))) => {
                                self.ctl.push(Ctl::Stmts(list, idx + 1));
                                proof {
                                    assert(self@.ctl =~= m0.ctl.push(
                                        CtlV::Stmts(listv, idx + 1),
                                    ));
                                }
                                self.fail(
                                    file,
                                    ln,
                                    GenErrKind::UnexpectedBooleanType,
                                    ane,
                                    ale,
                                );
                                None
                            },
                            Some(None) => {
                                self.ctl.push(Ctl::Stmts(list, idx + 1));
                                proof {
                                    assert(self@.ctl =~= m0.ctl.push(
                                        CtlV::Stmts(listv, idx + 1),
                                    ));
                                }
                                self.fail(
                                    file,
                                    ln,
                                    GenErrKind::UnDefinedVariableValue,
                                    ane,
                                    ale,
                                );
                                None
                            },
                            None => {
                                self.ctl.push(Ctl::Stmts(list, idx + 1));
                                proof {
                                    assert(self@.ctl =~= m0.ctl.push(
                                        CtlV::Stmts(listv, idx + 1),
                                    ));
                                }
                                self.fail(file, ln, GenErrKind::UnDefinedVariable, ane, ale);
                                None
                            },
                        }
                    },
                    Assign::Error(..) => {
                        self.ctl.push(Ctl::Stmts(list, idx + 1));
                        proof {
                            assert(self@.ctl =~= m0.ctl.push(CtlV::Stmts(listv, idx + 1)));
                        }
                        None
                    },
                }
            },
            Stmt::PenUp(_) => {
                self.ctl.push(Ctl::Stmts(list, idx + 1));
                proof {
                    assert(self@.ctl =~= m0.ctl.push(CtlV::Stmts(listv, idx + 1)));
                }
                self.mode = Mode::Waiting(Await::Ack);
                Some(Action::PenUp)
            },
            Stmt::PenDown(_) => {
                self.ctl.push(Ctl::Stmts(list, idx + 1));
                proof {
                    assert(self@.ctl =~= m0.ctl.push(CtlV::Stmts(listv, idx + 1)));
                }
                self.mode = Mode::Waiting(Await::Ack);
                Some(Action::PenDown)
            },
            Stmt::Forward(e, line) => {
                let (en, el) = get_end_len(e);
                let ec = crate::structs::clone_expr(e);
                let ln = *line;
                self.ctl.push(Ctl::Stmts(list, idx + 1));
                self.ctl.push(Ctl::MoveFin { offset: 0i32, end: en, len: el, line: ln });
                self.ctl.push(Ctl::Eval(ec, ln));
                proof {
                    assert(self@.ctl =~= m0.ctl.push(CtlV::Stmts(listv, idx + 1)) + seq![
                        CtlV::MoveFin {
                            offset: 0i32,
                            end: en as int,
                            len: el as int,
                            line: ln as int,
                        },
                        CtlV::Eval(listv[idx as int]->Forward_0, ln as int),
                    ]);
                }
                None
            },
            Stmt::Back(e, line) => {
                let (en, el) = get_end_len(e);
                let ec = crate::structs::clone_expr(e);
                let ln = *line;
                self.ctl.push(Ctl::Stmts(list, idx + 1));
                self.ctl.push(Ctl::MoveFin { offset: 180i32, end: en, len: el, line: ln });
                self.ctl.push(Ctl::Eval(ec, ln));
                proof {
                    assert(self@.ctl =~= m0.ctl.push(CtlV::Stmts(listv, idx + 1)) + seq![
                        CtlV::MoveFin {
                            offset: 180i32,
                            end: en as int,
                            len: el as int,
                            line: ln as int,
                        },
                        CtlV::Eval(listv[idx as int]->Back_0, ln as int),
                    ]);
                }
                None
            },
            Stmt::Left(e, line) => {
                let (en, el) = get_end_len(e);
                let ec = crate::structs::clone_expr(e);
                let ln = *line;
                self.ctl.push(Ctl::Stmts(list, idx + 1));
                self.ctl.push(Ctl::MoveFin { offset: -90i32, end: en, len: el, line: ln });
                self.ctl.push(Ctl::Eval(ec, ln));
                proof {
                    assert(self@.ctl =~= m0.ctl.push(CtlV::Stmts(listv, idx + 1)) + seq![
                        CtlV::MoveFin {
                            offset: -90i32,
                            end: en as int,
                            len: el as int,
                            line: ln as int,
                        },
                        CtlV::Eval(listv[idx as int]->Left_0, ln as int),
                    ]);
                }
                None
            },
            Stmt::Right(e, line) => {
                let (en, el) = get_end_len(e);
                let ec = crate::structs::clone_expr(e);
                let ln = *line;
                self.ctl.push(Ctl::Stmts(list, idx + 1));
                self.ctl.push(Ctl::MoveFin { offset: 90i32, end: en, len: el, line: ln });
                self.ctl.push(Ctl::Eval(ec, ln));
                proof {
                    assert(self@.ctl =~= m0.ctl.push(CtlV::Stmts(listv, idx + 1)) + seq![
                        CtlV::MoveFin {
                            offset: 90i32,
                            end: en as int,
                            len: el as int,
                            line: ln as int,
                        },
                        CtlV::Eval(listv[idx as int]->Right_0, ln as int),
                    ]);
                }
                None
            },
            Stmt::SetPenColor(e, line) => {
                let (en, el) = get_end_len(e);
                let ec = crate::structs::clone_expr(e);
                let ln = *line;
                self.ctl.push(Ctl::Stmts(list, idx + 1));
                self.ctl.push(Ctl::ColorFin { end: en, len: el, line: ln });
                self.ctl.push(Ctl::Eval(ec, ln));
                proof {
                    assert(self@.ctl =~= m0.ctl.push(CtlV::Stmts(listv, idx + 1)) + seq![
                        CtlV::ColorFin { end: en as int, len: el as int, line: ln as int },
                        CtlV::Eval(listv[idx as int]->SetPenColor_0, ln as int),
                    ]);
                }
                None
            },
            Stmt::Turn(e, line) => {
                let (en, el) = get_end_len(e);
                let ec = crate::structs::clone_expr(e);
                let ln = *line;
                self.ctl.push(Ctl::Stmts(list, idx + 1));
                self.ctl.push(Ctl::TurnFin { heading: false, end: en, len: el, line: ln });
                self.ctl.push(Ctl::Eval(ec, ln));
                proof {
                    assert(self@.ctl =~= m0.ctl.push(CtlV::Stmts(listv, idx + 1)) + seq![
                        CtlV::TurnFin {
                            heading: false,
                            end: en as int,
                            len: el as int,
                            line: ln as int,
                        },
                        CtlV::Eval(listv[idx as int]->Turn_0, ln as int),
                    ]);
                }
                None
            },
            Stmt::SetHeading(e, line) => {
                let (en, el) = get_end_len(e);
                let ec = crate::structs::clone_expr(e);
                let ln = *line;
                self.ctl.push(Ctl::Stmts(list, idx + 1));
                self.ctl.push(Ctl::TurnFin { heading: true, end: en, len: el, line: ln });
                self.ctl.push(Ctl::Eval(ec, ln));
                proof {
                    assert(self@.ctl =~= m0.ctl.push(CtlV::Stmts(listv, idx + 1)) + seq![
                        CtlV::TurnFin {
                            heading: true,
                            end: en as int,
                            len: el as int,
                            line: ln as int,
                        },
                        CtlV::Eval(listv[idx as int]->SetHeading_0, ln as int),
                    ]);
                }
                None
            },
            Stmt::SetX(e, line) => {
                let (en, el) = get_end_len(e);
                let ec = crate::structs::clone_expr(e);
                let ln = *line;
                self.ctl.push(Ctl::Stmts(list, idx + 1));
                self.ctl.push(Ctl::SetXYFin { isx: true, end: en, len: el, line: ln });
                self.ctl.push(Ctl::Eval(ec, ln));
                proof {
                    assert(self@.ctl =~= m0.ctl.push(CtlV::Stmts(listv, idx + 1)) + seq![
                        CtlV::SetXYFin {
                            isx: true,
                            end: en as int,
                            len: el as int,
                            line: ln as int,
                        },
                        CtlV::Eval(listv[idx as int]->SetX_0, ln as int),
                    ]);
                }
                None
            },
            Stmt::SetY(e, line) => {
                let (en, el) = get_end_len(e);
                let ec = crate::structs::clone_expr(e);
                let ln = *line;
                self.ctl.push(Ctl::Stmts(list, idx + 1));
                self.ctl.push(Ctl::SetXYFin { isx: false, end: en, len: el, line: ln });
                self.ctl.push(Ctl::Eval(ec, ln));
                proof {
                    assert(self@.ctl =~= m0.ctl.push(CtlV::Stmts(listv, idx + 1)) + seq![
                        CtlV::SetXYFin {
                            isx: false,
                            end: en as int,
                            len: el as int,
                            line: ln as int,
                        },
                        CtlV::Eval(listv[idx as int]->SetY_0, ln as int),
                    ]);
                }
                None
            },
            Stmt::Func(nm, args, line) => {
                let ln = *line;
                match &**nm {
                    DeclName::Named(name, ne, nl) => {
                        let nec = *ne;
                        let nlc = *nl;
                        match table.get(name) {
                            None => {
                                self.ctl.push(Ctl::Stmts(list, idx + 1));
                                proof {
                                    assert(self@.ctl =~= m0.ctl.push(
                                        CtlV::Stmts(listv, idx + 1),
                                    ));
                                }
                                self.fail(file, ln, GenErrKind::UnDefinedFunction, nec, nlc);
                                None
                            },
                            Some(ft) => {
                                if args.len() > ft.args.len() {
                                    self.ctl.push(Ctl::Stmts(list, idx + 1));
                                    proof {
                                        assert(self@.ctl =~= m0.ctl.push(
                                            CtlV::Stmts(listv, idx + 1),
                                        ));
                                    }
                                    self.fail(
                                        file,
                                        ln,
                                        GenErrKind::TooManyArguments,
                                        nec,
                                        nlc,
                                    );
                                    None
                                } else {
                                    let ghost ftv = ft@;
                                    let ghost argsv = crate::structs::exprs_view(args@);
                                    let body = crate::structs::clone_stmts(&ft.stmt_list);
                                    let alen = args.len();
                                    let mut pro: Vec<Ctl> = Vec::new();
                                    let mut k = alen;
                                    while k > 0
                                        invariant
                                            0 <= k <= alen,
                                            alen == argsv.len(),
                                            argsv == crate::structs::exprs_view(args@),
                                            argsv.len() <= ftv.args.len(),
                                            ftv.args == crate::structs::assigns_view(
                                                ft.args@,
                                            ),
                                            alen <= args@.len(),
                                            args@.len() == argsv.len(),
                                            ft.args@.len() == ftv.args.len(),
                                            ctls_view(pro@) =~= call_seq(
                                                argsv.skip(k as int),
                                                ftv.args.skip(k as int),
                                                ln as int,
                                            ),
                                        decreases k,
                                    {
                                        k = k - 1;
                                        let fc = crate::structs::clone_assign(&ft.args[k]);
                                        let ec = crate::structs::clone_expr(&args[k]);
                                        pro.push(Ctl::BindArg { target: fc });
                                        pro.push(Ctl::Eval(ec, ln));
                                        proof {
                                            assert(argsv.skip(k as int).drop_first()
                                                =~= argsv.skip(k + 1));
                                            assert(ftv.args.skip(k as int).drop_first()
                                                =~= ftv.args.skip(k + 1));
                                            assert(argsv.skip(k as int)[0] == argsv[k as int]);
                                            assert(ftv.args.skip(k as int)[0] == ftv.args[k as int]);
                                            assert(ctls_view(pro@) =~= call_seq(
                                                argsv.skip(k as int),
                                                ftv.args.skip(k as int),
                                                ln as int,
                                            ));
                                        }
                                    }
                                    proof {
                                        assert(argsv.skip(0) =~= argsv);
                                        assert(ftv.args.skip(0) =~= ftv.args);
                                    }
                                    self.ctl.push(Ctl::Stmts(list, idx + 1));
                                    self.ctl.push(Ctl::Stmts(body, 0));
                                    let ghost mid = self@.ctl;
                                    let ghost prov = ctls_view(pro@);
                                    self.ctl.append(&mut pro);
                                    proof {
                                        assert(self@.ctl =~= mid + prov);
                                        assert(self@.ctl =~= m0.ctl.push(
                                            CtlV::Stmts(listv, idx + 1),
                                        ) + seq![
                                            CtlV::Stmts(
                                                crate::structs::stmts_view(ft.stmt_list@),
                                                0,
                                            ),
                                        ] + call_seq(argsv, ftv.args, ln as int));
                                    }
                                    None
                                }
                            },
                        }
                    },
                    DeclName::Error(..) => {
                        self.ctl.push(Ctl::Stmts(list, idx + 1));
                        proof {
                            assert(self@.ctl =~= m0.ctl.push(CtlV::Stmts(listv, idx + 1)));
                        }
                        None
                    },
                }
            },
        }
    }
}


/// The operator, operands and spans of a binary node, taken apart.
fn take_binop(e: Expr) -> (r: (BinOp, Expr, Expr, usize, usize))
    requires
        e@ matches ExprV::Add(..) || e@ matches ExprV::Sub(..) || e@ matches ExprV::Mul(..) || e@
            matches ExprV::Div(..) || e@ matches ExprV::Eq(..) || e@ matches ExprV::Ne(..) || e@
            matches ExprV::Lt(..) || e@ matches ExprV::Gt(..) || e@ matches ExprV::And(..) || e@
            matches ExprV::Or(..),
    ensures
        ({
            let (op, a, b, n, l) = spec_as_binop(e@);
            r.0 == op && r.1@ == a && r.2@ == b && r.3 == n && r.4 == l
        }),
{
    match e {
        Expr::Add(a, b, n, l) => (BinOp::Add, *a, *b, n, l),
        Expr::Sub(a, b, n, l) => (BinOp::Sub, *a, *b, n, l),
        Expr::Mul(a, b, n, l) => (BinOp::Mul, *a, *b, n, l),
        Expr::Div(a, b, n, l) => (BinOp::Div, *a, *b, n, l),
        Expr::Eq(a, b, n, l) => (BinOp::Eq, *a, *b, n, l),
        Expr::Ne(a, b, n, l) => (BinOp::Ne, *a, *b, n, l),
        Expr::Lt(a, b, n, l) => (BinOp::Lt, *a, *b, n, l),
        Expr::Gt(a, b, n, l) => (BinOp::Gt, *a, *b, n, l),
        Expr::And(a, b, n, l) => (BinOp::And, *a, *b, n, l),
        Expr::Or(a, b, n, l) => (BinOp::Or, *a, *b, n, l),
        _ => unreached(),
    }
}

impl Machine {
    /// Evaluates one expression node.
    #[verifier::rlimit(100)]
    fn process_expr(&mut self, e: Expr, line: usize, file: &Vec<Vec<char>>) -> (r: Option<Action>)
        requires
            old(self)@.mode is Run,
        ensures
            ({
                let res = spec_process_eval(
                    old(self)@,
                    e@,
                    line as int,
                    crate::parse::file_view(file@),
                );
                final(self)@ =~~= res.0 && opt_action_view(r) == res.1
            }),
    {
        let ghost m0 = self@;
        match e {
            Expr::Boolean(b, _, _) => {
                self.vals.push(Value::B(b));
                None
            },
            Expr::Float(t, _, _) => {
                self.mode = Mode::Waiting(Await::PushNum);
                Some(Action::ParseNum(t))
            },
            Expr::Var(nm, en, el) => {
                match self.vars.get(&nm) {
                    Some(Some(Type::F(x))) => {
                        self.vals.push(Value::F(x));
                        None
                    },
                    Some(Some(Type::B(x))) => {
                        self.vals.push(Value::B(x));
                        None
                    },
                    Some(None) => {
                        self.fail(file, line, GenErrKind::UnDefinedVariableValue, en, el);
                        None
                    },
                    None => {
                        self.fail(file, line, GenErrKind::UnDefinedVariable, en, el);
                        None
                    },
                }
            },
            Expr::XCor(_, _) => {
                self.mode = Mode::Waiting(Await::PushNum);
                Some(Action::ReadX)
            },
            Expr::YCor(_, _) => {
                self.mode = Mode::Waiting(Await::PushNum);
                Some(Action::ReadY)
            },
            Expr::Heading(_, _) => {
                self.mode = Mode::Waiting(Await::PushNum);
                Some(Action::ReadHeading)
            },
            Expr::Color(_, _) => {
                self.mode = Mode::Waiting(Await::PushNum);
                Some(Action::ReadColor)
            },
            Expr::Error(_, _, _) => None,
            _ => {
                let (op, a, b, en, el) = take_binop(e);
                let (le, ll) = get_end_len(&a);
                let (re, rl) = get_end_len(&b);
                self.ctl.push(
                    Ctl::Apply { op, end: en, len: el, le, ll, re, rl, line },
                );
                let ghost bv = b@;
                let ghost av = a@;
                self.ctl.push(Ctl::Eval(b, line));
                let arith = match op {
                    BinOp::Add | BinOp::Sub | BinOp::Mul | BinOp::Div => true,
                    _ => false,
                };
                if arith {
                    self.ctl.push(Ctl::NumCheck { end: en, len: el, line });
                }
                self.ctl.push(Ctl::Eval(a, line));
                proof {
                    if arith {
                        assert(self@.ctl =~= m0.ctl + seq![
                            CtlV::Apply {
                                op,
                                end: en as int,
                                len: el as int,
                                le: le as int,
                                ll: ll as int,
                                re: re as int,
                                rl: rl as int,
                                line: line as int,
                            },
                            CtlV::Eval(bv, line as int),
                            CtlV::NumCheck { end: en as int, len: el as int, line: line as int },
                            CtlV::Eval(av, line as int),
                        ]);
                    } else {
                        assert(self@.ctl =~= m0.ctl + seq![
                            CtlV::Apply {
                                op,
                                end: en as int,
                                len: el as int,
                                le: le as int,
                                ll: ll as int,
                                re: re as int,
                                rl: rl as int,
                                line: line as int,
                            },
                            CtlV::Eval(bv, line as int),
                            CtlV::Eval(av, line as int),
                        ]);
                    }
                }
                None
            },
        }
    }

    /// Combines the two operand values of a binary node.
    #[verifier::rlimit(100)]
    fn process_apply(
        &mut self,
        op: BinOp,
        end: usize,
        len: usize,
        le: usize,
        ll: usize,
        re: usize,
        rl: usize,
        line: usize,
        file: &Vec<Vec<char>>,
    ) -> (r: Option<Action>)
        requires
            old(self)@.mode is Run,
        ensures
            ({
                let res = spec_process_apply(
                    old(self)@,
                    op,
                    end as int,
                    len as int,
                    le as int,
                    ll as int,
                    re as int,
                    rl as int,
                    line as int,
                    crate::parse::file_view(file@),
                );
                final(self)@ =~~= res.0 && opt_action_view(r) == res.1
            }),
    {
        if self.vals.len() < 2 {
            return None;
        }
        let v2 = match self.vals.pop() {
            Some(v) => v,
            None => unreached(),
        };
        let v1 = match self.vals.pop() {
            Some(v) => v,
            None => unreached(),
        };
        proof {
            assert(self@.vals =~= old(self)@.vals.drop_last().drop_last());
        }
        match op {
            BinOp::Add => match (v1, v2) {
                (Value::F(a), Value::F(b)) => {
                    self.mode = Mode::Waiting(Await::PushNum);
                    Some(Action::Add(a, b))
                },
                _ => {
                    self.fail(file, line, GenErrKind::UnexpectedBooleanType, end, len);
                    None
                },
            },
            BinOp::Sub => match (v1, v2) {
                (Value::F(a), Value::F(b)) => {
                    self.mode = Mode::Waiting(Await::PushNum);
                    Some(Action::Sub(a, b))
                },
                _ => {
                    self.fail(file, line, GenErrKind::UnexpectedBooleanType, end, len);
                    None
                },
            },
            BinOp::Mul => match (v1, v2) {
                (Value::F(a), Value::F(b)) => {
                    self.mode = Mode::Waiting(Await::PushNum);
                    Some(Action::Mul(a, b))
                },
                _ => {
                    self.fail(file, line, GenErrKind::UnexpectedBooleanType, end, len);
                    None
                },
            },
            BinOp::Div => match (v1, v2) {
                (Value::F(a), Value::F(b)) => {
                    self.mode = Mode::Waiting(Await::DivCheck { a, b, end, len, line });
                    Some(Action::EqZero(b))
                },
                _ => {
                    self.fail(file, line, GenErrKind::UnexpectedBooleanType, end, len);
                    None
                },
            },
            BinOp::Eq => match (v1, v2) {
                (Value::F(a), Value::F(b)) => {
                    self.mode = Mode::Waiting(Await::PushBool);
                    Some(Action::EqNum(a, b))
                },
                (Value::B(a), Value::B(b)) => {
                    self.vals.push(Value::B(a == b));
                    None
                },
                _ => {
                    self.fail(file, line, GenErrKind::UnmatchedExprType, end, len);
                    None
                },
            },
            BinOp::Ne => match (v1, v2) {
                (Value::F(a), Value::F(b)) => {
                    self.mode = Mode::Waiting(Await::PushBool);
                    Some(Action::NeNum(a, b))
                },
                (Value::B(a), Value::B(b)) => {
                    self.vals.push(Value::B(a != b));
                    None
                },
                _ => {
                    self.fail(file, line, GenErrKind::UnmatchedExprType, end, len);
                    None
                },
            },
            BinOp::Lt => match (v1, v2) {
                (Value::F(a), Value::F(b)) => {
                    self.mode = Mode::Waiting(Await::PushBool);
                    Some(Action::LtNum(a, b))
                },
                (Value::B(_), _) => {
                    self.fail(file, line, GenErrKind::UnexpectedBooleanType, le, ll);
                    None
                },
                _ => {
                    self.fail(file, line, GenErrKind::UnexpectedBooleanType, re, rl);
                    None
                },
            },
            BinOp::Gt => match (v1, v2) {
                (Value::F(a), Value::F(b)) => {
                    self.mode = Mode::Waiting(Await::PushBool);
                    Some(Action::GtNum(a, b))
                },
                (Value::B(_), _) => {
                    self.fail(file, line, GenErrKind::UnexpectedBooleanType, le, ll);
                    None
                },
                _ => {
                    self.fail(file, line, GenErrKind::UnexpectedBooleanType, re, rl);
                    None
                },
            },
            BinOp::And => match (v1, v2) {
                (Value::B(a), Value::B(b)) => {
                    self.vals.push(Value::B(a && b));
                    None
                },
                (Value::F(_), _) => {
                    self.fail(file, line, GenErrKind::UnexpectedNumberType, le, ll);
                    None
                },
                _ => {
                    self.fail(file, line, GenErrKind::UnexpectedNumberType, re, rl);
                    None
                },
            },
            BinOp::Or => match (v1, v2) {
                (Value::B(a), Value::B(b)) => {
                    self.vals.push(Value::B(a || b));
                    None
                },
                (Value::F(_), _) => {
                    self.fail(file, line, GenErrKind::UnexpectedNumberType, le, ll);
                    None
                },
                _ => {
                    self.fail(file, line, GenErrKind::UnexpectedNumberType, re, rl);
                    None
                },
            },
        }
    }

    /// Consumes the value a judge or finisher waited for.
    #[verifier::rlimit(100)]
    fn process_fin(&mut self, top: Ctl, file: &Vec<Vec<char>>) -> (r: Option<Action>)
        requires
            old(self)@.mode is Run,
            !(top@ is Stmts),
            !(top@ is Eval),
            !(top@ is Apply),
    ensures
            ({
                let res = spec_process_fin(old(self)@, top@, crate::parse::file_view(file@));
                final(self)@ =~~= res.0 && opt_action_view(r) == res.1
            }),
    {
        let ghost m0 = self@;
        if let Ctl::NumCheck { end, len, line } = top {
            if self.vals.len() < 1 {
                return None;
            }
            let peeked = self.vals[self.vals.len() - 1];
            match peeked {
                Value::F(_) => {
                    return None;
                },
                Value::B(_) => {
                    let _ = self.vals.pop();
                    proof {
                        assert(self@.vals =~= m0.vals.drop_last());
                    }
                    self.fail(file, line, GenErrKind::UnexpectedBooleanType, end, len);
                    return None;
                },
            }
        }
        if self.vals.len() < 1 {
            return None;
        }
        let v = match self.vals.pop() {
            Some(v) => v,
            None => unreached(),
        };
        proof {
            assert(self@.vals =~= m0.vals.drop_last());
        }
        match top {
            Ctl::IfJudge { body, end, len, line } => {
                let ghost bodyv = crate::structs::stmts_view(body@);
                match v {
                    Value::B(true) => {
                        self.ctl.push(Ctl::Stmts(body, 0));
                        proof {
                            assert(self@.ctl =~= m0.ctl.push(CtlV::Stmts(bodyv, 0)));
                        }
                        None
                    },
                    Value::B(false) => None,
                    Value::F(_) => {
                        self.fail(file, line, GenErrKind::UnexpectedNumberType, end, len);
                        None
                    },
                }
            },
            Ctl::WhileJudge { cond, body, line } => {
                match v {
                    Value::B(true) => {
                        let ghost condv = cond@;
                        let ghost bodyv = crate::structs::stmts_view(body@);
                        let cond2 = crate::structs::clone_expr(&cond);
                        let body2 = crate::structs::clone_stmts(&body);
                        self.ctl.push(Ctl::WhileJudge { cond, body, line });
                        self.ctl.push(Ctl::Eval(cond2, line));
                        self.ctl.push(Ctl::Stmts(body2, 0));
                        proof {
                            assert(self@.ctl =~= m0.ctl + seq![
                                CtlV::WhileJudge {
                                    cond: condv,
                                    body: bodyv,
                                    line: line as int,
                                },
                                CtlV::Eval(condv, line as int),
                                CtlV::Stmts(bodyv, 0),
                            ]);
                        }
                        None
                    },
                    Value::B(false) => None,
                    Value::F(_) => {
                        let (en, el) = get_end_len(&cond);
                        self.fail(file, line, GenErrKind::UnexpectedNumberType, en, el);
                        None
                    },
                }
            },
            Ctl::MakeFin { target, line } => {
                match target {
                    Assign::Var(nm, _, _) => {
                        let t = match v {
                            Value::F(x) => Type::F(x),
                            Value::B(x) => Type::B(x),
                        };
                        self.vars.set(nm, Some(t));
                        None
                    },
                    Assign::Error(..) => None,
                }
            },
            Ctl::AddAssignFin { name, org, end, len, line } => {
                match v {
                    Value::B(_) => {
                        self.fail(file, line, GenErrKind::UnexpectedNumberType, end, len);
                        None
                    },
                    Value::F(num) => {
                        self.mode = Mode::Waiting(Await::AddAssignBind { name });
                        Some(Action::Add(num, org))
                    },
                }
            },
            Ctl::MoveFin { offset, end, len, line } => {
                match v {
                    Value::B(_) => {
                        self.fail(file, line, GenErrKind::UnexpectedNumberType, end, len);
                        None
                    },
                    Value::F(d) => {
                        self.mode = Mode::Waiting(Await::Ack);
                        Some(Action::Move(offset, d))
                    },
                }
            },
            Ctl::ColorFin { end, len, line } => {
                match v {
                    Value::B(_) => {
                        self.fail(file, line, GenErrKind::UnexpectedNumberType, end, len);
                        None
                    },
                    Value::F(x) => {
                        self.mode = Mode::Waiting(Await::ColorIsInt { v: x, end, len, line });
                        Some(Action::IsInt(x))
                    },
                }
            },
            Ctl::TurnFin { heading, end, len, line } => {
                match v {
                    Value::B(_) => {
                        self.fail(file, line, GenErrKind::UnexpectedNumberType, end, len);
                        None
                    },
                    Value::F(x) => {
                        self.mode = Mode::Waiting(
                            Await::TurnIsInt { v: x, heading, end, len, line },
                        );
                        Some(Action::IsInt(x))
                    },
                }
            },
            Ctl::SetXYFin { isx, end, len, line } => {
                match v {
                    Value::B(_) => {
                        self.fail(file, line, GenErrKind::UnexpectedNumberType, end, len);
                        None
                    },
                    Value::F(x) => {
                        self.mode = Mode::Waiting(Await::Ack);
                        if isx {
                            Some(Action::SetX(x))
                        } else {
                            Some(Action::SetY(x))
                        }
                    },
                }
            },
            Ctl::BindArg { target } => {
                match target {
                    Assign::Var(nm, _, _) => {
                        let t = match v {
                            Value::F(x) => Type::F(x),
                            Value::B(x) => Type::B(x),
                        };
                        self.vars.set(nm, Some(t));
                        None
                    },
                    Assign::Error(..) => None,
                }
            },
            _ => {
                proof {
                    assert(false);
                }
                None
            },
        }
    }

    /// One step of the machine: consumes the top control entry, or the
    /// event the previous step's action produced; the returned action, if
    /// any, is what the caller must perform before stepping again.  When
    /// `mode` becomes `Done`, the walk has finished with the recorded
    /// verdict.
    pub fn step(&mut self, ev: Option<Event>, table: &Function, file: &Vec<Vec<char>>) -> (r:
        Option<Action>)
        ensures
            ({
                let res = spec_step(old(self)@, ev, table@, crate::parse::file_view(file@));
                final(self)@ =~~= res.0 && opt_action_view(r) == res.1
            }),
    {
        let ghost m0 = self@;
        let waiting = match &self.mode {
            Mode::Waiting(_) => true,
            _ => false,
        };
        let done = match &self.mode {
            Mode::Done(_) => true,
            _ => false,
        };
        if done {
            return None;
        }
        if waiting {
            match ev {
                Some(e) => {
                    return self.apply_event(e, file);
                },
                None => {
                    return None;
                },
            }
        }
        if ev.is_some() {
            return None;
        }
        let top = match self.ctl.pop() {
            Some(c) => c,
            None => {
                self.mode = Mode::Done(Ok(()));
                return None;
            },
        };
        proof {
            assert(self@.ctl =~= m0.ctl.drop_last());
            assert(top@ == m0.ctl.last());
        }
        match top {
            Ctl::Stmts(list, idx) => self.process_stmt(list, idx, table, file),
            Ctl::Eval(e, line) => self.process_expr(e, line, file),
            Ctl::Apply { op, end, len, le, ll, re, rl, line } => self.process_apply(
                op,
                end,
                len,
                le,
                ll,
                re,
                rl,
                line,
                file,
            ),
            other => self.process_fin(other, file),
        }
    }
}


/// The fixed remediation hint for each evaluation kind.
pub open spec fn spec_gen_help(k: GenErrKind) -> Seq<char> {
    match k {
        GenErrKind::UnexpectedNumberType => "Replace with an expression that returns a boolean, choosing from `EQ`, `NE`, `GT`, `LT`, `AND`, or `OR`."@,
        GenErrKind::UnexpectedBooleanType => "Replace with an expression that returns a number, choosing from `FLOAT`, `VAR`, `ADD`, `SUB`, `MUL`, `DIV`, `XCOR`, `YCOR`, `HEADING`, or `COLOR`."@,
        GenErrKind::DivideByZero => "Change the divisor to a non-zero value or check the variable value."@,
        GenErrKind::UnmatchedExprType => "Change the expression to match the other expression type."@,
        GenErrKind::NonIntegerValueError => "Change the value to an integer value or check the variable value."@,
        GenErrKind::UnDefinedColor => "Change the color value to an integer value from 0 to 15."@,
        GenErrKind::UnDefinedVariable => "Use `MAKE` to define the variable before using it."@,
        GenErrKind::UnDefinedVariableValue => "This value may be defined in the arguments of `TO`, but its specific value has not been defined yet and cannot be used."@,
        GenErrKind::UnDefinedFunction => "Define the `TO` function before using it."@,
        GenErrKind::TooManyArguments => "Remove the extra arguments from the function call."@,
        GenErrKind::MissingArguments => "Add the missing arguments to the function call."@,
    }
}

/// The message label for each evaluation kind, up to the line number.
pub open spec fn spec_gen_label(k: GenErrKind) -> Seq<char> {
    match k {
        GenErrKind::UnexpectedNumberType => "Unexpected `number` or `variable` type in expression (Ln "@,
        GenErrKind::UnexpectedBooleanType => "Unexpected `boolean` type in expression (Ln "@,
        GenErrKind::DivideByZero => "Divide by zero error (Ln "@,
        GenErrKind::UnmatchedExprType => "Unmatched expression type (Ln "@,
        GenErrKind::NonIntegerValueError => "Non-integer value error (Ln "@,
        GenErrKind::UnDefinedColor => "Undefined color error (Ln "@,
        GenErrKind::UnDefinedVariable => "Undefined variable error (Ln "@,
        GenErrKind::UnDefinedVariableValue => "Undefined variable value error (Ln "@,
        GenErrKind::UnDefinedFunction => "Undefined function error (Ln "@,
        GenErrKind::TooManyArguments => "Too many arguments error (Ln "@,
        GenErrKind::MissingArguments => "Missing arguments error (Ln "@,
    }
}

/// The human-readable message for an evaluation kind at a position.
pub open spec fn spec_gen_message(k: GenErrKind, line: int, start: int) -> Seq<char> {
    spec_gen_label(k) + crate::text::spec_dec(line) + ", Col "@ + crate::text::spec_dec(start + 1)
        + ")"@
}

/// The fixed remediation hint for an evaluation kind.
pub fn gen_kind_help(k: GenErrKind) -> (r: &'static str)
    ensures
        r@ == spec_gen_help(k),
{
    match k {
        GenErrKind::UnexpectedNumberType => "Replace with an expression that returns a boolean, choosing from `EQ`, `NE`, `GT`, `LT`, `AND`, or `OR`.",
        GenErrKind::UnexpectedBooleanType => "Replace with an expression that returns a number, choosing from `FLOAT`, `VAR`, `ADD`, `SUB`, `MUL`, `DIV`, `XCOR`, `YCOR`, `HEADING`, or `COLOR`.",
        GenErrKind::DivideByZero => "Change the divisor to a non-zero value or check the variable value.",
        GenErrKind::UnmatchedExprType => "Change the expression to match the other expression type.",
        GenErrKind::NonIntegerValueError => "Change the value to an integer value or check the variable value.",
        GenErrKind::UnDefinedColor => "Change the color value to an integer value from 0 to 15.",
        GenErrKind::UnDefinedVariable => "Use `MAKE` to define the variable before using it.",
        GenErrKind::UnDefinedVariableValue => "This value may be defined in the arguments of `TO`, but its specific value has not been defined yet and cannot be used.",
        GenErrKind::UnDefinedFunction => "Define the `TO` function before using it.",
        GenErrKind::TooManyArguments => "Remove the extra arguments from the function call.",
        GenErrKind::MissingArguments => "Add the missing arguments to the function call.",
    }
}

/// The positioned message for an evaluation kind.
pub fn gen_kind_message(k: GenErrKind, line: usize, start: usize) -> (r: Vec<char>)
    requires
        start < usize::MAX,
    ensures
        r@ == spec_gen_message(k, line as int, start as int),
{
    let mut out: Vec<char> = Vec::new();
    match k {
        GenErrKind::UnexpectedNumberType => crate::text::push_lit(
            &mut out,
            "Unexpected `number` or `variable` type in expression (Ln ",
        ),
        GenErrKind::UnexpectedBooleanType => crate::text::push_lit(
            &mut out,
            "Unexpected `boolean` type in expression (Ln ",
        ),
        GenErrKind::DivideByZero => crate::text::push_lit(&mut out, "Divide by zero error (Ln "),
        GenErrKind::UnmatchedExprType => crate::text::push_lit(
            &mut out,
            "Unmatched expression type (Ln ",
        ),
        GenErrKind::NonIntegerValueError => crate::text::push_lit(
            &mut out,
            "Non-integer value error (Ln ",
        ),
        GenErrKind::UnDefinedColor => crate::text::push_lit(&mut out, "Undefined color error (Ln "),
        GenErrKind::UnDefinedVariable => crate::text::push_lit(
            &mut out,
            "Undefined variable error (Ln ",
        ),
        GenErrKind::UnDefinedVariableValue => crate::text::push_lit(
            &mut out,
            "Undefined variable value error (Ln ",
        ),
        GenErrKind::UnDefinedFunction => crate::text::push_lit(
            &mut out,
            "Undefined function error (Ln ",
        ),
        GenErrKind::TooManyArguments => crate::text::push_lit(
            &mut out,
            "Too many arguments error (Ln ",
        ),
        GenErrKind::MissingArguments => crate::text::push_lit(
            &mut out,
            "Missing arguments error (Ln ",
        ),
    }
    let ln = crate::text::usize_chars(line);
    crate::text::push_chars(&mut out, &ln);
    crate::text::push_lit(&mut out, ", Col ");
    let col = crate::text::usize_chars(start + 1);
    crate::text::push_chars(&mut out, &col);
    crate::text::push_lit(&mut out, ")");
    out
}

impl GenerationError {
    /// The fixed remediation hint for this diagnostic's kind.
    pub fn help(&self) -> (r: &'static str)
        ensures
            r@ == spec_gen_help(self.kind),
    {
        gen_kind_help(self.kind)
    }

    /// The positioned message, citing the reported line number and the
    /// one-based column of the span start.
    pub fn message(&self) -> (r: Vec<char>)
        requires
            self.start < usize::MAX,
        ensures
            r@ == spec_gen_message(self.kind, self.line as int, self.start as int),
    {
        gen_kind_message(self.kind, self.line, self.start)
    }
}

} // verus!
