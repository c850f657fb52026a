//! The parsed representation: expressions, statements, declarations, the
//! function table, and their mathematical models.  Every executable type has
//! a ghost model (`…V`) over `Seq` and `int`, reached through `View`; the
//! contracts of the parser, the evaluator and the transpiler all speak of
//! these models.

use vstd::prelude::*;

use crate::text::valid_number;

verus! {

/// The diagnostic kinds that parsing and structural validation can report.
/// The remediation text shown for each kind is presentation and lives with
/// the caller; the kind itself is the contract.
#[derive(Debug, Clone, Copy, PartialEq, Eq, Structural)]
pub enum ErrKind {
    UnexpectedExtraOperand,
    InvalidNumber,
    UnexpectedExpr,
    MissingLeftBracket,
    MissingRightBracket,
    MissingOperand,
    UnexpectedAssign,
    MissingEnd,
    MissingName,
    InvalidName,
    MissingTo,
    MissingWhileOrIf,
    DeclWrongPosition,
    RepeatFunctionName,
}

/// A prefix expression.  Every node carries a span as the pair
/// `(end, len)`: `end` is the number of characters remaining after the node
/// in its sentence and `len` the number of characters the node consumed,
/// surrounding spacing included.  An `Error` node is a valid leaf: parsing
/// never fails while a character remains to classify.
#[derive(Debug, PartialEq)]
pub enum Expr {
    Boolean(bool, usize, usize),
    /// Holds the literal text of a quoted number; the numeric value it
    /// denotes is produced by the caller that drives evaluation.
    Float(Vec<char>, usize, usize),
    Var(Vec<char>, usize, usize),
    Add(Box<Expr>, Box<Expr>, usize, usize),
    Sub(Box<Expr>, Box<Expr>, usize, usize),
    Mul(Box<Expr>, Box<Expr>, usize, usize),
    Div(Box<Expr>, Box<Expr>, usize, usize),
    Eq(Box<Expr>, Box<Expr>, usize, usize),
    Ne(Box<Expr>, Box<Expr>, usize, usize),
    Lt(Box<Expr>, Box<Expr>, usize, usize),
    Gt(Box<Expr>, Box<Expr>, usize, usize),
    And(Box<Expr>, Box<Expr>, usize, usize),
    Or(Box<Expr>, Box<Expr>, usize, usize),
    XCor(usize, usize),
    YCor(usize, usize),
    Heading(usize, usize),
    Color(usize, usize),
    Error(ErrKind, usize, usize),
}

/// The left-hand side of `MAKE` / `ADDASSIGN`, or a formal parameter.
#[derive(Debug, PartialEq)]
pub enum Assign {
    Var(Vec<char>, usize, usize),
    Error(ErrKind, usize, usize),
}

/// A declaration or function-call identifier.
#[derive(Debug, PartialEq)]
pub enum DeclName {
    Named(Vec<char>, usize, usize),
    Error(ErrKind, usize, usize),
}

/// One statement; block statements carry their body and every statement
/// carries the index of the line it came from.
#[derive(Debug, PartialEq)]
pub enum Stmt {
    If(Box<Expr>, Vec<Stmt>, usize),
    While(Box<Expr>, Vec<Stmt>, usize),
    Make(Box<Assign>, Box<Expr>, usize),
    PenUp(usize),
    PenDown(usize),
    Forward(Box<Expr>, usize),
    Back(Box<Expr>, usize),
    Left(Box<Expr>, usize),
    Right(Box<Expr>, usize),
    SetPenColor(Box<Expr>, usize),
    Turn(Box<Expr>, usize),
    SetHeading(Box<Expr>, usize),
    SetX(Box<Expr>, usize),
    SetY(Box<Expr>, usize),
    AddAssign(Box<Assign>, Box<Expr>, usize),
    Func(Box<DeclName>, Vec<Expr>, usize),
    Comments(Vec<char>, usize),
}

/// A declaration header: its name and formal parameters; the body is
/// attached only when the matching `END` is found.
#[derive(Debug, PartialEq)]
pub struct Decl {
    pub name: Box<DeclName>,
    pub var: Vec<Box<Assign>>,
}

/// A table entry: formal parameters and body of one function.
#[derive(Debug, PartialEq)]
pub struct FunctionType {
    pub args: Vec<Box<Assign>>,
    pub stmt_list: Vec<Stmt>,
}

// ---------------------------------------------------------------------------
// Ghost models.
// ---------------------------------------------------------------------------

pub enum ExprV {
    Boolean(bool, int, int),
    Float(Seq<char>, int, int),
    Var(Seq<char>, int, int),
    Add(Box<ExprV>, Box<ExprV>, int, int),
    Sub(Box<ExprV>, Box<ExprV>, int, int),
    Mul(Box<ExprV>, Box<ExprV>, int, int),
    Div(Box<ExprV>, Box<ExprV>, int, int),
    Eq(Box<ExprV>, Box<ExprV>, int, int),
    Ne(Box<ExprV>, Box<ExprV>, int, int),
    Lt(Box<ExprV>, Box<ExprV>, int, int),
    Gt(Box<ExprV>, Box<ExprV>, int, int),
    And(Box<ExprV>, Box<ExprV>, int, int),
    Or(Box<ExprV>, Box<ExprV>, int, int),
    XCor(int, int),
    YCor(int, int),
    Heading(int, int),
    Color(int, int),
    Error(ErrKind, int, int),
}

pub enum AssignV {
    Var(Seq<char>, int, int),
    Error(ErrKind, int, int),
}

pub enum DeclNameV {
    Named(Seq<char>, int, int),
    Error(ErrKind, int, int),
}

pub enum StmtV {
    If(ExprV, Seq<StmtV>, int),
    While(ExprV, Seq<StmtV>, int),
    Make(AssignV, ExprV, int),
    PenUp(int),
    PenDown(int),
    Forward(ExprV, int),
    Back(ExprV, int),
    Left(ExprV, int),
    Right(ExprV, int),
    SetPenColor(ExprV, int),
    Turn(ExprV, int),
    SetHeading(ExprV, int),
    SetX(ExprV, int),
    SetY(ExprV, int),
    AddAssign(AssignV, ExprV, int),
    Func(DeclNameV, Seq<ExprV>, int),
    Comments(Seq<char>, int),
}

pub struct DeclV {
    pub name: DeclNameV,
    pub var: Seq<AssignV>,
}

pub struct FunctionTypeV {
    pub args: Seq<AssignV>,
    pub stmt_list: Seq<StmtV>,
}

pub open spec fn expr_view(e: Expr) -> ExprV
    decreases e,
{
    match e {
        Expr::Boolean(b, n, l) => ExprV::Boolean(b, n as int, l as int),
        Expr::Float(t, n, l) => ExprV::Float(t@, n as int, l as int),
        Expr::Var(t, n, l) => ExprV::Var(t@, n as int, l as int),
        Expr::Add(a, b, n, l) => ExprV::Add(
            Box::new(expr_view(*a)),
            Box::new(expr_view(*b)),
            n as int,
            l as int,
        ),
        Expr::Sub(a, b, n, l) => ExprV::Sub(
            Box::new(expr_view(*a)),
            Box::new(expr_view(*b)),
            n as int,
            l as int,
        ),
        Expr::Mul(a, b, n, l) => ExprV::Mul(
            Box::new(expr_view(*a)),
            Box::new(expr_view(*b)),
            n as int,
            l as int,
        ),
        Expr::Div(a, b, n, l) => ExprV::Div(
            Box::new(expr_view(*a)),
            Box::new(expr_view(*b)),
            n as int,
            l as int,
        ),
        Expr::Eq(a, b, n, l) => ExprV::Eq(
            Box::new(expr_view(*a)),
            Box::new(expr_view(*b)),
            n as int,
            l as int,
        ),
        Expr::Ne(a, b, n, l) => ExprV::Ne(
            Box::new(expr_view(*a)),
            Box::new(expr_view(*b)),
            n as int,
            l as int,
        ),
        Expr::Lt(a, b, n, l) => ExprV::Lt(
            Box::new(expr_view(*a)),
            Box::new(expr_view(*b)),
            n as int,
            l as int,
        ),
        Expr::Gt(a, b, n, l) => ExprV::Gt(
            Box::new(expr_view(*a)),
            Box::new(expr_view(*b)),
            n as int,
            l as int,
        ),
        Expr::And(a, b, n, l) => ExprV::And(
            Box::new(expr_view(*a)),
            Box::new(expr_view(*b)),
            n as int,
            l as int,
        ),
        Expr::Or(a, b, n, l) => ExprV::Or(
            Box::new(expr_view(*a)),
            Box::new(expr_view(*b)),
            n as int,
            l as int,
        ),
        Expr::XCor(n, l) => ExprV::XCor(n as int, l as int),
        Expr::YCor(n, l) => ExprV::YCor(n as int, l as int),
        Expr::Heading(n, l) => ExprV::Heading(n as int, l as int),
        Expr::Color(n, l) => ExprV::Color(n as int, l as int),
        Expr::Error(k, n, l) => ExprV::Error(k, n as int, l as int),
    }
}

pub open spec fn assign_view(a: Assign) -> AssignV {
    match a {
        Assign::Var(t, n, l) => AssignV::Var(t@, n as int, l as int),
        Assign::Error(k, n, l) => AssignV::Error(k, n as int, l as int),
    }
}

pub open spec fn decl_name_view(d: DeclName) -> DeclNameV {
    match d {
        DeclName::Named(t, n, l) => DeclNameV::Named(t@, n as int, l as int),
        DeclName::Error(k, n, l) => DeclNameV::Error(k, n as int, l as int),
    }
}

pub open spec fn exprs_view(s: Seq<Expr>) -> Seq<ExprV>
    decreases s,
{
    Seq::new(
        s.len(),
        |i: int|
            if 0 <= i < s.len() {
                expr_view(s[i])
            } else {
                arbitrary()
            },
    )
}

pub open spec fn assigns_view(s: Seq<Box<Assign>>) -> Seq<AssignV> {
    Seq::new(s.len(), |i: int| assign_view(*s[i]))
}

pub open spec fn stmt_view(s: Stmt) -> StmtV
    decreases s,
{
    match s {
        Stmt::If(e, body, line) => StmtV::If(expr_view(*e), stmts_view(body@), line as int),
        Stmt::While(e, body, line) => StmtV::While(expr_view(*e), stmts_view(body@), line as int),
        Stmt::Make(a, e, line) => StmtV::Make(assign_view(*a), expr_view(*e), line as int),
        Stmt::PenUp(line) => StmtV::PenUp(line as int),
        Stmt::PenDown(line) => StmtV::PenDown(line as int),
        Stmt::Forward(e, line) => StmtV::Forward(expr_view(*e), line as int),
        Stmt::Back(e, line) => StmtV::Back(expr_view(*e), line as int),
        Stmt::Left(e, line) => StmtV::Left(expr_view(*e), line as int),
        Stmt::Right(e, line) => StmtV::Right(expr_view(*e), line as int),
        Stmt::SetPenColor(e, line) => StmtV::SetPenColor(expr_view(*e), line as int),
        Stmt::Turn(e, line) => StmtV::Turn(expr_view(*e), line as int),
        Stmt::SetHeading(e, line) => StmtV::SetHeading(expr_view(*e), line as int),
        Stmt::SetX(e, line) => StmtV::SetX(expr_view(*e), line as int),
        Stmt::SetY(e, line) => StmtV::SetY(expr_view(*e), line as int),
        Stmt::AddAssign(a, e, line) => StmtV::AddAssign(
            assign_view(*a),
            expr_view(*e),
            line as int,
        ),
        Stmt::Func(n, args, line) => StmtV::Func(
            decl_name_view(*n),
            exprs_view(args@),
            line as int,
        ),
        Stmt::Comments(t, line) => StmtV::Comments(t@, line as int),
    }
}

pub open spec fn stmts_view(s: Seq<Stmt>) -> Seq<StmtV>
    decreases s,
{
    Seq::new(
        s.len(),
        |i: int|
            if 0 <= i < s.len() {
                stmt_view(s[i])
            } else {
                arbitrary()
            },
    )
}

pub open spec fn decl_view(d: Decl) -> DeclV {
    DeclV { name: decl_name_view(*d.name), var: assigns_view(d.var@) }
}

pub open spec fn function_type_view(f: FunctionType) -> FunctionTypeV {
    FunctionTypeV { args: assigns_view(f.args@), stmt_list: stmts_view(f.stmt_list@) }
}

impl View for Expr {
    type V = ExprV;

    open spec fn view(&self) -> ExprV {
        expr_view(*self)
    }
}

impl View for Assign {
    type V = AssignV;

    open spec fn view(&self) -> AssignV {
        assign_view(*self)
    }
}

impl View for DeclName {
    type V = DeclNameV;

    open spec fn view(&self) -> DeclNameV {
        decl_name_view(*self)
    }
}

impl View for Stmt {
    type V = StmtV;

    open spec fn view(&self) -> StmtV {
        stmt_view(*self)
    }
}

impl View for Decl {
    type V = DeclV;

    open spec fn view(&self) -> DeclV {
        decl_view(*self)
    }
}

impl View for FunctionType {
    type V = FunctionTypeV;

    open spec fn view(&self) -> FunctionTypeV {
        function_type_view(*self)
    }
}

// ---------------------------------------------------------------------------
// Spans and well-formedness.
// ---------------------------------------------------------------------------

/// The span of a non-error expression node, as stored by the parser.
pub open spec fn spec_end_len(e: ExprV) -> (int, int) {
    match e {
        ExprV::Boolean(_, n, l) => (n, l),
        ExprV::Float(_, n, l) => (n, l),
        ExprV::Var(_, n, l) => (n, l),
        ExprV::Add(_, _, n, l) => (n, l),
        ExprV::Sub(_, _, n, l) => (n, l),
        ExprV::Mul(_, _, n, l) => (n, l),
        ExprV::Div(_, _, n, l) => (n, l),
        ExprV::Eq(_, _, n, l) => (n, l),
        ExprV::Ne(_, _, n, l) => (n, l),
        ExprV::Lt(_, _, n, l) => (n, l),
        ExprV::Gt(_, _, n, l) => (n, l),
        ExprV::And(_, _, n, l) => (n, l),
        ExprV::Or(_, _, n, l) => (n, l),
        ExprV::XCor(n, l) => (n, l),
        ExprV::YCor(n, l) => (n, l),
        ExprV::Heading(n, l) => (n, l),
        ExprV::Color(n, l) => (n, l),
        ExprV::Error(_, n, l) => (n, l),
    }
}

pub open spec fn assign_span_ok(a: AssignV, linelen: int) -> bool {
    match a {
        AssignV::Var(_, n, l) => 0 <= n && 0 <= l && n + l <= linelen,
        AssignV::Error(_, n, l) => 0 <= n && 0 <= l && n + l <= linelen,
    }
}

// ---------------------------------------------------------------------------
// The function table.
// ---------------------------------------------------------------------------

/// Association lookup: the value of the first entry whose key is `k`.
pub open spec fn assoc_get<V>(s: Seq<(Seq<char>, V)>, k: Seq<char>) -> Option<V>
    decreases s.len(),
{
    if s.len() == 0 {
        None
    } else if s[0].0 == k {
        Some(s[0].1)
    } else {
        assoc_get(s.drop_first(), k)
    }
}

pub open spec fn assoc_contains<V>(s: Seq<(Seq<char>, V)>, k: Seq<char>) -> bool {
    assoc_get(s, k) is Some
}

/// Association update: replaces the first entry with key `k`, or appends a
/// new entry when none exists.
pub open spec fn assoc_set<V>(s: Seq<(Seq<char>, V)>, k: Seq<char>, v: V) -> Seq<(Seq<char>, V)>
    decreases s.len(),
{
    if s.len() == 0 {
        seq![(k, v)]
    } else if s[0].0 == k {
        seq![(k, v)] + s.drop_first()
    } else {
        seq![s[0]] + assoc_set(s.drop_first(), k, v)
    }
}

pub proof fn lemma_assoc_set_get<V>(s: Seq<(Seq<char>, V)>, k: Seq<char>, v: V, k2: Seq<char>)
    ensures
        assoc_get(assoc_set(s, k, v), k2) == if k2 == k {
            Some(v)
        } else {
            assoc_get(s, k2)
        },
    decreases s.len(),
{
    if s.len() == 0 {
        let r = assoc_set(s, k, v);
        assert(r == seq![(k, v)]);
        assert(r[0] == (k, v));
        assert(r.drop_first() =~= Seq::<(Seq<char>, V)>::empty());
        assert(assoc_get(Seq::<(Seq<char>, V)>::empty(), k2) is None);
        assert(assoc_get(r, k2) == if k2 == k { Some(v) } else { None });
    } else if s[0].0 == k {
        let r = assoc_set(s, k, v);
        assert(r == seq![(k, v)] + s.drop_first());
        assert(r[0] == (k, v));
        assert(r.drop_first() =~= s.drop_first());
    } else {
        let r = assoc_set(s, k, v);
        assert(r == seq![s[0]] + assoc_set(s.drop_first(), k, v));
        assert(r[0] == s[0]);
        assert(r.drop_first() =~= assoc_set(s.drop_first(), k, v));
        lemma_assoc_set_get(s.drop_first(), k, v, k2);
    }
}

pub proof fn lemma_assoc_get_at<V>(s: Seq<(Seq<char>, V)>, i: int)
    requires
        0 <= i < s.len(),
        forall|j: int| 0 <= j < i ==> (#[trigger] s[j]).0 != s[i].0,
    ensures
        assoc_get(s, s[i].0) == Some(s[i].1),
    decreases i,
{
    if i == 0 {
    } else {
        assert(s[0].0 != s[i].0);
        lemma_assoc_get_at(s.drop_first(), i - 1);
        assert(s.drop_first()[i - 1] == s[i]);
    }
}

pub proof fn lemma_assoc_get_none<V>(s: Seq<(Seq<char>, V)>, k: Seq<char>)
    requires
        forall|j: int| 0 <= j < s.len() ==> (#[trigger] s[j]).0 != k,
    ensures
        assoc_get(s, k) is None,
    decreases s.len(),
{
    if s.len() > 0 {
        lemma_assoc_get_none(s.drop_first(), k);
    }
}

/// The name-to-definition table; the anonymous (empty-named) entry holds the
/// top-level program.  Keys are unique; entries keep insertion order.
#[derive(Debug, PartialEq)]
pub struct Function {
    map: Vec<(Vec<char>, FunctionType)>,
}

pub open spec fn table_view(m: Seq<(Vec<char>, FunctionType)>) -> Seq<(Seq<char>, FunctionTypeV)> {
    Seq::new(m.len(), |i: int| (m[i].0@, function_type_view(m[i].1)))
}

impl View for Function {
    type V = Seq<(Seq<char>, FunctionTypeV)>;

    closed spec fn view(&self) -> Seq<(Seq<char>, FunctionTypeV)> {
        table_view(self.map@)
    }
}

impl Function {
    /// Keys in the table never repeat.
    pub open spec fn wf(&self) -> bool {
        forall|i: int, j: int|
            0 <= i < j < self@.len() ==> (#[trigger] self@[i]).0 != (#[trigger] self@[j]).0
    }

    pub fn new() -> (r: Function)
        ensures
            r@ == Seq::<(Seq<char>, FunctionTypeV)>::empty(),
            r.wf(),
    {
        let r = Function { map: Vec::new() };
        proof {
            assert(r@ =~= Seq::<(Seq<char>, FunctionTypeV)>::empty());
        }
        r
    }

    /// Whether a name is already declared.
    pub fn check_name(&self, name: &Vec<char>) -> (r: bool)
        ensures
            r == assoc_contains(self@, name@),
    {
        let mut i: usize = 0;
        while i < self.map.len()
            invariant
                0 <= i <= self@.len(),
                self@.len() == self.map@.len(),
                forall|j: int| 0 <= j < i ==> (#[trigger] self@[j]).0 != name@,
            decreases self@.len() - i,
        {
            if crate::text::chars_eq(&self.map[i].0, name) {
                proof {
                    assert(self@[i as int].0 == name@);
                    lemma_assoc_get_at(self@, i as int);
                }
                return true;
            }
            i += 1;
        }
        proof {
            lemma_assoc_get_none(self@, name@);
        }
        false
    }

    /// Binds a name to its parameters and body, replacing any entry of the
    /// same name.
    pub fn insert(&mut self, name: Vec<char>, args: Vec<Box<Assign>>, stmt_list: Vec<Stmt>)
        ensures
            final(self)@ == assoc_set(
                old(self)@,
                name@,
                FunctionTypeV { args: assigns_view(args@), stmt_list: stmts_view(stmt_list@) },
            ),
            old(self).wf() ==> final(self).wf(),
    {
        let ghost v = FunctionTypeV {
            args: assigns_view(args@),
            stmt_list: stmts_view(stmt_list@),
        };
        let mut i: usize = 0;
        while i < self.map.len()
            invariant
                0 <= i <= self@.len(),
                self@.len() == self.map@.len(),
                self.map@ == old(self).map@,
                v == (FunctionTypeV {
                    args: assigns_view(args@),
                    stmt_list: stmts_view(stmt_list@),
                }),
                forall|j: int| 0 <= j < i ==> (#[trigger] self@[j]).0 != name@,
            decreases self@.len() - i,
        {
            if crate::text::chars_eq(&self.map[i].0, &name) {
                proof {
                    assert(self@[i as int].0 == name@);
                }
                self.map.set(i, (name, FunctionType { args, stmt_list }));
                proof {
                    lemma_assoc_set_at(old(self)@, i as int, name@, v);
                    let m2 = self.map@;
                    let t = old(self)@.update(i as int, (name@, v));
                    assert(m2[i as int].0@ == name@);
                    assert(function_type_view(m2[i as int].1) == v);
                    assert(self@.len() == t.len());
                    assert forall|j: int| 0 <= j < self@.len() implies self@[j] == t[j] by {
                        if j == i {
                            assert(self@[j] == (m2[j].0@, function_type_view(m2[j].1)));
                        } else {
                            assert(m2[j] == old(self).map@[j]);
                            assert(self@[j] == (m2[j].0@, function_type_view(m2[j].1)));
                            assert(old(self)@[j] == (old(self).map@[j].0@, function_type_view(
                                old(self).map@[j].1,
                            )));
                        }
                    }
                    assert(self@ =~= t);
                    if old(self).wf() {
                        assert(self.wf());
                    }
                }
                return ;
            }
            i += 1;
        }
        self.map.push((name, FunctionType { args, stmt_list }));
        proof {
            lemma_assoc_set_none(old(self)@, name@, v);
            assert(self@ =~= old(self)@.push((name@, v)));
            if old(self).wf() {
                assert forall|a: int, b: int| 0 <= a < b < self@.len() implies (
                #[trigger] self@[a]).0 != (#[trigger] self@[b]).0 by {
                    if b < self@.len() - 1 {
                        assert(self@[a] == old(self)@[a]);
                        assert(self@[b] == old(self)@[b]);
                    } else {
                        assert(self@[a] == old(self)@[a]);
                        if old(self)@[a].0 == name@ {
                            lemma_assoc_get_at(old(self)@, a);
                        }
                    }
                }
            }
        }
    }

    /// Looks a name up.
    pub fn get(&self, name: &Vec<char>) -> (r: Option<&FunctionType>)
        ensures
            match r {
                Some(f) => assoc_get(self@, name@) == Some(f@),
                None => assoc_get(self@, name@) is None,
            },
    {
        let mut i: usize = 0;
        while i < self.map.len()
            invariant
                0 <= i <= self@.len(),
                self@.len() == self.map@.len(),
                forall|j: int| 0 <= j < i ==> (#[trigger] self@[j]).0 != name@,
            decreases self@.len() - i,
        {
            if crate::text::chars_eq(&self.map[i].0, name) {
                proof {
                    assert(self@[i as int].0 == name@);
                    lemma_assoc_get_at(self@, i as int);
                }
                return Some(&self.map[i].1);
            }
            i += 1;
        }
        proof {
            lemma_assoc_get_none(self@, name@);
        }
        None
    }

    /// The top-level program: the body of the anonymous entry, which the
    /// assembly pass always creates.
    pub fn get_main(&self) -> (r: &Vec<Stmt>)
        requires
            assoc_contains(self@, Seq::<char>::empty()),
        ensures
            Some(stmts_view(r@)) == match assoc_get(self@, Seq::<char>::empty()) {
                Some(f) => Some(f.stmt_list),
                None => None,
            },
    {
        let empty: Vec<char> = Vec::new();
        proof {
            assert(empty@ =~= Seq::<char>::empty());
        }
        let r = self.get(&empty);
        match r {
            Some(f) => &f.stmt_list,
            None => {
                proof {
                    assert(false);
                }
                unreached()
            },
        }
    }

    /// The number of formal parameters of a function.
    pub fn get_args_value(&self, name: &Vec<char>) -> (r: Option<usize>)
        ensures
            match (r, assoc_get(self@, name@)) {
                (Some(n), Some(f)) => n == f.args.len(),
                (None, None) => true,
                _ => false,
            },
    {
        match self.get(name) {
            Some(f) => {
                let n = f.args.len();
                proof {
                    assert(assoc_get(self@, name@) == Some(f@));
                    assert(f@.args.len() == n);
                }
                Some(n)
            },
            None => None,
        }
    }

    /// The formal-parameter names of one function, each seeded as a
    /// number-kinded name, in declaration order; used to start the emitted
    /// variable kinds of a call target.
    pub fn get_args_by_name(&self, name: &Vec<char>) -> (r: Vec<(Vec<char>, bool)>)
        requires
            assoc_contains(self@, name@),
        ensures
            ({
                let names = params_of((assoc_get(self@, name@))->Some_0.args);
                &&& r@.len() == names.len()
                &&& forall|j: int|
                    0 <= j < r@.len() ==> (#[trigger] r@[j]).0@ == names[j] && r@[j].1 == false
            }),
    {
        let ft = match self.get(name) {
            Some(f) => f,
            None => unreached(),
        };
        let ghost names = params_of(ft@.args);
        let mut out: Vec<(Vec<char>, bool)> = Vec::new();
        let mut i: usize = 0;
        while i < ft.args.len()
            invariant
                0 <= i <= ft.args@.len(),
                names == params_of(assigns_view(ft.args@)),
                assigns_view(ft.args@).len() == ft.args@.len(),
                out@.len() == params_of(assigns_view(ft.args@).take(i as int)).len(),
                forall|j: int|
                    0 <= j < out@.len() ==> (#[trigger] out@[j]).0@ == params_of(
                        assigns_view(ft.args@).take(i as int),
                    )[j] && out@[j].1 == false,
            decreases ft.args@.len() - i,
        {
            let ghost av = assigns_view(ft.args@);
            proof {
                lemma_params_of_take(av, i as int);
                assert(av[i as int] == assign_view(*ft.args@[i as int]));
            }
            match &*ft.args[i] {
                Assign::Var(nm, _, _) => {
                    out.push((nm.clone(), false));
                },
                Assign::Error(..) => {},
            }
            i += 1;
        }
        proof {
            assert(assigns_view(ft.args@).take(ft.args@.len() as int) =~= assigns_view(
                ft.args@,
            ));
        }
        out
    }

    /// Every formal-parameter name across all functions, in table order;
    /// used to pre-declare each one — declared, no value yet — before
    /// evaluation begins.
    pub fn get_args(&self) -> (r: Vec<Vec<char>>)
        ensures
            ({
                let names = table_params(self@);
                &&& r@.len() == names.len()
                &&& forall|j: int| 0 <= j < r@.len() ==> (#[trigger] r@[j])@ == names[j]
            }),
    {
        let ghost names = table_params(self@);
        let mut out: Vec<Vec<char>> = Vec::new();
        let mut i: usize = 0;
        proof {
            assert(table_params(self@.take(0int)) =~= Seq::<Seq<char>>::empty());
        }
        while i < self.map.len()
            invariant
                0 <= i <= self.map@.len(),
                self@.len() == self.map@.len(),
                names == table_params(self@),
                out@.len() == table_params(self@.take(i as int)).len(),
                forall|j: int|
                    0 <= j < out@.len() ==> (#[trigger] out@[j])@ == table_params(
                        self@.take(i as int),
                    )[j],
            decreases self.map@.len() - i,
        {
            let ft = &self.map[i].1;
            let ghost entry_params = params_of(self@[i as int].1.args);
            proof {
                lemma_table_params_take(self@, i as int);
                assert(self@[i as int].1.args == assigns_view(self.map@[i as int].1.args@));
            }
            let mut k: usize = 0;
            proof {
                assert(params_of(assigns_view(ft.args@).take(0int)) =~= Seq::<
                    Seq<char>,
                >::empty());
                assert(out@.len() + params_of(assigns_view(ft.args@).take(0int)).len() == out@.len());
            }
            while k < ft.args.len()
                invariant
                    0 <= k <= ft.args@.len(),
                    assigns_view(ft.args@).len() == ft.args@.len(),
                    entry_params == params_of(assigns_view(ft.args@)),
                    out@.len() == table_params(self@.take(i as int)).len() + params_of(
                        assigns_view(ft.args@).take(k as int),
                    ).len(),
                    forall|j: int|
                        0 <= j < table_params(self@.take(i as int)).len() ==> (
                        #[trigger] out@[j])@ == table_params(self@.take(i as int))[j],
                    forall|j: int|
                        table_params(self@.take(i as int)).len() <= j < out@.len() ==> (
                        #[trigger] out@[j])@ == params_of(assigns_view(ft.args@).take(k as int))[
                            j - table_params(self@.take(i as int)).len()
                        ],
                decreases ft.args@.len() - k,
            {
                let ghost av = assigns_view(ft.args@);
                proof {
                    lemma_params_of_take(av, k as int);
                    assert(av[k as int] == assign_view(*ft.args@[k as int]));
                }
                match &*ft.args[k] {
                    Assign::Var(nm, _, _) => {
                        out.push(nm.clone());
                    },
                    Assign::Error(..) => {},
                }
                k += 1;
            }
            proof {
                assert(assigns_view(ft.args@).take(ft.args@.len() as int) =~= assigns_view(
                    ft.args@,
                ));
                lemma_table_params_step(self@, i as int);
            }
            i += 1;
        }
        proof {
            assert(self@.take(self@.len() as int) =~= self@);
        }
        out
    }

    /// All entries, in insertion order.
    pub fn get_all(&self) -> (r: &Vec<(Vec<char>, FunctionType)>)
        ensures
            table_view(r@) == self@,
    {
        &self.map
    }
}

pub proof fn lemma_assoc_set_at<V>(s: Seq<(Seq<char>, V)>, i: int, k: Seq<char>, v: V)
    requires
        0 <= i < s.len(),
        s[i].0 == k,
        forall|j: int| 0 <= j < i ==> (#[trigger] s[j]).0 != k,
    ensures
        assoc_set(s, k, v) == s.update(i, (k, v)),
    decreases i,
{
    if i == 0 {
        assert(assoc_set(s, k, v) == seq![(k, v)] + s.drop_first());
        assert(seq![(k, v)] + s.drop_first() =~= s.update(0, (k, v)));
    } else {
        assert(s[0].0 != k);
        lemma_assoc_set_at(s.drop_first(), i - 1, k, v);
        assert(s.drop_first()[i - 1] == s[i]);
        assert(assoc_set(s, k, v) == seq![s[0]] + assoc_set(s.drop_first(), k, v));
        assert(seq![s[0]] + s.drop_first().update(i - 1, (k, v)) =~= s.update(i, (k, v)));
    }
}

pub proof fn lemma_assoc_set_none<V>(s: Seq<(Seq<char>, V)>, k: Seq<char>, v: V)
    requires
        forall|j: int| 0 <= j < s.len() ==> (#[trigger] s[j]).0 != k,
    ensures
        assoc_set(s, k, v) == s.push((k, v)),
    decreases s.len(),
{
    if s.len() == 0 {
        assert(assoc_set(s, k, v) =~= s.push((k, v)));
    } else {
        lemma_assoc_set_none(s.drop_first(), k, v);
        assert(seq![s[0]] + s.drop_first().push((k, v)) =~= s.push((k, v)));
    }
}

/// The names of the proper formal parameters in a list, in order.
pub open spec fn params_of(args: Seq<AssignV>) -> Seq<Seq<char>>
    decreases args.len(),
{
    if args.len() == 0 {
        Seq::empty()
    } else {
        let rest = params_of(args.drop_last());
        match args.last() {
            AssignV::Var(nm, _, _) => rest.push(nm),
            _ => rest,
        }
    }
}

pub proof fn lemma_params_of_take(args: Seq<AssignV>, i: int)
    requires
        0 <= i < args.len(),
    ensures
        params_of(args.take(i + 1)) == (match args[i] {
            AssignV::Var(nm, _, _) => params_of(args.take(i)).push(nm),
            _ => params_of(args.take(i)),
        }),
{
    assert(args.take(i + 1).drop_last() =~= args.take(i));
    assert(args.take(i + 1).last() == args[i]);
}

/// Every formal-parameter name across the table's entries, in order.
pub open spec fn table_params(t: Seq<(Seq<char>, FunctionTypeV)>) -> Seq<Seq<char>>
    decreases t.len(),
{
    if t.len() == 0 {
        Seq::empty()
    } else {
        table_params(t.drop_last()) + params_of(t.last().1.args)
    }
}

pub proof fn lemma_table_params_take(t: Seq<(Seq<char>, FunctionTypeV)>, i: int)
    requires
        0 <= i < t.len(),
    ensures
        table_params(t.take(i + 1)) == table_params(t.take(i)) + params_of(t[i].1.args),
{
    assert(t.take(i + 1).drop_last() =~= t.take(i));
    assert(t.take(i + 1).last() == t[i]);
}

pub proof fn lemma_table_params_step(t: Seq<(Seq<char>, FunctionTypeV)>, i: int)
    requires
        0 <= i < t.len(),
    ensures
        table_params(t.take(i + 1)).len() == table_params(t.take(i)).len() + params_of(
            t[i].1.args,
        ).len(),
        forall|j: int|
            0 <= j < table_params(t.take(i)).len() ==> #[trigger] table_params(t.take(i + 1))[j]
                == table_params(t.take(i))[j],
        forall|j: int|
            table_params(t.take(i)).len() <= j < table_params(t.take(i + 1)).len()
                ==> #[trigger] table_params(t.take(i + 1))[j] == params_of(t[i].1.args)[
                j - table_params(t.take(i)).len()
            ],
{
    lemma_table_params_take(t, i);
}

// ---------------------------------------------------------------------------
// Structural copies, with their models preserved.
// ---------------------------------------------------------------------------

pub fn clone_expr(e: &Expr) -> (r: Expr)
    ensures
        r@ == e@,
    decreases *e,
{
    match e {
        Expr::Boolean(b, n, l) => Expr::Boolean(*b, *n, *l),
        Expr::Float(t, n, l) => Expr::Float(t.clone(), *n, *l),
        Expr::Var(t, n, l) => Expr::Var(t.clone(), *n, *l),
        Expr::Add(a, b, n, l) => Expr::Add(
            Box::new(clone_expr(a)),
            Box::new(clone_expr(b)),
            *n,
            *l,
        ),
        Expr::Sub(a, b, n, l) => Expr::Sub(
            Box::new(clone_expr(a)),
            Box::new(clone_expr(b)),
            *n,
            *l,
        ),
        Expr::Mul(a, b, n, l) => Expr::Mul(
            Box::new(clone_expr(a)),
            Box::new(clone_expr(b)),
            *n,
            *l,
        ),
        Expr::Div(a, b, n, l) => Expr::Div(
            Box::new(clone_expr(a)),
            Box::new(clone_expr(b)),
            *n,
            *l,
        ),
        Expr::Eq(a, b, n, l) => Expr::Eq(
            Box::new(clone_expr(a)),
            Box::new(clone_expr(b)),
            *n,
            *l,
        ),
        Expr::Ne(a, b, n, l) => Expr::Ne(
            Box::new(clone_expr(a)),
            Box::new(clone_expr(b)),
            *n,
            *l,
        ),
        Expr::Lt(a, b, n, l) => Expr::Lt(
            Box::new(clone_expr(a)),
            Box::new(clone_expr(b)),
            *n,
            *l,
        ),
        Expr::Gt(a, b, n, l) => Expr::Gt(
            Box::new(clone_expr(a)),
            Box::new(clone_expr(b)),
            *n,
            *l,
        ),
        Expr::And(a, b, n, l) => Expr::And(
            Box::new(clone_expr(a)),
            Box::new(clone_expr(b)),
            *n,
            *l,
        ),
        Expr::Or(a, b, n, l) => Expr::Or(
            Box::new(clone_expr(a)),
            Box::new(clone_expr(b)),
            *n,
            *l,
        ),
        Expr::XCor(n, l) => Expr::XCor(*n, *l),
        Expr::YCor(n, l) => Expr::YCor(*n, *l),
        Expr::Heading(n, l) => Expr::Heading(*n, *l),
        Expr::Color(n, l) => Expr::Color(*n, *l),
        Expr::Error(k, n, l) => Expr::Error(*k, *n, *l),
    }
}

pub fn clone_assign(a: &Assign) -> (r: Assign)
    ensures
        r@ == a@,
{
    match a {
        Assign::Var(t, n, l) => Assign::Var(t.clone(), *n, *l),
        Assign::Error(k, n, l) => Assign::Error(*k, *n, *l),
    }
}

pub fn clone_decl_name(d: &DeclName) -> (r: DeclName)
    ensures
        r@ == d@,
{
    match d {
        DeclName::Named(t, n, l) => DeclName::Named(t.clone(), *n, *l),
        DeclName::Error(k, n, l) => DeclName::Error(*k, *n, *l),
    }
}

pub fn clone_stmt(s: &Stmt) -> (r: Stmt)
    ensures
        r@ == s@,
    decreases *s,
{
    match s {
        Stmt::If(e, b, line) => Stmt::If(Box::new(clone_expr(e)), clone_stmts(b), *line),
        Stmt::While(e, b, line) => Stmt::While(Box::new(clone_expr(e)), clone_stmts(b), *line),
        Stmt::Make(a, e, line) => Stmt::Make(
            Box::new(clone_assign(a)),
            Box::new(clone_expr(e)),
            *line,
        ),
        Stmt::PenUp(line) => Stmt::PenUp(*line),
        Stmt::PenDown(line) => Stmt::PenDown(*line),
        Stmt::Forward(e, line) => Stmt::Forward(Box::new(clone_expr(e)), *line),
        Stmt::Back(e, line) => Stmt::Back(Box::new(clone_expr(e)), *line),
        Stmt::Left(e, line) => Stmt::Left(Box::new(clone_expr(e)), *line),
        Stmt::Right(e, line) => Stmt::Right(Box::new(clone_expr(e)), *line),
        Stmt::SetPenColor(e, line) => Stmt::SetPenColor(Box::new(clone_expr(e)), *line),
        Stmt::Turn(e, line) => Stmt::Turn(Box::new(clone_expr(e)), *line),
        Stmt::SetHeading(e, line) => Stmt::SetHeading(Box::new(clone_expr(e)), *line),
        Stmt::SetX(e, line) => Stmt::SetX(Box::new(clone_expr(e)), *line),
        Stmt::SetY(e, line) => Stmt::SetY(Box::new(clone_expr(e)), *line),
        Stmt::AddAssign(a, e, line) => Stmt::AddAssign(
            Box::new(clone_assign(a)),
            Box::new(clone_expr(e)),
            *line,
        ),
        Stmt::Func(n, args, line) => Stmt::Func(
            Box::new(clone_decl_name(n)),
            clone_exprs(args),
            *line,
        ),
        Stmt::Comments(t, line) => Stmt::Comments(t.clone(), *line),
    }
}

pub fn clone_stmts(v: &Vec<Stmt>) -> (r: Vec<Stmt>)
    ensures
        stmts_view(r@) == stmts_view(v@),
        r@.len() == v@.len(),
    decreases *v,
{
    let mut out: Vec<Stmt> = Vec::new();
    let mut i: usize = 0;
    while i < v.len()
        invariant
            0 <= i <= v@.len(),
            out@.len() == i,
            forall|j: int| 0 <= j < i ==> stmt_view(#[trigger] out@[j]) == stmt_view(v@[j]),
        decreases v@.len() - i,
    {
        proof {
            assert(decreases_to!(*v => v@[i as int]));
        }
        out.push(clone_stmt(&v[i]));
        i += 1;
    }
    proof {
        assert(stmts_view(out@) =~= stmts_view(v@));
    }
    out
}

pub fn clone_exprs(v: &Vec<Expr>) -> (r: Vec<Expr>)
    ensures
        exprs_view(r@) == exprs_view(v@),
        r@.len() == v@.len(),
    decreases *v,
{
    let mut out: Vec<Expr> = Vec::new();
    let mut i: usize = 0;
    while i < v.len()
        invariant
            0 <= i <= v@.len(),
            out@.len() == i,
            forall|j: int| 0 <= j < i ==> expr_view(#[trigger] out@[j]) == expr_view(v@[j]),
        decreases v@.len() - i,
    {
        proof {
            assert(decreases_to!(*v => v@[i as int]));
        }
        out.push(clone_expr(&v[i]));
        i += 1;
    }
    proof {
        assert(exprs_view(out@) =~= exprs_view(v@));
    }
    out
}

} // verus!
