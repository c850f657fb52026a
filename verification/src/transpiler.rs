//! The source-emitting back end: the same walk as evaluation, emitting
//! target-language text instead of driving a turtle.  Values are typed
//! text fragments; a side table records which turtle-sink methods were
//! referenced so only the needed support code is emitted.  The decimal
//! text of each numeric literal is a function of the literal alone and is
//! supplied by the caller as a finished table.

use vstd::prelude::*;

use crate::structs::{
    assoc_get, assoc_set, spec_end_len, Assign, AssignV, DeclName, DeclNameV, Expr, ExprV,
    Function, FunctionTypeV, Stmt, StmtV,
};
use crate::generation::GenErrKind;
use crate::text::{push_chars, push_lit};

verus! {

/// A positioned transpile-time diagnostic; the kinds are those of the
/// shared evaluation semantics.
#[derive(Debug, PartialEq)]
pub struct TranspilerError {
    pub kind: GenErrKind,
    pub src: Vec<char>,
    pub start: usize,
    pub len: usize,
    pub line: usize,
}

pub struct TrErrV {
    pub kind: GenErrKind,
    pub src: Seq<char>,
    pub start: int,
    pub len: int,
    pub line: int,
}

impl View for TranspilerError {
    type V = TrErrV;

    open spec fn view(&self) -> TrErrV {
        TrErrV {
            kind: self.kind,
            src: self.src@,
            start: self.start as int,
            len: self.len as int,
            line: self.line as int,
        }
    }
}

pub open spec fn spec_tr_err(
    file: Seq<Seq<char>>,
    line: int,
    err: GenErrKind,
    end: int,
    len: int,
) -> TrErrV {
    if 0 <= line < file.len() && 0 <= end && 0 <= len && end + len <= file[line].len() {
        TrErrV {
            kind: err,
            src: file[line],
            start: file[line].len() - end - len,
            len: len,
            line: line,
        }
    } else {
        TrErrV { kind: err, src: Seq::empty(), start: 0, len: 0, line: line }
    }
}

/// Turns an internal `(kind, end-offset, length)` triple into a positioned
/// transpile error anchored to its line.
pub fn match_err(
    file: &Vec<Vec<char>>,
    line: usize,
    err: GenErrKind,
    end: usize,
    len: usize,
) -> (r: TranspilerError)
    ensures
        r@ == spec_tr_err(crate::parse::file_view(file@), line as int, err, end as int, len as int),
{
    let ghost fv = crate::parse::file_view(file@);
    if line < file.len() && end <= file[line].len() && len <= file[line].len() - end {
        proof {
            assert(fv[line as int] == file@[line as int]@);
        }
        let src = file[line].clone();
        let start = src.len() - end - len;
        TranspilerError { kind: err, src, start, len, line }
    } else {
        let e = TranspilerError { kind: err, src: Vec::new(), start: 0, len: 0, line };
        proof {
            assert(e@.src =~= Seq::<char>::empty());
        }
        e
    }
}

/// The set of turtle-sink methods the emitted code refers to, in first-use
/// order.
#[derive(Debug, PartialEq)]
pub struct DrawMethod {
    pub set: Vec<Vec<char>>,
}

pub open spec fn methods_view(v: Seq<Vec<char>>) -> Seq<Seq<char>> {
    Seq::new(
        v.len(),
        |i: int|
            if 0 <= i < v.len() {
                v[i]@
            } else {
                arbitrary()
            },
    )
}

impl View for DrawMethod {
    type V = Seq<Seq<char>>;

    open spec fn view(&self) -> Seq<Seq<char>> {
        methods_view(self.set@)
    }
}

pub open spec fn spec_method_insert(s: Seq<Seq<char>>, k: Seq<char>) -> Seq<Seq<char>> {
    if s.contains(k) {
        s
    } else {
        s.push(k)
    }
}

impl DrawMethod {
    pub fn new() -> (r: DrawMethod)
        ensures
            r@ == Seq::<Seq<char>>::empty(),
    {
        let r = DrawMethod { set: Vec::new() };
        proof {
            assert(r@ =~= Seq::<Seq<char>>::empty());
        }
        r
    }

    /// Records one referenced sink method.
    pub fn insert(&mut self, key: Vec<char>)
        ensures
            final(self)@ == spec_method_insert(old(self)@, key@),
    {
        let mut i: usize = 0;
        while i < self.set.len()
            invariant
                0 <= i <= self@.len(),
                self@.len() == self.set@.len(),
                self.set@ == old(self).set@,
                forall|j: int| 0 <= j < i ==> #[trigger] self@[j] != key@,
            decreases self@.len() - i,
        {
            if crate::text::chars_eq(&self.set[i], &key) {
                proof {
                    assert(self@[i as int] == key@);
                    assert(self@.contains(key@));
                }
                return ;
            }
            i += 1;
        }
        proof {
            assert(!old(self)@.contains(key@));
        }
        self.set.push(key);
        proof {
            assert(self@ =~= old(self)@.push(key@));
        }
    }

    /// The recorded methods, in first-use order.
    pub fn keys(&self) -> (r: &Vec<Vec<char>>)
        ensures
            methods_view(r@) == self@,
    {
        &self.set
    }
}

fn insert_lit(method: &mut DrawMethod, s: &str)
    ensures
        final(method)@ == spec_method_insert(old(method)@, s@),
{
    let mut v: Vec<char> = Vec::new();
    push_lit(&mut v, s);
    method.insert(v);
}

/// The typed text of a transpiled expression: a numeric or a boolean
/// fragment of target code.
#[derive(Debug, PartialEq)]
pub enum Value {
    F(Vec<char>),
    B(Vec<char>),
}

pub enum TValV {
    F(Seq<char>),
    B(Seq<char>),
}

impl View for Value {
    type V = TValV;

    open spec fn view(&self) -> TValV {
        match *self {
            Value::F(ref t) => TValV::F(t@),
            Value::B(ref t) => TValV::B(t@),
        }
    }
}

/// Whether a fragment needs parentheses when embedded in a larger
/// formula: it does when an operator already occurs in it.
pub open spec fn spec_needs_parens(s: Seq<char>) -> bool {
    ||| s.contains('+')
    ||| s.contains('-')
    ||| s.contains('*')
    ||| s.contains('/')
    ||| spec_has_pair(s, '=', '=')
    ||| spec_has_pair(s, '!', '=')
    ||| s.contains('<')
    ||| s.contains('>')
    ||| spec_has_pair(s, '&', '&')
    ||| spec_has_pair(s, '|', '|')
}

pub open spec fn spec_has_pair(s: Seq<char>, a: char, b: char) -> bool {
    exists|i: int| 0 <= i < s.len() - 1 && #[trigger] s[i] == a && s[i + 1] == b
}

pub open spec fn spec_check_formula(s: Seq<char>) -> Seq<char> {
    if spec_needs_parens(s) {
        "("@ + s + ")"@
    } else {
        s
    }
}

fn contains_char(s: &Vec<char>, c: char) -> (r: bool)
    ensures
        r == s@.contains(c),
{
    let mut i: usize = 0;
    while i < s.len()
        invariant
            0 <= i <= s@.len(),
            forall|j: int| 0 <= j < i ==> s@[j] != c,
        decreases s@.len() - i,
    {
        if s[i] == c {
            return true;
        }
        i += 1;
    }
    proof {
        if s@.contains(c) {
            let j = choose|j: int| 0 <= j < s@.len() && s@[j] == c;
        }
    }
    false
}

fn contains_pair(s: &Vec<char>, a: char, b: char) -> (r: bool)
    ensures
        r == spec_has_pair(s@, a, b),
{
    if s.len() < 1 {
        return false;
    }
    let mut i: usize = 0;
    while i < s.len() - 1
        invariant
            0 <= i,
            i + 1 <= s@.len(),
            s@.len() >= 1,
            forall|j: int| 0 <= j < i ==> !(#[trigger] s@[j] == a && s@[j + 1] == b),
        decreases s@.len() - i,
    {
        if s[i] == a && s[i + 1] == b {
            return true;
        }
        i += 1;
    }
    false
}

/// Wraps a formula in parentheses when it already holds an operator, so
/// prefix structure survives as explicit grouping in infix output.
pub fn check_formula(input: Vec<char>) -> (r: Vec<char>)
    ensures
        r@ == spec_check_formula(input@),
{
    let needs = contains_char(&input, '+') || contains_char(&input, '-') || contains_char(
        &input,
        '*',
    ) || contains_char(&input, '/') || contains_pair(&input, '=', '=') || contains_pair(
        &input,
        '!',
        '=',
    ) || contains_char(&input, '<') || contains_char(&input, '>') || contains_pair(
        &input,
        '&',
        '&',
    ) || contains_pair(&input, '|', '|');
    if needs {
        let mut out: Vec<char> = Vec::new();
        push_lit(&mut out, "(");
        push_chars(&mut out, &input);
        push_lit(&mut out, ")");
        proof {
            assert(out@ == "("@ + input@ + ")"@);
        }
        out
    } else {
        input
    }
}

/// The indentation for a nesting depth: one tab per level.
pub open spec fn spec_set_tab(tab: int) -> Seq<char>
    decreases tab,
{
    if tab <= 0 {
        Seq::empty()
    } else {
        spec_set_tab(tab - 1) + "\t"@
    }
}

pub fn set_tab(tab: i32) -> (r: Vec<char>)
    ensures
        r@ == spec_set_tab(tab as int),
{
    let mut out: Vec<char> = Vec::new();
    let mut k: i32 = 0;
    proof {
        reveal_strlit("\t");
        assert(out@ =~= spec_set_tab(0));
    }
    while k < tab
        invariant
            0 <= k,
            k <= tab || k == 0,
            out@ == spec_set_tab(k as int),
        decreases tab - k,
    {
        push_lit(&mut out, "\t");
        k = k + 1;
    }
    proof {
        if tab <= 0 {
            assert(out@ =~= spec_set_tab(tab as int));
        }
    }
    out
}


/// The name-to-kind map of emitted variables: `true` marks a boolean.
#[derive(Debug, PartialEq)]
pub struct VarTypes {
    pub map: Vec<(Vec<char>, bool)>,
}

pub open spec fn vt_view(m: Seq<(Vec<char>, bool)>) -> Seq<(Seq<char>, bool)> {
    Seq::new(
        m.len(),
        |i: int|
            if 0 <= i < m.len() {
                (m[i].0@, m[i].1)
            } else {
                arbitrary()
            },
    )
}

impl View for VarTypes {
    type V = Seq<(Seq<char>, bool)>;

    open spec fn view(&self) -> Seq<(Seq<char>, bool)> {
        vt_view(self.map@)
    }
}

impl VarTypes {
    pub fn new() -> (r: VarTypes)
        ensures
            r@ == Seq::<(Seq<char>, bool)>::empty(),
    {
        let r = VarTypes { map: Vec::new() };
        proof {
            assert(r@ =~= Seq::<(Seq<char>, bool)>::empty());
        }
        r
    }

    pub fn set(&mut self, name: Vec<char>, isb: bool)
        ensures
            final(self)@ == assoc_set(old(self)@, name@, isb),
    {
        let mut i: usize = 0;
        while i < self.map.len()
            invariant
                0 <= i <= self@.len(),
                self@.len() == self.map@.len(),
                self.map@ == old(self).map@,
                forall|j: int| 0 <= j < i ==> (#[trigger] self@[j]).0 != name@,
            decreases self@.len() - i,
        {
            if crate::text::chars_eq(&self.map[i].0, &name) {
                proof {
                    assert(self@[i as int].0 == name@);
                }
                self.map.set(i, (name, isb));
                proof {
                    crate::structs::lemma_assoc_set_at(old(self)@, i as int, name@, isb);
                    assert(self@ =~= old(self)@.update(i as int, (name@, isb)));
                }
                return ;
            }
            i += 1;
        }
        self.map.push((name, isb));
        proof {
            crate::structs::lemma_assoc_set_none(old(self)@, name@, isb);
            assert(self@ =~= old(self)@.push((name@, isb)));
        }
    }

    pub fn get(&self, name: &Vec<char>) -> (r: Option<bool>)
        ensures
            r == assoc_get(self@, name@),
    {
        let mut i: usize = 0;
        while i < self.map.len()
            invariant
                0 <= i <= self@.len(),
                self@.len() == self.map@.len(),
                forall|j: int| 0 <= j < i ==> (#[trigger] self@[j]).0 != name@,
            decreases self@.len() - i,
        {
            if crate::text::chars_eq(&self.map[i].0, name) {
                proof {
                    assert(self@[i as int].0 == name@);
                    crate::structs::lemma_assoc_get_at(self@, i as int);
                }
                return Some(self.map[i].1);
            }
            i += 1;
        }
        proof {
            crate::structs::lemma_assoc_get_none(self@, name@);
        }
        None
    }
}

/// The table of decimal texts for numeric literals: for each literal in
/// the program, the text of the 32-bit value it denotes.  The caller
/// builds it; each entry is a function of its literal alone.
#[derive(Debug, PartialEq)]
pub struct NumFormat {
    pub map: Vec<(Vec<char>, Vec<char>)>,
}

pub open spec fn nf_view(m: Seq<(Vec<char>, Vec<char>)>) -> Seq<(Seq<char>, Seq<char>)> {
    Seq::new(
        m.len(),
        |i: int|
            if 0 <= i < m.len() {
                (m[i].0@, m[i].1@)
            } else {
                arbitrary()
            },
    )
}

impl View for NumFormat {
    type V = Seq<(Seq<char>, Seq<char>)>;

    open spec fn view(&self) -> Seq<(Seq<char>, Seq<char>)> {
        nf_view(self.map@)
    }
}

impl NumFormat {
    pub fn new() -> (r: NumFormat)
        ensures
            r@ == Seq::<(Seq<char>, Seq<char>)>::empty(),
    {
        let r = NumFormat { map: Vec::new() };
        proof {
            assert(r@ =~= Seq::<(Seq<char>, Seq<char>)>::empty());
        }
        r
    }

    pub fn add(&mut self, lit: Vec<char>, text: Vec<char>)
        ensures
            final(self)@ == assoc_set(old(self)@, lit@, text@),
    {
        let mut i: usize = 0;
        while i < self.map.len()
            invariant
                0 <= i <= self@.len(),
                self@.len() == self.map@.len(),
                self.map@ == old(self).map@,
                forall|j: int| 0 <= j < i ==> (#[trigger] self@[j]).0 != lit@,
            decreases self@.len() - i,
        {
            if crate::text::chars_eq(&self.map[i].0, &lit) {
                proof {
                    assert(self@[i as int].0 == lit@);
                }
                self.map.set(i, (lit, text));
                proof {
                    crate::structs::lemma_assoc_set_at(old(self)@, i as int, lit@, text@);
                    assert(self@ =~= old(self)@.update(i as int, (lit@, text@)));
                }
                return ;
            }
            i += 1;
        }
        self.map.push((lit, text));
        proof {
            crate::structs::lemma_assoc_set_none(old(self)@, lit@, text@);
            assert(self@ =~= old(self)@.push((lit@, text@)));
        }
    }

    pub fn get(&self, lit: &Vec<char>) -> (r: Option<&Vec<char>>)
        ensures
            match r {
                Some(t) => assoc_get(self@, lit@) == Some(t@),
                None => assoc_get(self@, lit@) is None,
            },
    {
        let mut i: usize = 0;
        while i < self.map.len()
            invariant
                0 <= i <= self@.len(),
                self@.len() == self.map@.len(),
                forall|j: int| 0 <= j < i ==> (#[trigger] self@[j]).0 != lit@,
            decreases self@.len() - i,
        {
            if crate::text::chars_eq(&self.map[i].0, lit) {
                proof {
                    assert(self@[i as int].0 == lit@);
                    crate::structs::lemma_assoc_get_at(self@, i as int);
                }
                return Some(&self.map[i].1);
            }
            i += 1;
        }
        proof {
            crate::structs::lemma_assoc_get_none(self@, lit@);
        }
        None
    }
}

/// The emitted text of one numeric literal: its tabled decimal text, with
/// `.0` appended when it has no point, so the target reads it as a float;
/// a literal missing from the table is emitted verbatim.
pub open spec fn spec_num_text(lit: Seq<char>, fmt: Seq<(Seq<char>, Seq<char>)>) -> Seq<char> {
    match assoc_get(fmt, lit) {
        Some(t) => if t.contains('.') {
            t
        } else {
            t + ".0"@
        },
        None => lit,
    }
}

/// One transpiled expression: the typed target-language fragment, plus
/// the sink methods it references.
pub open spec fn spec_transpiler_expr(
    e: ExprV,
    line: int,
    file: Seq<Seq<char>>,
    vars: Seq<(Seq<char>, bool)>,
    methods: Seq<Seq<char>>,
    fmt: Seq<(Seq<char>, Seq<char>)>,
) -> Result<(TValV, Seq<Seq<char>>), TrErrV>
    decreases e,
{
    match e {
        ExprV::Boolean(b, _, _) => Ok(
            (
                TValV::B(
                    if b {
                        "true"@
                    } else {
                        "false"@
                    },
                ),
                methods,
            ),
        ),
        ExprV::Float(t, _, _) => Ok((TValV::F(spec_num_text(t, fmt)), methods)),
        ExprV::Var(nm, en, el) => match assoc_get(vars, nm) {
            Some(true) => Ok((TValV::B(nm), methods)),
            Some(false) => Ok((TValV::F(nm), methods)),
            None => Err(spec_tr_err(file, line, GenErrKind::UnDefinedVariable, en, el)),
        },
        ExprV::XCor(_, _) => Ok(
            (TValV::F("draw.x()"@), spec_method_insert(methods, "x"@)),
        ),
        ExprV::YCor(_, _) => Ok(
            (TValV::F("draw.y()"@), spec_method_insert(methods, "y"@)),
        ),
        ExprV::Heading(_, _) => Ok(
            (TValV::F("draw.direction()"@), spec_method_insert(methods, "direction"@)),
        ),
        ExprV::Color(_, _) => Ok(
            (TValV::F("draw.color()"@), spec_method_insert(methods, "color"@)),
        ),
        ExprV::Error(_, _, _) => Ok((TValV::F(Seq::empty()), methods)),
        _ => {
            let (op, a, b, en, el) = crate::generation::spec_as_binop(e);
            let (le, ll) = spec_end_len(a);
            let (re, rl) = spec_end_len(b);
            match spec_transpiler_expr(a, line, file, vars, methods, fmt) {
                Err(er) => Err(er),
                Ok((va, m1)) => match spec_transpiler_expr(b, line, file, vars, m1, fmt) {
                    Err(er) => Err(er),
                    Ok((vb, m2)) => spec_tr_combine(
                        op,
                        va,
                        vb,
                        en,
                        el,
                        le,
                        ll,
                        re,
                        rl,
                        line,
                        file,
                        m2,
                    ),
                },
            }
        },
    }
}

/// Joins two transpiled operands under one operator, parenthesizing
/// operand formulas; type mismatches surface here, with the span the
/// original selected.
pub open spec fn spec_tr_combine(
    op: crate::expr::BinOp,
    va: TValV,
    vb: TValV,
    en: int,
    el: int,
    le: int,
    ll: int,
    re: int,
    rl: int,
    line: int,
    file: Seq<Seq<char>>,
    methods: Seq<Seq<char>>,
) -> Result<(TValV, Seq<Seq<char>>), TrErrV> {
    match op {
        crate::expr::BinOp::Add => match (va, vb) {
            (TValV::F(x), TValV::F(y)) => Ok(
                (
                    TValV::F(spec_check_formula(x) + " + "@ + spec_check_formula(y)),
                    methods,
                ),
            ),
            (TValV::B(_), _) => Err(
                spec_tr_err(file, line, GenErrKind::UnexpectedBooleanType, le, ll),
            ),
            _ => Err(spec_tr_err(file, line, GenErrKind::UnexpectedBooleanType, re, rl)),
        },
        crate::expr::BinOp::Sub => match (va, vb) {
            (TValV::F(x), TValV::F(y)) => Ok(
                (
                    TValV::F(spec_check_formula(x) + " - "@ + spec_check_formula(y)),
                    methods,
                ),
            ),
            (TValV::B(_), _) => Err(
                spec_tr_err(file, line, GenErrKind::UnexpectedBooleanType, le, ll),
            ),
            _ => Err(spec_tr_err(file, line, GenErrKind::UnexpectedBooleanType, re, rl)),
        },
        crate::expr::BinOp::Mul => match (va, vb) {
            (TValV::F(x), TValV::F(y)) => Ok(
                (
                    TValV::F(spec_check_formula(x) + " * "@ + spec_check_formula(y)),
                    methods,
                ),
            ),
            (TValV::B(_), _) => Err(
                spec_tr_err(file, line, GenErrKind::UnexpectedBooleanType, le, ll),
            ),
            _ => Err(spec_tr_err(file, line, GenErrKind::UnexpectedBooleanType, re, rl)),
        },
        crate::expr::BinOp::Div => match (va, vb) {
            (TValV::F(x), TValV::F(y)) => Ok(
                (
                    TValV::F(spec_check_formula(x) + " / "@ + spec_check_formula(y)),
                    methods,
                ),
            ),
            (TValV::B(_), _) => Err(
                spec_tr_err(file, line, GenErrKind::UnexpectedBooleanType, le, ll),
            ),
            _ => Err(spec_tr_err(file, line, GenErrKind::UnexpectedBooleanType, re, rl)),
        },
        crate::expr::BinOp::Eq => match (va, vb) {
            (TValV::F(x), TValV::F(y)) => Ok(
                (
                    TValV::B(spec_check_formula(x) + " == "@ + spec_check_formula(y)),
                    methods,
                ),
            ),
            (TValV::B(x), TValV::B(y)) => Ok(
                (
                    TValV::B(spec_check_formula(x) + " == "@ + spec_check_formula(y)),
                    methods,
                ),
            ),
            _ => Err(spec_tr_err(file, line, GenErrKind::UnmatchedExprType, en, el)),
        },
        crate::expr::BinOp::Ne => match (va, vb) {
            (TValV::F(x), TValV::F(y)) => Ok(
                (
                    TValV::B(spec_check_formula(x) + " != "@ + spec_check_formula(y)),
                    methods,
                ),
            ),
            (TValV::B(x), TValV::B(y)) => Ok(
                (
                    TValV::B(spec_check_formula(x) + " != "@ + spec_check_formula(y)),
                    methods,
                ),
            ),
            _ => Err(spec_tr_err(file, line, GenErrKind::UnmatchedExprType, en, el)),
        },
        crate::expr::BinOp::Lt => match (va, vb) {
            (TValV::F(x), TValV::F(y)) => Ok(
                (
                    TValV::B(spec_check_formula(x) + " < "@ + spec_check_formula(y)),
                    methods,
                ),
            ),
            (TValV::B(_), _) => Err(
                spec_tr_err(file, line, GenErrKind::UnexpectedBooleanType, le, ll),
            ),
            _ => Err(spec_tr_err(file, line, GenErrKind::UnexpectedBooleanType, re, rl)),
        },
        crate::expr::BinOp::Gt => match (va, vb) {
            (TValV::F(x), TValV::F(y)) => Ok(
                (
                    TValV::B(spec_check_formula(x) + " > "@ + spec_check_formula(y)),
                    methods,
                ),
            ),
            (TValV::B(_), _) => Err(
                spec_tr_err(file, line, GenErrKind::UnexpectedBooleanType, le, ll),
            ),
            _ => Err(spec_tr_err(file, line, GenErrKind::UnexpectedBooleanType, re, rl)),
        },
        crate::expr::BinOp::And => match (va, vb) {
            (TValV::B(x), TValV::B(y)) => Ok(
                (
                    TValV::B(spec_check_formula(x) + " && "@ + spec_check_formula(y)),
                    methods,
                ),
            ),
            (TValV::F(_), _) => Err(
                spec_tr_err(file, line, GenErrKind::UnexpectedBooleanType, le, ll),
            ),
            _ => Err(spec_tr_err(file, line, GenErrKind::UnexpectedBooleanType, re, rl)),
        },
        crate::expr::BinOp::Or => match (va, vb) {
            (TValV::B(x), TValV::B(y)) => Ok(
                (
                    TValV::B(spec_check_formula(x) + " || "@ + spec_check_formula(y)),
                    methods,
                ),
            ),
            (TValV::F(_), _) => Err(
                spec_tr_err(file, line, GenErrKind::UnexpectedBooleanType, le, ll),
            ),
            _ => Err(spec_tr_err(file, line, GenErrKind::UnexpectedBooleanType, re, rl)),
        },
    }
}


fn tval_f_lit(s: &str) -> (r: Value)
    ensures
        r@ == TValV::F(s@),
{
    let mut v: Vec<char> = Vec::new();
    push_lit(&mut v, s);
    Value::F(v)
}

/// Transpiles one expression to a typed target-language fragment,
/// recording the sink methods it references.
#[verifier::rlimit(100)]
pub fn transpiler_expr(
    expr: &Expr,
    line: usize,
    file: &Vec<Vec<char>>,
    variable: &VarTypes,
    method: &mut DrawMethod,
    fmt: &NumFormat,
) -> (r: Result<Value, TranspilerError>)
    ensures
        ({
            let res = spec_transpiler_expr(
                expr@,
                line as int,
                crate::parse::file_view(file@),
                variable@,
                old(method)@,
                fmt@,
            );
            match r {
                Ok(v) => res == Ok::<(TValV, Seq<Seq<char>>), TrErrV>((v@, final(method)@)),
                Err(e) => res == Err::<(TValV, Seq<Seq<char>>), TrErrV>(e@),
            }
        }),
    decreases *expr,
{
    match expr {
        Expr::Boolean(b, _, _) => {
            if *b {
                let mut v: Vec<char> = Vec::new();
                push_lit(&mut v, "true");
                Ok(Value::B(v))
            } else {
                let mut v: Vec<char> = Vec::new();
                push_lit(&mut v, "false");
                Ok(Value::B(v))
            }
        },
        Expr::Float(t, _, _) => {
            match fmt.get(t) {
                Some(txt) => {
                    if contains_char(txt, '.') {
                        Ok(Value::F(txt.clone()))
                    } else {
                        let mut v = txt.clone();
                        push_lit(&mut v, ".0");
                        Ok(Value::F(v))
                    }
                },
                None => Ok(Value::F(t.clone())),
            }
        },
        Expr::Var(nm, en, el) => {
            match variable.get(nm) {
                Some(true) => Ok(Value::B(nm.clone())),
                Some(false) => Ok(Value::F(nm.clone())),
                None => Err(match_err(file, line, GenErrKind::UnDefinedVariable, *en, *el)),
            }
        },
        Expr::XCor(_, _) => {
            insert_lit(method, "x");
            Ok(tval_f_lit("draw.x()"))
        },
        Expr::YCor(_, _) => {
            insert_lit(method, "y");
            Ok(tval_f_lit("draw.y()"))
        },
        Expr::Heading(_, _) => {
            insert_lit(method, "direction");
            Ok(tval_f_lit("draw.direction()"))
        },
        Expr::Color(_, _) => {
            insert_lit(method, "color");
            Ok(tval_f_lit("draw.color()"))
        },
        Expr::Error(_, _, _) => {
            let v: Vec<char> = Vec::new();
            proof {
                assert(v@ =~= Seq::<char>::empty());
            }
            Ok(Value::F(v))
        },
        _ => {
            let (en, el) = crate::generation::get_end_len(expr);
            let (a, b) = match expr {
                Expr::Add(a, b, _, _)
                | Expr::Sub(a, b, _, _)
                | Expr::Mul(a, b, _, _)
                | Expr::Div(a, b, _, _)
                | Expr::Eq(a, b, _, _)
                | Expr::Ne(a, b, _, _)
                | Expr::Lt(a, b, _, _)
                | Expr::Gt(a, b, _, _)
                | Expr::And(a, b, _, _)
                | Expr::Or(a, b, _, _) => (&**a, &**b),
                _ => unreached(),
            };
            let op = match expr {
                Expr::Add(..) => crate::expr::BinOp::Add,
                Expr::Sub(..) => crate::expr::BinOp::Sub,
                Expr::Mul(..) => crate::expr::BinOp::Mul,
                Expr::Div(..) => crate::expr::BinOp::Div,
                Expr::Eq(..) => crate::expr::BinOp::Eq,
                Expr::Ne(..) => crate::expr::BinOp::Ne,
                Expr::Lt(..) => crate::expr::BinOp::Lt,
                Expr::Gt(..) => crate::expr::BinOp::Gt,
                Expr::And(..) => crate::expr::BinOp::And,
                Expr::Or(..) => crate::expr::BinOp::Or,
                _ => unreached(),
            };
            let (le, ll) = crate::generation::get_end_len(a);
            let (re, rl) = crate::generation::get_end_len(b);
            proof {
                assert(crate::generation::spec_as_binop(expr@) == (op, a@, b@, en as int, el as int));
            }
            let va = match transpiler_expr(a, line, file, variable, method, fmt) {
                Ok(v) => v,
                Err(e) => {
                    return Err(e);
                },
            };
            let vb = match transpiler_expr(b, line, file, variable, method, fmt) {
                Ok(v) => v,
                Err(e) => {
                    return Err(e);
                },
            };
            combine(op, va, vb, en, el, le, ll, re, rl, line, file)
        },
    }
}

fn joined(x: Vec<char>, mid: &str, y: Vec<char>) -> (r: Vec<char>)
    ensures
        r@ == spec_check_formula(x@) + mid@ + spec_check_formula(y@),
{
    let mut out = check_formula(x);
    push_lit(&mut out, mid);
    let cy = check_formula(y);
    push_chars(&mut out, &cy);
    out
}

#[verifier::rlimit(100)]
fn combine(
    op: crate::expr::BinOp,
    va: Value,
    vb: Value,
    en: usize,
    el: usize,
    le: usize,
    ll: usize,
    re: usize,
    rl: usize,
    line: usize,
    file: &Vec<Vec<char>>,
) -> (r: Result<Value, TranspilerError>)
    ensures
        match r {
            Ok(v) => forall|m: Seq<Seq<char>>| #![auto]
                spec_tr_combine(
                    op,
                    va@,
                    vb@,
                    en as int,
                    el as int,
                    le as int,
                    ll as int,
                    re as int,
                    rl as int,
                    line as int,
                    crate::parse::file_view(file@),
                    m,
                ) == Ok::<(TValV, Seq<Seq<char>>), TrErrV>((v@, m)),
            Err(e) => forall|m: Seq<Seq<char>>| #![auto]
                spec_tr_combine(
                    op,
                    va@,
                    vb@,
                    en as int,
                    el as int,
                    le as int,
                    ll as int,
                    re as int,
                    rl as int,
                    line as int,
                    crate::parse::file_view(file@),
                    m,
                ) == Err::<(TValV, Seq<Seq<char>>), TrErrV>(e@),
        },
{
    match op {
        crate::expr::BinOp::Add => match (va, vb) {
            (Value::F(x), Value::F(y)) => Ok(Value::F(joined(x, " + ", y))),
            (Value::B(_), _) => Err(
                match_err(file, line, GenErrKind::UnexpectedBooleanType, le, ll),
            ),
            _ => Err(match_err(file, line, GenErrKind::UnexpectedBooleanType, re, rl)),
        },
        crate::expr::BinOp::Sub => match (va, vb) {
            (Value::F(x), Value::F(y)) => Ok(Value::F(joined(x, " - ", y))),
            (Value::B(_), _) => Err(
                match_err(file, line, GenErrKind::UnexpectedBooleanType, le, ll),
            ),
            _ => Err(match_err(file, line, GenErrKind::UnexpectedBooleanType, re, rl)),
        },
        crate::expr::BinOp::Mul => match (va, vb) {
            (Value::F(x), Value::F(y)) => Ok(Value::F(joined(x, " * ", y))),
            (Value::B(_), _) => Err(
                match_err(file, line, GenErrKind::UnexpectedBooleanType, le, ll),
            ),
            _ => Err(match_err(file, line, GenErrKind::UnexpectedBooleanType, re, rl)),
        },
        crate::expr::BinOp::Div => match (va, vb) {
            (Value::F(x), Value::F(y)) => Ok(Value::F(joined(x, " / ", y))),
            (Value::B(_), _) => Err(
                match_err(file, line, GenErrKind::UnexpectedBooleanType, le, ll),
            ),
            _ => Err(match_err(file, line, GenErrKind::UnexpectedBooleanType, re, rl)),
        },
        crate::expr::BinOp::Eq => match (va, vb) {
            (Value::F(x), Value::F(y)) => Ok(Value::B(joined(x, " == ", y))),
            (Value::B(x), Value::B(y)) => Ok(Value::B(joined(x, " == ", y))),
            _ => Err(match_err(file, line, GenErrKind::UnmatchedExprType, en, el)),
        },
        crate::expr::BinOp::Ne => match (va, vb) {
            (Value::F(x), Value::F(y)) => Ok(Value::B(joined(x, " != ", y))),
            (Value::B(x), Value::B(y)) => Ok(Value::B(joined(x, " != ", y))),
            _ => Err(match_err(file, line, GenErrKind::UnmatchedExprType, en, el)),
        },
        crate::expr::BinOp::Lt => match (va, vb) {
            (Value::F(x), Value::F(y)) => Ok(Value::B(joined(x, " < ", y))),
            (Value::B(_), _) => Err(
                match_err(file, line, GenErrKind::UnexpectedBooleanType, le, ll),
            ),
            _ => Err(match_err(file, line, GenErrKind::UnexpectedBooleanType, re, rl)),
        },
        crate::expr::BinOp::Gt => match (va, vb) {
            (Value::F(x), Value::F(y)) => Ok(Value::B(joined(x, " > ", y))),
            (Value::B(_), _) => Err(
                match_err(file, line, GenErrKind::UnexpectedBooleanType, le, ll),
            ),
            _ => Err(match_err(file, line, GenErrKind::UnexpectedBooleanType, re, rl)),
        },
        crate::expr::BinOp::And => match (va, vb) {
            (Value::B(x), Value::B(y)) => Ok(Value::B(joined(x, " && ", y))),
            (Value::F(_), _) => Err(
                match_err(file, line, GenErrKind::UnexpectedBooleanType, le, ll),
            ),
            _ => Err(match_err(file, line, GenErrKind::UnexpectedBooleanType, re, rl)),
        },
        crate::expr::BinOp::Or => match (va, vb) {
            (Value::B(x), Value::B(y)) => Ok(Value::B(joined(x, " || ", y))),
            (Value::F(_), _) => Err(
                match_err(file, line, GenErrKind::UnexpectedBooleanType, le, ll),
            ),
            _ => Err(match_err(file, line, GenErrKind::UnexpectedBooleanType, re, rl)),
        },
    }
}


/// The emitted call arguments, joined by `, `; every argument must
/// transpile to a numeric fragment, and any other outcome surfaces as
/// `UnexpectedBooleanType` at that argument.
pub open spec fn spec_tr_args(
    args: Seq<ExprV>,
    i: int,
    line: int,
    file: Seq<Seq<char>>,
    vars: Seq<(Seq<char>, bool)>,
    methods: Seq<Seq<char>>,
    fmt: Seq<(Seq<char>, Seq<char>)>,
) -> Result<(Seq<char>, Seq<Seq<char>>), TrErrV>
    decreases args.len() - i,
{
    if !(0 <= i < args.len()) {
        Ok((Seq::empty(), methods))
    } else {
        let (en, el) = spec_end_len(args[i]);
        match spec_transpiler_expr(args[i], line, file, vars, methods, fmt) {
            Ok((TValV::F(t), m1)) => match spec_tr_args(args, i + 1, line, file, vars, m1, fmt) {
                Err(e) => Err(e),
                Ok((rest, m2)) => Ok(
                    (
                        if i == args.len() - 1 {
                            t
                        } else {
                            t + ", "@ + rest
                        },
                        m2,
                    ),
                ),
            },
            _ => Err(spec_tr_err(file, line, GenErrKind::UnexpectedBooleanType, en, el)),
        }
    }
}

/// One transpiled statement: its emitted text and the variable-kind and
/// method state it leaves behind.
pub open spec fn spec_tr_stmt(
    st: StmtV,
    file: Seq<Seq<char>>,
    vars: Seq<(Seq<char>, bool)>,
    methods: Seq<Seq<char>>,
    tab: int,
    table: Seq<(Seq<char>, FunctionTypeV)>,
    fmt: Seq<(Seq<char>, Seq<char>)>,
) -> Result<(Seq<char>, Seq<(Seq<char>, bool)>, Seq<Seq<char>>), TrErrV>
    decreases st, 1int,
{
    let tabs = spec_set_tab(tab);
    match st {
        StmtV::If(e, body, line) => {
            match spec_transpiler_expr(e, line, file, vars, methods, fmt) {
                Err(er) => Err(er),
                Ok((TValV::F(_), _)) => {
                    let (en, el) = spec_end_len(e);
                    Err(spec_tr_err(file, line, GenErrKind::UnexpectedNumberType, en, el))
                },
                Ok((TValV::B(cond), m1)) => match spec_tr_from(
                    body,
                    0,
                    file,
                    vars,
                    m1,
                    if tab < i32::MAX {
                        tab + 1
                    } else {
                        tab
                    },
                    table,
                    fmt,
                ) {
                    Err(er) => Err(er),
                    Ok((inner, v2, m2)) => Ok(
                        (
                            tabs + "if "@ + cond + " {\n"@ + inner + tabs + "}\n"@,
                            v2,
                            m2,
                        ),
                    ),
                },
            }
        },
        StmtV::While(e, body, line) => {
            match spec_transpiler_expr(e, line, file, vars, methods, fmt) {
                Err(er) => Err(er),
                Ok((TValV::F(_), _)) => {
                    let (en, el) = spec_end_len(e);
                    Err(spec_tr_err(file, line, GenErrKind::UnexpectedNumberType, en, el))
                },
                Ok((TValV::B(cond), m1)) => match spec_tr_from(
                    body,
                    0,
                    file,
                    vars,
                    m1,
                    if tab < i32::MAX {
                        tab + 1
                    } else {
                        tab
                    },
                    table,
                    fmt,
                ) {
                    Err(er) => Err(er),
                    Ok((inner, v2, m2)) => Ok(
                        (
                            tabs + "while "@ + cond + " {\n"@ + inner + tabs + "}\n"@,
                            v2,
                            m2,
                        ),
                    ),
                },
            }
        },
        StmtV::Make(a, e, line) => {
            match a {
                AssignV::Var(name, _, _) => {
                    match spec_transpiler_expr(e, line, file, vars, methods, fmt) {
                        Err(er) => Err(er),
                        Ok((TValV::F(num), m1)) => match assoc_get(vars, name) {
                            Some(false) => Ok(
                                (tabs + name + " = "@ + num + ";\n"@, vars, m1),
                            ),
                            _ => Ok(
                                (
                                    tabs + "let mut "@ + name + " = "@ + num + ";\n"@,
                                    assoc_set(vars, name, false),
                                    m1,
                                ),
                            ),
                        },
                        Ok((TValV::B(bv), m1)) => match assoc_get(vars, name) {
                            Some(true) => Ok((tabs + name + " = "@ + bv + ";\n"@, vars, m1)),
                            _ => Ok(
                                (
                                    tabs + "let mut "@ + name + " = "@ + bv + ";\n"@,
                                    assoc_set(vars, name, true),
                                    m1,
                                ),
                            ),
                        },
                    }
                },
                _ => Ok((Seq::empty(), vars, methods)),
            }
        },
        StmtV::AddAssign(a, e, line) => {
            match a {
                AssignV::Var(name, _, _) => {
                    let (en, el) = spec_end_len(e);
                    match spec_transpiler_expr(e, line, file, vars, methods, fmt) {
                        Err(er) => Err(er),
                        Ok((TValV::B(_), _)) => Err(
                            spec_tr_err(file, line, GenErrKind::UnexpectedNumberType, en, el),
                        ),
                        Ok((TValV::F(num), m1)) => match assoc_get(vars, name) {
                            Some(true) => Err(
                                spec_tr_err(
                                    file,
                                    line,
                                    GenErrKind::UnexpectedBooleanType,
                                    en,
                                    el,
                                ),
                            ),
                            None => Err(
                                spec_tr_err(file, line, GenErrKind::UnDefinedVariable, en, el),
                            ),
                            Some(false) => Ok(
                                (tabs + name + " += "@ + num + ";\n"@, vars, m1),
                            ),
                        },
                    }
                },
                _ => Ok((Seq::empty(), vars, methods)),
            }
        },
        StmtV::PenUp(_) => Ok(
            (
                tabs + "draw.pen_up();\n"@,
                vars,
                spec_method_insert(methods, "pen_up"@),
            ),
        ),
        StmtV::PenDown(_) => Ok(
            (
                tabs + "draw.pen_down();\n"@,
                vars,
                spec_method_insert(methods, "pen_down"@),
            ),
        ),
        StmtV::Forward(e, line) => spec_tr_move(e, line, "draw.pen_move(0, "@, file, vars, methods, tabs, fmt),
        StmtV::Back(e, line) => spec_tr_move(e, line, "draw.pen_move(180, "@, file, vars, methods, tabs, fmt),
        StmtV::Left(e, line) => spec_tr_move(e, line, "draw.pen_move(-90, "@, file, vars, methods, tabs, fmt),
        StmtV::Right(e, line) => spec_tr_move(e, line, "draw.pen_move(90, "@, file, vars, methods, tabs, fmt),
        StmtV::SetPenColor(e, line) => spec_tr_sink(
            e,
            line,
            file,
            vars,
            methods,
            tabs,
            "set_pen_color"@,
            "draw.set_pen_color("@,
            ")?;\n"@,
            fmt,
        ),
        StmtV::Turn(e, line) => spec_tr_sink(
            e,
            line,
            file,
            vars,
            methods,
            tabs,
            "turn"@,
            "draw.turn("@,
            ")?;\n"@,
            fmt,
        ),
        StmtV::SetHeading(e, line) => spec_tr_sink(
            e,
            line,
            file,
            vars,
            methods,
            tabs,
            "set_heading"@,
            "draw.set_heading("@,
            ")?;\n"@,
            fmt,
        ),
        StmtV::SetX(e, line) => spec_tr_sink(
            e,
            line,
            file,
            vars,
            methods,
            tabs,
            "set_x"@,
            "draw.set_x("@,
            ");\n"@,
            fmt,
        ),
        StmtV::SetY(e, line) => spec_tr_sink(
            e,
            line,
            file,
            vars,
            methods,
            tabs,
            "set_y"@,
            "draw.set_y("@,
            ");\n"@,
            fmt,
        ),
        StmtV::Func(nmv, args, line) => {
            match nmv {
                DeclNameV::Named(name, ne, nl) => {
                    match assoc_get(table, name) {
                        None => Err(
                            spec_tr_err(file, line, GenErrKind::UnDefinedFunction, ne, nl),
                        ),
                        Some(ft) => {
                            if args.len() > ft.args.len() {
                                Err(
                                    spec_tr_err(
                                        file,
                                        line,
                                        GenErrKind::TooManyArguments,
                                        ne,
                                        nl,
                                    ),
                                )
                            } else {
                                match spec_tr_args(args, 0, line, file, vars, methods, fmt) {
                                    Err(er) => Err(er),
                                    Ok((joined, m1)) => Ok(
                                        (
                                            tabs + name + "(draw, "@ + joined + ");\n"@,
                                            vars,
                                            m1,
                                        ),
                                    ),
                                }
                            }
                        },
                    }
                },
                _ => Ok((Seq::empty(), vars, methods)),
            }
        },
        StmtV::Comments(text, _) => Ok((tabs + "// "@ + text + "\n"@, vars, methods)),
    }
}


/// A sink call with one numeric argument: the expression must be numeric;
/// the named method is recorded and the call text emitted.
pub open spec fn spec_tr_sink(
    e: ExprV,
    line: int,
    file: Seq<Seq<char>>,
    vars: Seq<(Seq<char>, bool)>,
    methods: Seq<Seq<char>>,
    tabs: Seq<char>,
    mname: Seq<char>,
    opening: Seq<char>,
    closing: Seq<char>,
    fmt: Seq<(Seq<char>, Seq<char>)>,
) -> Result<(Seq<char>, Seq<(Seq<char>, bool)>, Seq<Seq<char>>), TrErrV> {
    let (en, el) = spec_end_len(e);
    match spec_transpiler_expr(e, line, file, vars, methods, fmt) {
        Err(er) => Err(er),
        Ok((TValV::B(_), _)) => Err(
            spec_tr_err(file, line, GenErrKind::UnexpectedNumberType, en, el),
        ),
        Ok((TValV::F(v), m1)) => Ok(
            (tabs + opening + v + closing, vars, spec_method_insert(m1, mname)),
        ),
    }
}

pub open spec fn spec_tr_move(
    e: ExprV,
    line: int,
    opening: Seq<char>,
    file: Seq<Seq<char>>,
    vars: Seq<(Seq<char>, bool)>,
    methods: Seq<Seq<char>>,
    tabs: Seq<char>,
    fmt: Seq<(Seq<char>, Seq<char>)>,
) -> Result<(Seq<char>, Seq<(Seq<char>, bool)>, Seq<Seq<char>>), TrErrV> {
    let (en, el) = spec_end_len(e);
    match spec_transpiler_expr(e, line, file, vars, methods, fmt) {
        Err(er) => Err(er),
        Ok((TValV::B(_), _)) => Err(
            spec_tr_err(file, line, GenErrKind::UnexpectedNumberType, en, el),
        ),
        Ok((TValV::F(v), m1)) => Ok(
            (
                tabs + opening + v + ")?;\n"@,
                vars,
                spec_method_insert(m1, "pen_move"@),
            ),
        ),
    }
}

/// The statement list from an index on: pieces joined by a newline, as
/// the original collected and joined them.
pub open spec fn spec_tr_from(
    list: Seq<StmtV>,
    i: int,
    file: Seq<Seq<char>>,
    vars: Seq<(Seq<char>, bool)>,
    methods: Seq<Seq<char>>,
    tab: int,
    table: Seq<(Seq<char>, FunctionTypeV)>,
    fmt: Seq<(Seq<char>, Seq<char>)>,
) -> Result<(Seq<char>, Seq<(Seq<char>, bool)>, Seq<Seq<char>>), TrErrV>
    decreases list, 0int, list.len() - i,
{
    if !(0 <= i < list.len()) {
        Ok((Seq::empty(), vars, methods))
    } else {
        match spec_tr_stmt(list[i], file, vars, methods, tab, table, fmt) {
            Err(er) => Err(er),
            Ok((t0, v1, m1)) => match spec_tr_from(list, i + 1, file, v1, m1, tab, table, fmt) {
                Err(er) => Err(er),
                Ok((rest, v2, m2)) => Ok(
                    (
                        if i == list.len() - 1 {
                            t0
                        } else {
                            t0 + "\n"@ + rest
                        },
                        v2,
                        m2,
                    ),
                ),
            },
        }
    }
}


/// Transpiles a statement list at a nesting depth, threading the emitted
/// variable kinds and the referenced sink methods; the result equals the
/// ghost walk exactly.
pub fn transpiler_stmt(
    stmt_list: &Vec<Stmt>,
    file: &Vec<Vec<char>>,
    method: &mut DrawMethod,
    variable: &mut VarTypes,
    tab: i32,
    ast: &Function,
    fmt: &NumFormat,
) -> (r: Result<Vec<char>, TranspilerError>)
    ensures
        ({
            let res = spec_tr_from(
                crate::structs::stmts_view(stmt_list@),
                0,
                crate::parse::file_view(file@),
                old(variable)@,
                old(method)@,
                tab as int,
                ast@,
                fmt@,
            );
            match r {
                Ok(t) => res == Ok::<
                    (Seq<char>, Seq<(Seq<char>, bool)>, Seq<Seq<char>>),
                    TrErrV,
                >((t@, final(variable)@, final(method)@)),
                Err(e) => res == Err::<
                    (Seq<char>, Seq<(Seq<char>, bool)>, Seq<Seq<char>>),
                    TrErrV,
                >(e@),
            }
        }),
    decreases *stmt_list, 1int, 0int,
{
    tr_from(stmt_list, 0, file, method, variable, tab, ast, fmt)
}

/// The list from an index on, joined by a newline.
#[verifier::rlimit(100)]
fn tr_from(
    stmt_list: &Vec<Stmt>,
    i: usize,
    file: &Vec<Vec<char>>,
    method: &mut DrawMethod,
    variable: &mut VarTypes,
    tab: i32,
    ast: &Function,
    fmt: &NumFormat,
) -> (r: Result<Vec<char>, TranspilerError>)
    ensures
        ({
            let res = spec_tr_from(
                crate::structs::stmts_view(stmt_list@),
                i as int,
                crate::parse::file_view(file@),
                old(variable)@,
                old(method)@,
                tab as int,
                ast@,
                fmt@,
            );
            match r {
                Ok(t) => res == Ok::<
                    (Seq<char>, Seq<(Seq<char>, bool)>, Seq<Seq<char>>),
                    TrErrV,
                >((t@, final(variable)@, final(method)@)),
                Err(e) => res == Err::<
                    (Seq<char>, Seq<(Seq<char>, bool)>, Seq<Seq<char>>),
                    TrErrV,
                >(e@),
            }
        }),
    decreases *stmt_list, 0int, stmt_list@.len() - i,
{
    let ghost listv = crate::structs::stmts_view(stmt_list@);
    if i >= stmt_list.len() {
        let empty: Vec<char> = Vec::new();
        proof {
            assert(empty@ =~= Seq::<char>::empty());
        }
        return Ok(empty);
    }
    proof {
        assert(listv[i as int] == stmt_list@[i as int]@);
        assert(decreases_to!(*stmt_list => stmt_list@[i as int]));
    }
    let t0 = match tr_one(&stmt_list[i], file, method, variable, tab, ast, fmt) {
        Ok(t) => t,
        Err(e) => {
            return Err(e);
        },
    };
    let rest = match tr_from(stmt_list, i + 1, file, method, variable, tab, ast, fmt) {
        Ok(t) => t,
        Err(e) => {
            return Err(e);
        },
    };
    if i + 1 == stmt_list.len() {
        Ok(t0)
    } else {
        let mut out = t0;
        push_lit(&mut out, "\n");
        crate::text::push_chars(&mut out, &rest);
        Ok(out)
    }
}

/// Transpiles one statement.
#[verifier::rlimit(100)]
fn tr_one(
    st: &Stmt,
    file: &Vec<Vec<char>>,
    method: &mut DrawMethod,
    variable: &mut VarTypes,
    tab: i32,
    ast: &Function,
    fmt: &NumFormat,
) -> (r: Result<Vec<char>, TranspilerError>)
    ensures
        ({
            let res = spec_tr_stmt(
                st@,
                crate::parse::file_view(file@),
                old(variable)@,
                old(method)@,
                tab as int,
                ast@,
                fmt@,
            );
            match r {
                Ok(t) => res == Ok::<
                    (Seq<char>, Seq<(Seq<char>, bool)>, Seq<Seq<char>>),
                    TrErrV,
                >((t@, final(variable)@, final(method)@)),
                Err(e) => res == Err::<
                    (Seq<char>, Seq<(Seq<char>, bool)>, Seq<Seq<char>>),
                    TrErrV,
                >(e@),
            }
        }),
    decreases *st, 1int, 0int,
{
    let tabs = set_tab(tab);
    match st {
        Stmt::If(e, body, line) => {
            let (en, el) = crate::generation::get_end_len(e);
            let cond = match transpiler_expr(e, *line, file, variable, method, fmt) {
                Err(er) => {
                    return Err(er);
                },
                Ok(Value::F(_)) => {
                    return Err(
                        match_err(file, *line, GenErrKind::UnexpectedNumberType, en, el),
                    );
                },
                Ok(Value::B(c)) => c,
            };
            let deeper: i32 = if tab < i32::MAX {
                tab + 1
            } else {
                tab
            };
            proof {
                assert(decreases_to!(*st => *body));
            }
            let inner = match tr_from(body, 0, file, method, variable, deeper, ast, fmt) {
                Err(er) => {
                    return Err(er);
                },
                Ok(t) => t,
            };
            let mut out = tabs.clone();
            push_lit(&mut out, "if ");
            push_chars(&mut out, &cond);
            push_lit(&mut out, " {\n");
            push_chars(&mut out, &inner);
            push_chars(&mut out, &tabs);
            push_lit(&mut out, "}\n");
            Ok(out)
        },
        Stmt::While(e, body, line) => {
            let (en, el) = crate::generation::get_end_len(e);
            let cond = match transpiler_expr(e, *line, file, variable, method, fmt) {
                Err(er) => {
                    return Err(er);
                },
                Ok(Value::F(_)) => {
                    return Err(
                        match_err(file, *line, GenErrKind::UnexpectedNumberType, en, el),
                    );
                },
                Ok(Value::B(c)) => c,
            };
            let deeper: i32 = if tab < i32::MAX {
                tab + 1
            } else {
                tab
            };
            proof {
                assert(decreases_to!(*st => *body));
            }
            let inner = match tr_from(body, 0, file, method, variable, deeper, ast, fmt) {
                Err(er) => {
                    return Err(er);
                },
                Ok(t) => t,
            };
            let mut out = tabs.clone();
            push_lit(&mut out, "while ");
            push_chars(&mut out, &cond);
            push_lit(&mut out, " {\n");
            push_chars(&mut out, &inner);
            push_chars(&mut out, &tabs);
            push_lit(&mut out, "}\n");
            Ok(out)
        },
        Stmt::Make(a, e, line) => {
            match &**a {
                Assign::Var(name, _, _) => {
                    match transpiler_expr(e, *line, file, variable, method, fmt) {
                        Err(er) => Err(er),
                        Ok(Value::F(num)) => {
                            let fresh = match variable.get(name) {
                                Some(false) => false,
                                _ => true,
                            };
                            let mut out = tabs;
                            if fresh {
                                push_lit(&mut out, "let mut ");
                                push_chars(&mut out, name);
                                push_lit(&mut out, " = ");
                                push_chars(&mut out, &num);
                                push_lit(&mut out, ";\n");
                                variable.set(name.clone(), false);
                                Ok(out)
                            } else {
                                push_chars(&mut out, name);
                                push_lit(&mut out, " = ");
                                push_chars(&mut out, &num);
                                push_lit(&mut out, ";\n");
                                Ok(out)
                            }
                        },
                        Ok(Value::B(bv)) => {
                            let fresh = match variable.get(name) {
                                Some(true) => false,
                                _ => true,
                            };
                            let mut out = tabs;
                            if fresh {
                                push_lit(&mut out, "let mut ");
                                push_chars(&mut out, name);
                                push_lit(&mut out, " = ");
                                push_chars(&mut out, &bv);
                                push_lit(&mut out, ";\n");
                                variable.set(name.clone(), true);
                                Ok(out)
                            } else {
                                push_chars(&mut out, name);
                                push_lit(&mut out, " = ");
                                push_chars(&mut out, &bv);
                                push_lit(&mut out, ";\n");
                                Ok(out)
                            }
                        },
                    }
                },
                Assign::Error(..) => {
                    let empty: Vec<char> = Vec::new();
                    proof {
                        assert(empty@ =~= Seq::<char>::empty());
                    }
                    Ok(empty)
                },
            }
        },
        Stmt::AddAssign(a, e, line) => {
            match &**a {
                Assign::Var(name, _, _) => {
                    let (en, el) = crate::generation::get_end_len(e);
                    match transpiler_expr(e, *line, file, variable, method, fmt) {
                        Err(er) => Err(er),
                        Ok(Value::B(_)) => Err(
                            match_err(file, *line, GenErrKind::UnexpectedNumberType, en, el),
                        ),
                        Ok(Value::F(num)) => {
                            match variable.get(name) {
                                Some(true) => Err(
                                    match_err(
                                        file,
                                        *line,
                                        GenErrKind::UnexpectedBooleanType,
                                        en,
                                        el,
                                    ),
                                ),
                                None => Err(
                                    match_err(
                                        file,
                                        *line,
                                        GenErrKind::UnDefinedVariable,
                                        en,
                                        el,
                                    ),
                                ),
                                Some(false) => {
                                    let mut out = tabs;
                                    push_chars(&mut out, name);
                                    push_lit(&mut out, " += ");
                                    push_chars(&mut out, &num);
                                    push_lit(&mut out, ";\n");
                                    Ok(out)
                                },
                            }
                        },
                    }
                },
                Assign::Error(..) => {
                    let empty: Vec<char> = Vec::new();
                    proof {
                        assert(empty@ =~= Seq::<char>::empty());
                    }
                    Ok(empty)
                },
            }
        },
        Stmt::PenUp(_) => {
            insert_lit(method, "pen_up");
            let mut out = tabs;
            push_lit(&mut out, "draw.pen_up();\n");
            Ok(out)
        },
        Stmt::PenDown(_) => {
            insert_lit(method, "pen_down");
            let mut out = tabs;
            push_lit(&mut out, "draw.pen_down();\n");
            Ok(out)
        },
        Stmt::Forward(e, line) => tr_move(e, *line, "draw.pen_move(0, ", file, method, variable, tabs, fmt),
        Stmt::Back(e, line) => tr_move(e, *line, "draw.pen_move(180, ", file, method, variable, tabs, fmt),
        Stmt::Left(e, line) => tr_move(e, *line, "draw.pen_move(-90, ", file, method, variable, tabs, fmt),
        Stmt::Right(e, line) => tr_move(e, *line, "draw.pen_move(90, ", file, method, variable, tabs, fmt),
        Stmt::SetPenColor(e, line) => tr_sink(
            e,
            *line,
            file,
            method,
            variable,
            tabs,
            "set_pen_color",
            "draw.set_pen_color(",
            ")?;\n",
            fmt,
        ),
        Stmt::Turn(e, line) => tr_sink(
            e,
            *line,
            file,
            method,
            variable,
            tabs,
            "turn",
            "draw.turn(",
            ")?;\n",
            fmt,
        ),
        Stmt::SetHeading(e, line) => tr_sink(
            e,
            *line,
            file,
            method,
            variable,
            tabs,
            "set_heading",
            "draw.set_heading(",
            ")?;\n",
            fmt,
        ),
        Stmt::SetX(e, line) => tr_sink(
            e,
            *line,
            file,
            method,
            variable,
            tabs,
            "set_x",
            "draw.set_x(",
            ");\n",
            fmt,
        ),
        Stmt::SetY(e, line) => tr_sink(
            e,
            *line,
            file,
            method,
            variable,
            tabs,
            "set_y",
            "draw.set_y(",
            ");\n",
            fmt,
        ),
        Stmt::Func(nm, args, line) => {
            match &**nm {
                DeclName::Named(name, ne, nl) => {
                    match ast.get_args_value(name) {
                        None => Err(
                            match_err(file, *line, GenErrKind::UnDefinedFunction, *ne, *nl),
                        ),
                        Some(cnt) => {
                            if args.len() > cnt {
                                Err(
                                    match_err(
                                        file,
                                        *line,
                                        GenErrKind::TooManyArguments,
                                        *ne,
                                        *nl,
                                    ),
                                )
                            } else {
                                let joined = match tr_args(
                                    args,
                                    0,
                                    *line,
                                    file,
                                    variable,
                                    method,
                                    fmt,
                                ) {
                                    Err(er) => {
                                        return Err(er);
                                    },
                                    Ok(j) => j,
                                };
                                let mut out = tabs;
                                push_chars(&mut out, name);
                                push_lit(&mut out, "(draw, ");
                                push_chars(&mut out, &joined);
                                push_lit(&mut out, ");\n");
                                Ok(out)
                            }
                        },
                    }
                },
                DeclName::Error(..) => {
                    let empty: Vec<char> = Vec::new();
                    proof {
                        assert(empty@ =~= Seq::<char>::empty());
                    }
                    Ok(empty)
                },
            }
        },
        Stmt::Comments(text, _) => {
            let mut out = tabs;
            push_lit(&mut out, "// ");
            push_chars(&mut out, text);
            push_lit(&mut out, "\n");
            Ok(out)
        },
    }
}


fn tr_sink(
    e: &Expr,
    line: usize,
    file: &Vec<Vec<char>>,
    method: &mut DrawMethod,
    variable: &VarTypes,
    tabs: Vec<char>,
    mname: &str,
    opening: &str,
    closing: &str,
    fmt: &NumFormat,
) -> (r: Result<Vec<char>, TranspilerError>)
    ensures
        ({
            let res = spec_tr_sink(
                e@,
                line as int,
                crate::parse::file_view(file@),
                variable@,
                old(method)@,
                tabs@,
                mname@,
                opening@,
                closing@,
                fmt@,
            );
            match r {
                Ok(t) => res == Ok::<
                    (Seq<char>, Seq<(Seq<char>, bool)>, Seq<Seq<char>>),
                    TrErrV,
                >((t@, variable@, final(method)@)),
                Err(er) => res == Err::<
                    (Seq<char>, Seq<(Seq<char>, bool)>, Seq<Seq<char>>),
                    TrErrV,
                >(er@),
            }
        }),
{
    let (en, el) = crate::generation::get_end_len(e);
    match transpiler_expr(e, line, file, variable, method, fmt) {
        Err(er) => Err(er),
        Ok(Value::B(_)) => Err(match_err(file, line, GenErrKind::UnexpectedNumberType, en, el)),
        Ok(Value::F(v)) => {
            let mut key: Vec<char> = Vec::new();
            push_lit(&mut key, mname);
            method.insert(key);
            let mut out = tabs;
            push_lit(&mut out, opening);
            push_chars(&mut out, &v);
            push_lit(&mut out, closing);
            Ok(out)
        },
    }
}

fn tr_move(
    e: &Expr,
    line: usize,
    opening: &str,
    file: &Vec<Vec<char>>,
    method: &mut DrawMethod,
    variable: &VarTypes,
    tabs: Vec<char>,
    fmt: &NumFormat,
) -> (r: Result<Vec<char>, TranspilerError>)
    ensures
        ({
            let res = spec_tr_move(
                e@,
                line as int,
                opening@,
                crate::parse::file_view(file@),
                variable@,
                old(method)@,
                tabs@,
                fmt@,
            );
            match r {
                Ok(t) => res == Ok::<
                    (Seq<char>, Seq<(Seq<char>, bool)>, Seq<Seq<char>>),
                    TrErrV,
                >((t@, variable@, final(method)@)),
                Err(er) => res == Err::<
                    (Seq<char>, Seq<(Seq<char>, bool)>, Seq<Seq<char>>),
                    TrErrV,
                >(er@),
            }
        }),
{
    let (en, el) = crate::generation::get_end_len(e);
    match transpiler_expr(e, line, file, variable, method, fmt) {
        Err(er) => Err(er),
        Ok(Value::B(_)) => Err(match_err(file, line, GenErrKind::UnexpectedNumberType, en, el)),
        Ok(Value::F(v)) => {
            insert_lit(method, "pen_move");
            let mut out = tabs;
            push_lit(&mut out, opening);
            push_chars(&mut out, &v);
            push_lit(&mut out, ")?;\n");
            Ok(out)
        },
    }
}

fn tr_args(
    args: &Vec<Expr>,
    i: usize,
    line: usize,
    file: &Vec<Vec<char>>,
    variable: &VarTypes,
    method: &mut DrawMethod,
    fmt: &NumFormat,
) -> (r: Result<Vec<char>, TranspilerError>)
    ensures
        ({
            let res = spec_tr_args(
                crate::structs::exprs_view(args@),
                i as int,
                line as int,
                crate::parse::file_view(file@),
                variable@,
                old(method)@,
                fmt@,
            );
            match r {
                Ok(t) => res == Ok::<(Seq<char>, Seq<Seq<char>>), TrErrV>((t@, final(method)@)),
                Err(er) => res == Err::<(Seq<char>, Seq<Seq<char>>), TrErrV>(er@),
            }
        }),
    decreases args@.len() - i,
{
    let ghost argsv = crate::structs::exprs_view(args@);
    if i >= args.len() {
        let empty: Vec<char> = Vec::new();
        proof {
            assert(empty@ =~= Seq::<char>::empty());
        }
        return Ok(empty);
    }
    proof {
        assert(argsv[i as int] == args@[i as int]@);
    }
    let (en, el) = crate::generation::get_end_len(&args[i]);
    let t0 = match transpiler_expr(&args[i], line, file, variable, method, fmt) {
        Ok(Value::F(t)) => t,
        _ => {
            return Err(match_err(file, line, GenErrKind::UnexpectedBooleanType, en, el));
        },
    };
    let rest = match tr_args(args, i + 1, line, file, variable, method, fmt) {
        Ok(t) => t,
        Err(e) => {
            return Err(e);
        },
    };
    if i + 1 == args.len() {
        Ok(t0)
    } else {
        let mut out = t0;
        push_lit(&mut out, ", ");
        crate::text::push_chars(&mut out, &rest);
        Ok(out)
    }
}


impl TranspilerError {
    /// The fixed remediation hint for this diagnostic's kind.
    pub fn help(&self) -> (r: &'static str)
        ensures
            r@ == crate::generation::spec_gen_help(self.kind),
    {
        crate::generation::gen_kind_help(self.kind)
    }

    /// The positioned message, citing the reported line number and the
    /// one-based column of the span start.
    pub fn message(&self) -> (r: Vec<char>)
        requires
            self.start < usize::MAX,
        ensures
            r@ == crate::generation::spec_gen_message(
                self.kind,
                self.line as int,
                self.start as int,
            ),
    {
        crate::generation::gen_kind_message(self.kind, self.line, self.start)
    }
}

} // verus!
