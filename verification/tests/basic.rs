use rslogo::generation::{Action, Event, GenErrKind, Machine, Mode};
use rslogo::parse::{parse_ast, struct_check};
use rslogo::structs::{ErrKind, Expr, Stmt};
use rslogo::transpiler::{transpiler_stmt, DrawMethod, NumFormat, VarTypes};
use rslogo::variable::Variable;

/// Where a move at a heading ends: headings start at zero pointing up and
/// grow clockwise.
fn end_coordinates(x: f32, y: f32, direction: i32, length: f32) -> (f32, f32) {
    let rad = (direction as f32).to_radians();
    (x + length * rad.sin(), y - length * rad.cos())
}

fn l(s: &str) -> Vec<char> {
    s.chars().collect()
}

fn file(lines: &[&str]) -> Vec<Vec<char>> {
    lines.iter().map(|s| l(s)).collect()
}

fn s(cs: &[char]) -> String {
    cs.iter().collect()
}

/// A driver for the evaluation machine: real 32-bit float arithmetic and a
/// plain turtle, mirroring the drawing surface the program controls.
struct Turtle {
    x: f32,
    y: f32,
    dir: i32,
    color: usize,
    pen: bool,
    segments: Vec<(f32, f32, f32, f32)>,
}

fn run_machine(lines: &[&str]) -> Result<(Turtle, Variable), (GenErrKind, usize, usize, usize)> {
    let fv = file(lines);
    let table = parse_ast(&fv).expect("program should parse");
    let body = rslogo::structs::clone_stmts(table.get_main());
    let mut t = Turtle { x: 50.0, y: 50.0, dir: 0, color: 7, pen: false, segments: Vec::new() };
    // Pre-declare every formal parameter, declared but without a value yet.
    let mut vars = Variable::new();
    for a in table.get_args() {
        vars.insert_num(a, None);
    }
    let mut m = Machine::new(body, vars);
    let mut ev: Option<Event> = None;
    for _ in 0..100000 {
        if let Mode::Done(res) = &m.mode {
            return match res {
                Ok(()) => {
                    let vars = std::mem::replace(&mut m.vars, Variable::new());
                    Ok((t, vars))
                }
                Err(e) => Err((e.kind, e.start, e.len, e.line)),
            };
        }
        let act = m.step(ev.take(), &table, &fv);
        if let Some(a) = act {
            ev = Some(perform(&mut t, a));
        }
    }
    panic!("machine did not finish");
}

fn perform(t: &mut Turtle, a: Action) -> Event {
    match a {
        Action::Add(x, y) => Event::Num((f32::from_bits(x) + f32::from_bits(y)).to_bits()),
        Action::Sub(x, y) => Event::Num((f32::from_bits(x) - f32::from_bits(y)).to_bits()),
        Action::Mul(x, y) => Event::Num((f32::from_bits(x) * f32::from_bits(y)).to_bits()),
        Action::Div(x, y) => Event::Num((f32::from_bits(x) / f32::from_bits(y)).to_bits()),
        Action::EqZero(x) => Event::Bool(f32::from_bits(x) == 0.0),
        Action::EqNum(x, y) => Event::Bool(f32::from_bits(x) == f32::from_bits(y)),
        Action::NeNum(x, y) => Event::Bool(f32::from_bits(x) != f32::from_bits(y)),
        Action::LtNum(x, y) => Event::Bool(f32::from_bits(x) < f32::from_bits(y)),
        Action::GtNum(x, y) => Event::Bool(f32::from_bits(x) > f32::from_bits(y)),
        Action::ParseNum(txt) => {
            let st: String = txt.iter().collect();
            Event::Num(st.parse::<f32>().expect("literal").to_bits())
        }
        Action::IsInt(x) => {
            let f = f32::from_bits(x);
            Event::Bool(f.is_finite() && f.fract() == 0.0)
        }
        Action::InColorRange(x) => Event::Bool((0.0..=15.0).contains(&f32::from_bits(x))),
        Action::Trunc(x) => Event::Int(f32::from_bits(x) as i32),
        Action::PenUp => {
            t.pen = false;
            Event::Ack
        }
        Action::PenDown => {
            t.pen = true;
            Event::Ack
        }
        Action::Move(offset, dist) => {
            let mut dir = t.dir + offset;
            let mut d = f32::from_bits(dist);
            if d < 0.0 {
                dir += 180;
                d = d.abs();
            }
            let (nx, ny) = end_coordinates(t.x, t.y, dir, d);
            if t.pen {
                t.segments.push((t.x, t.y, nx, ny));
            }
            t.x = nx;
            t.y = ny;
            Event::Ack
        }
        Action::SetColor(c) => {
            t.color = c;
            Event::Ack
        }
        Action::Turn(a) => {
            t.dir += a;
            Event::Ack
        }
        Action::SetHeading(a) => {
            t.dir = a;
            Event::Ack
        }
        Action::SetX(v) => {
            t.x = f32::from_bits(v);
            Event::Ack
        }
        Action::SetY(v) => {
            t.y = f32::from_bits(v);
            Event::Ack
        }
        Action::ReadX => Event::Num(t.x.to_bits()),
        Action::ReadY => Event::Num(t.y.to_bits()),
        Action::ReadHeading => Event::Num((t.dir as f32).to_bits()),
        Action::ReadColor => Event::Num((t.color as f32).to_bits()),
    }
}

#[test]
fn prefix_expressions_have_no_precedence() {
    // + "3 * "4 "5 parses as Add(Float(3), Mul(Float(4), Float(5))).
    let line = l("+ \"3 * \"4 \"5");
    let (pos, e) = rslogo::expr::parse_expr(&line, 0).expect("parses");
    assert_eq!(pos, line.len());
    match e {
        Expr::Add(a, b, _, _) => {
            match *a {
                Expr::Float(t, _, _) => assert_eq!(s(&t), "3"),
                other => panic!("left operand should be the literal 3, got {:?}", other),
            }
            match *b {
                Expr::Mul(x, y, _, _) => {
                    match *x {
                        Expr::Float(t, _, _) => assert_eq!(s(&t), "4"),
                        other => panic!("expected 4, got {:?}", other),
                    }
                    match *y {
                        Expr::Float(t, _, _) => assert_eq!(s(&t), "5"),
                        other => panic!("expected 5, got {:?}", other),
                    }
                }
                other => panic!("right operand should be a product, got {:?}", other),
            }
        }
        other => panic!("expected a sum, got {:?}", other),
    }
}

#[test]
fn balanced_program_builds_table_with_declared_names() {
    let fv = file(&["TO BOX \"N", "FORWARD :N", "END", "PENDOWN", "BOX \"10"]);
    let table = parse_ast(&fv).expect("balanced program parses");
    assert!(table.check_name(&l("BOX")));
    assert!(table.check_name(&l("")));
    assert!(!table.check_name(&l("OTHER")));
    assert_eq!(table.get_args_value(&l("BOX")), Some(1));
    assert_eq!(table.get_all().len(), 2);
}

#[test]
fn unclosed_if_reports_missing_right_bracket() {
    let fv = file(&["IF :X ["]);
    match struct_check(&fv) {
        Err(e) => assert_eq!(e.kind, ErrKind::MissingRightBracket),
        Ok(()) => panic!("an unclosed block must be rejected"),
    }
}

#[test]
fn to_inside_open_block_is_decl_wrong_position_with_both_lines() {
    let fv = file(&["IF :X [", "TO F", "]", "END"]);
    match struct_check(&fv) {
        Err(e) => {
            assert_eq!(e.kind, ErrKind::DeclWrongPosition);
            assert_eq!(s(&e.src), "IF :X [\nTO F");
            assert_eq!(e.line, 2);
        }
        Ok(()) => panic!("a declaration inside a block must be rejected"),
    }
}

#[test]
fn missing_left_bracket_detected() {
    let fv = file(&["WHILE :X"]);
    match struct_check(&fv) {
        Err(e) => assert_eq!(e.kind, ErrKind::MissingLeftBracket),
        Ok(()) => panic!("a block head without [ must be rejected"),
    }
}

#[test]
fn bare_bracket_without_block_is_missing_while_or_if() {
    let fv = file(&["]"]);
    match struct_check(&fv) {
        Err(e) => {
            assert_eq!(e.kind, ErrKind::MissingWhileOrIf);
            assert_eq!(s(&e.src), " \n]");
        }
        Ok(()) => panic!("a stray ] must be rejected"),
    }
}

#[test]
fn repeat_function_name_rejected() {
    let fv = file(&["TO F", "END", "TO F", "END"]);
    match parse_ast(&fv) {
        Err(e) => assert_eq!(e.kind, ErrKind::RepeatFunctionName),
        Ok(_) => panic!("a duplicate declaration must be rejected"),
    }
}

#[test]
fn extra_operand_after_statement_rejected() {
    let fv = file(&["PENUP \"3"]);
    match parse_ast(&fv) {
        Err(e) => assert_eq!(e.kind, ErrKind::UnexpectedExtraOperand),
        Ok(_) => panic!("trailing operands must be rejected"),
    }
}

#[test]
fn invalid_number_is_reported_from_the_leaf() {
    let fv = file(&["FORWARD \"1.2.3"]);
    match parse_ast(&fv) {
        Err(e) => assert_eq!(e.kind, ErrKind::InvalidNumber),
        Ok(_) => panic!("a malformed literal must be rejected"),
    }
}

#[test]
fn divide_by_zero_points_at_the_division() {
    // Evaluating / "4 "0 raises DivideByZero with the division's span.
    let src = "FORWARD / \"4 \"0";
    let (kind, start, len, line) = run_machine(&[src]).err().expect("division by zero");
    assert_eq!(kind, GenErrKind::DivideByZero);
    assert_eq!(line, 0);
    // The division node's text starts at the operator and runs to the end.
    assert_eq!(start, "FORWARD ".len());
    assert_eq!(len, "/ \"4 \"0".len());
}

#[test]
fn forward_with_pen_up_moves_without_drawing() {
    let (t, _) = run_machine(&["FORWARD \"50"]).expect("runs");
    assert_eq!(t.x, 50.0);
    assert_eq!(t.y, 0.0);
    assert!(t.segments.is_empty());
}

#[test]
fn boolean_binding_takes_the_if_branch() {
    let (t, _) = run_machine(&["MAKE \"X \"TRUE", "IF :X [", "FORWARD \"10", "]"])
        .expect("runs");
    assert_eq!(t.y, 40.0);
    assert_eq!(t.x, 50.0);
}

#[test]
fn calling_zero_parameter_function_with_argument_is_too_many() {
    let (kind, start, len, line) =
        run_machine(&["TO F", "END", "F \"1"]).err().expect("arity error");
    assert_eq!(kind, GenErrKind::TooManyArguments);
    assert_eq!(line, 2);
    // The span cites the call site's name token.
    assert_eq!(start, 0);
    assert_eq!(len, 2);
}

#[test]
fn while_loop_repeats_until_condition_fails() {
    let (_, vars) = run_machine(&[
        "MAKE \"I \"0",
        "WHILE LT :I \"5 [",
        "ADDASSIGN \"I \"1",
        "]",
    ])
    .expect("runs");
    match vars.get(&l("I")) {
        Some(Some(rslogo::variable::Type::F(bits))) => assert_eq!(f32::from_bits(bits), 5.0),
        other => panic!("I should hold 5, got {:?}", other),
    }
}

#[test]
fn undefined_variable_reported() {
    let (kind, _, _, _) = run_machine(&["FORWARD :NOPE"]).err().expect("error");
    assert_eq!(kind, GenErrKind::UnDefinedVariable);
}

#[test]
fn set_pen_color_checks_integer_and_range() {
    let (kind, _, _, _) = run_machine(&["SETPENCOLOR \"1.5"]).err().expect("error");
    assert_eq!(kind, GenErrKind::NonIntegerValueError);
    let (kind2, _, _, _) = run_machine(&["SETPENCOLOR \"16"]).err().expect("error");
    assert_eq!(kind2, GenErrKind::UnDefinedColor);
    let (t, _) = run_machine(&["SETPENCOLOR \"3"]).expect("runs");
    assert_eq!(t.color, 3);
}

#[test]
fn comments_and_blank_lines_are_kept_out_of_the_way() {
    let fv = file(&["", "// just a note", "PENUP"]);
    let table = parse_ast(&fv).expect("parses");
    let main = table.get_main();
    assert_eq!(main.len(), 2);
    match &main[0] {
        Stmt::Comments(text, line) => {
            assert_eq!(s(text), "just a note");
            assert_eq!(*line, 2);
        }
        other => panic!("expected the comment first, got {:?}", other),
    }
}

#[test]
fn transpiler_emits_turtle_calls_and_bindings() {
    let fv = file(&["MAKE \"X \"3", "FORWARD :X", "PENDOWN"]);
    let table = parse_ast(&fv).expect("parses");
    let body = rslogo::structs::clone_stmts(table.get_main());
    let mut method = DrawMethod::new();
    let mut vars = VarTypes::new();
    let mut fmt = NumFormat::new();
    // The caller supplies the decimal text of each literal's 32-bit value.
    fmt.add(l("3"), l(&"3".parse::<f32>().unwrap().to_string()));
    let out = transpiler_stmt(&body, &fv, &mut method, &mut vars, 1, &table, &fmt)
        .expect("transpiles");
    let text = s(&out);
    assert_eq!(
        text,
        "\tlet mut X = 3.0;\n\n\tdraw.pen_move(0, X)?;\n\n\tdraw.pen_down();\n"
    );
    let keys: Vec<String> = method.keys().iter().map(|k| s(k)).collect();
    assert_eq!(keys, vec!["pen_move".to_string(), "pen_down".to_string()]);
}

#[test]
fn transpiled_formula_keeps_prefix_grouping() {
    let fv = file(&["MAKE \"A + \"1 * \"2 \"3"]);
    let table = parse_ast(&fv).expect("parses");
    let body = rslogo::structs::clone_stmts(table.get_main());
    let mut method = DrawMethod::new();
    let mut vars = VarTypes::new();
    let mut fmt = NumFormat::new();
    for lit in ["1", "2", "3"] {
        fmt.add(l(lit), l(&lit.parse::<f32>().unwrap().to_string()));
    }
    let out = transpiler_stmt(&body, &fv, &mut method, &mut vars, 0, &table, &fmt)
        .expect("transpiles");
    assert_eq!(s(&out), "let mut A = 1.0 + (2.0 * 3.0);\n");
}

#[test]
fn interpreting_matches_hand_run_of_emitted_code() {
    // For a program with no system-variable reads, the direct run and the
    // emitted code agree on positions and pen states; the emitted text is
    // checked literally and its effect recomputed by hand here.
    let prog = ["PENDOWN", "FORWARD \"10", "PENUP", "BACK \"5"];
    let (t, _) = run_machine(&prog).expect("runs");
    assert_eq!((t.x, t.y), end_coordinates(50.0, 40.0, 180, 5.0));
    assert_eq!(t.segments.len(), 1);

    let fv = file(&prog);
    let table = parse_ast(&fv).expect("parses");
    let body = rslogo::structs::clone_stmts(table.get_main());
    let mut method = DrawMethod::new();
    let mut vars = VarTypes::new();
    let mut fmt = NumFormat::new();
    fmt.add(l("10"), l("10"));
    fmt.add(l("5"), l("5"));
    let out = transpiler_stmt(&body, &fv, &mut method, &mut vars, 0, &table, &fmt)
        .expect("transpiles");
    assert_eq!(
        s(&out),
        "draw.pen_down();\n\ndraw.pen_move(0, 10.0)?;\n\ndraw.pen_up();\n\ndraw.pen_move(180, 5.0)?;\n"
    );
}

#[test]
fn make_rebinding_changes_type() {
    let (_, vars) = run_machine(&["MAKE \"X \"1", "MAKE \"X \"FALSE"]).expect("runs");
    match vars.get(&l("X")) {
        Some(Some(rslogo::variable::Type::B(b))) => assert!(!b),
        other => panic!("X should hold false, got {:?}", other),
    }
}

#[test]
fn end_inside_open_block_is_missing_right_bracket() {
    let fv = file(&["IF \"TRUE [", "END"]);
    match struct_check(&fv) {
        Err(e) => {
            assert_eq!(e.kind, ErrKind::MissingRightBracket);
            assert_eq!(s(&e.src), "IF \"TRUE [\n ");
            assert_eq!(e.line, 2);
        }
        Ok(()) => panic!("END with an open block must be rejected"),
    }
}

#[test]
fn deep_error_leaf_is_rejected_at_parse() {
    // The error leaf sits two levels down the expression tree.
    let fv = file(&["FORWARD + + # \"1 \"2"]);
    match parse_ast(&fv) {
        Err(e) => assert_eq!(e.kind, ErrKind::UnexpectedExpr),
        Ok(_) => panic!("a buried error leaf must surface"),
    }
}

#[test]
fn error_in_second_call_argument_is_rejected_at_parse() {
    let fv = file(&["TO F \"A \"B", "END", "F \"1 \"1.2.3"]);
    match parse_ast(&fv) {
        Err(e) => assert_eq!(e.kind, ErrKind::InvalidNumber),
        Ok(_) => panic!("an error in a later argument must surface"),
    }
}

#[test]
fn arithmetic_rejects_boolean_left_operand_before_right_runs() {
    // The right operand would fail with an undefined variable; the left
    // operand's type is judged first, at the operator's span.
    let src = "FORWARD + \"TRUE :NOPE";
    let (kind, start, len, line) = run_machine(&[src]).err().expect("type error");
    assert_eq!(kind, GenErrKind::UnexpectedBooleanType);
    assert_eq!(line, 0);
    assert_eq!(start, "FORWARD ".len());
    assert_eq!(len, "+ \"TRUE :NOPE".len());
}

#[test]
fn formal_parameter_reads_as_declared_without_value() {
    let (kind, _, _, _) =
        run_machine(&["TO F \"A", "END", "FORWARD :A"]).err().expect("error");
    assert_eq!(kind, GenErrKind::UnDefinedVariableValue);
}

#[test]
fn parse_error_carries_message_and_hint() {
    let fv = file(&["]"]);
    let e = struct_check(&fv).err().expect("stray bracket");
    assert_eq!(s(&e.message()), "Missing `IF` or `WHILE` (Ln 1, Col 1)");
    assert_eq!(e.help(), "Add `IF` or `WHILE` to start the condition declaration.");
}

#[test]
fn evaluation_error_carries_message_and_hint() {
    let src = "FORWARD / \"4 \"0";
    let fv = file(&[src]);
    let table = parse_ast(&fv).expect("parses");
    let body = rslogo::structs::clone_stmts(table.get_main());
    let mut m = Machine::new(body, Variable::new());
    let mut t = Turtle { x: 0.0, y: 0.0, dir: 0, color: 7, pen: false, segments: Vec::new() };
    let mut ev: Option<Event> = None;
    for _ in 0..1000 {
        if let Mode::Done(res) = &m.mode {
            let e = res.as_ref().err().expect("division by zero");
            assert_eq!(s(&e.message()), "Divide by zero error (Ln 0, Col 9)");
            assert_eq!(
                e.help(),
                "Change the divisor to a non-zero value or check the variable value."
            );
            return;
        }
        if let Some(a) = m.step(ev.take(), &table, &fv) {
            ev = Some(perform(&mut t, a));
        }
    }
    panic!("machine did not finish");
}

#[test]
fn parameter_name_helpers_list_formals() {
    let fv = file(&["TO F \"A \"B", "END", "TO G \"C", "END"]);
    let table = parse_ast(&fv).expect("parses");
    let all: Vec<String> = table.get_args().iter().map(|n| s(n)).collect();
    assert_eq!(all, vec!["A".to_string(), "B".to_string(), "C".to_string()]);
    let seeded = table.get_args_by_name(&l("F"));
    let names: Vec<(String, bool)> = seeded.iter().map(|(n, b)| (s(n), *b)).collect();
    assert_eq!(names, vec![("A".to_string(), false), ("B".to_string(), false)]);
}
