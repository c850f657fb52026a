//! Declaration headers: `TO name "param…`.  The name and each parameter
//! become `Error` variants when malformed; extra judgement is left to the
//! assembly pass.

use vstd::prelude::*;

use crate::assign::{parse_assign, spec_parse_assign};
use crate::expr::bound_pos;
use crate::structs::{assigns_view, Assign, AssignV, Decl, DeclName, DeclNameV, DeclV, ErrKind};
use crate::text::{
    check_name, copy_slice, scan_word, scan_word_chars, skip_sp, skip_spaces, tag_at, tag_matches,
    valid_name,
};

verus! {

pub open spec fn pn_view(r: Option<(usize, DeclName)>) -> Option<(int, DeclNameV)> {
    match r {
        Some((q, d)) => Some((q as int, d@)),
        None => None,
    }
}

/// A bare word as an identifier: a name when it obeys the lexical rule,
/// an `InvalidName` error otherwise.
pub open spec fn spec_parse_decl_name(s: Seq<char>, p: int) -> Option<(int, DeclNameV)> {
    let p1 = skip_sp(s, p);
    let q = scan_word(s, p1);
    if q == p1 {
        None
    } else {
        let name = s.subrange(p1, q);
        let p2 = skip_sp(s, q);
        if valid_name(name) {
            Some((p2, DeclNameV::Named(name, s.len() - p2, p2 - p)))
        } else {
            Some((p2, DeclNameV::Error(ErrKind::InvalidName, s.len() - p2, p2 - p)))
        }
    }
}

/// The span of a declaration-name token, within its sentence.
pub open spec fn name_span_ok(n: DeclNameV, len: int) -> bool {
    match n {
        DeclNameV::Named(_, e, l) => 0 <= e && 0 <= l && e + l <= len,
        DeclNameV::Error(_, e, l) => 0 <= e && 0 <= l && e + l <= len,
    }
}

pub proof fn lemma_decl_name_spans(s: Seq<char>, p: int)
    requires
        0 <= p <= s.len(),
    ensures
        spec_parse_decl_name(s, p) matches Some((q, n)) ==> p < q <= s.len() && name_span_ok(
            n,
            s.len() as int,
        ),
{
    crate::text::lemma_skip_sp(s, p);
    let p1 = skip_sp(s, p);
    crate::text::lemma_scan_word(s, p1);
    crate::text::lemma_skip_sp(s, scan_word(s, p1));
}

/// The parameter list a header records stays within the line and within
/// span bounds.
pub proof fn lemma_parse_params_spans(s: Seq<char>, p: int)
    requires
        0 <= p <= s.len(),
    ensures
        p <= spec_parse_params(s, p).0 <= s.len(),
        forall|j: int|
            0 <= j < spec_parse_params(s, p).1.len() ==> crate::structs::assign_span_ok(
                #[trigger] spec_parse_params(s, p).1[j],
                s.len() as int,
            ),
    decreases s.len() - p,
{
    crate::assign::lemma_assign_spans(s, p);
    match spec_parse_assign(s, p) {
        None => {},
        Some((q, a)) => {
            if p < q <= s.len() {
                lemma_parse_params_spans(s, q);
                assert(spec_parse_params(s, p).1 == seq![a] + spec_parse_params(s, q).1);
                assert forall|j: int|
                    0 <= j < spec_parse_params(s, p).1.len() implies crate::structs::assign_span_ok(
                    #[trigger] spec_parse_params(s, p).1[j],
                    s.len() as int,
                ) by {
                    if j > 0 {
                        assert(spec_parse_params(s, p).1[j] == spec_parse_params(s, q).1[j - 1]);
                    }
                }
            }
        },
    }
}

/// Everything a successful `TO` header records stays within its sentence.
pub proof fn lemma_parse_decl_spans(s: Seq<char>, p: int)
    requires
        0 <= p <= s.len(),
    ensures
        spec_parse_decl(s, p) matches Some((q, d)) ==> p <= q <= s.len() && name_span_ok(
            d.name,
            s.len() as int,
        ) && forall|j: int|
            0 <= j < d.var.len() ==> crate::structs::assign_span_ok(
                #[trigger] d.var[j],
                s.len() as int,
            ),
{
    crate::text::lemma_skip_sp(s, p);
    let p1 = skip_sp(s, p);
    if tag_matches(s, p1, "TO"@) {
        crate::text::lemma_skip_sp(s, p1 + "TO"@.len());
        let p2 = bound_pos(skip_sp(s, p1 + "TO"@.len()), if p < 0 {
            0
        } else {
            p
        }, s.len() as int);
        lemma_decl_name_spans(s, p2);
        let (p3r, name) = match spec_parse_decl_name(s, p2) {
            Some(r) => r,
            None => (p2, DeclNameV::Error(ErrKind::MissingName, s.len() - p2, 1)),
        };
        let p3 = bound_pos(p3r, p2, s.len() as int);
        assert(p2 >= 1) by {
            assert("TO"@.len() == 2) by {
                reveal_strlit("TO");
            }
        }
        lemma_parse_params_spans(s, p3);
    }
}

pub fn parse_decl_name(line: &Vec<char>, pos: usize) -> (r: Option<(usize, DeclName)>)
    requires
        pos <= line@.len(),
    ensures
        pn_view(r) == spec_parse_decl_name(line@, pos as int),
        r matches Some(t) ==> pos < t.0 <= line@.len(),
{
    let p1 = skip_spaces(line, pos);
    let q = scan_word_chars(line, p1);
    if q == p1 {
        None
    } else {
        let name = copy_slice(line, p1, q);
        let p2 = skip_spaces(line, q);
        if check_name(&name) {
            Some((p2, DeclName::Named(name, line.len() - p2, p2 - pos)))
        } else {
            Some((p2, DeclName::Error(ErrKind::InvalidName, line.len() - p2, p2 - pos)))
        }
    }
}

/// Greedy list of formal parameters: assignment targets until none parses.
pub open spec fn spec_parse_params(s: Seq<char>, p: int) -> (int, Seq<AssignV>)
    decreases s.len() - p when 0 <= p <= s.len()
{
    match spec_parse_assign(s, p) {
        None => (p, Seq::empty()),
        Some((q, a)) => if p < q <= s.len() {
            let r = spec_parse_params(s, q);
            (r.0, seq![a] + r.1)
        } else {
            (p, seq![a])
        },
    }
}

/// A `TO` header: the keyword, a declaration name (a `MissingName` error
/// when absent), then formal parameters until no further target parses.
pub open spec fn spec_parse_decl(s: Seq<char>, p: int) -> Option<(int, DeclV)> {
    let p1 = skip_sp(s, p);
    if tag_matches(s, p1, "TO"@) {
        let p2 = bound_pos(skip_sp(s, p1 + "TO"@.len()), if p < 0 {
            0
        } else {
            p
        }, s.len() as int);
        let (p3r, name) = match spec_parse_decl_name(s, p2) {
            Some(r) => r,
            None => (p2, DeclNameV::Error(ErrKind::MissingName, s.len() - p2, 1)),
        };
        let p3 = bound_pos(p3r, p2, s.len() as int);
        let r = spec_parse_params(s, p3);
        Some((r.0, DeclV { name: name, var: r.1 }))
    } else {
        None
    }
}

pub fn parse_decl(line: &Vec<char>, pos: usize) -> (r: Option<(usize, Decl)>)
    requires
        pos <= line@.len(),
    ensures
        match r {
            Some((q, d)) => spec_parse_decl(line@, pos as int) == Some((q as int, d@)) && pos <= q
                <= line@.len(),
            None => spec_parse_decl(line@, pos as int) is None,
        },
{
    let ll = line.len();
    let p1 = skip_spaces(line, pos);
    if tag_at(line, p1, "TO") {
        let tlen = "TO".unicode_len();
        assert(p1 + tlen <= ll);
        let p2 = skip_spaces(line, p1 + tlen);
        proof {
            crate::text::lemma_skip_sp(line@, p1 + tlen);
            assert(p2 == bound_pos(
                skip_sp(line@, p1 + "TO"@.len()),
                pos as int,
                line@.len() as int,
            ));
        }
        let (p3, name) = match parse_decl_name(line, p2) {
            Some(t) => t,
            None => (p2, DeclName::Error(ErrKind::MissingName, ll - p2, 1)),
        };
        proof {
            assert(p3 == bound_pos(p3 as int, p2 as int, line@.len() as int));
        }
        let mut vars: Vec<Box<Assign>> = Vec::new();
        let mut cur = p3;
        proof {
            assert(assigns_view(vars@) + spec_parse_params(line@, cur as int).1
                =~= spec_parse_params(line@, cur as int).1);
        }
        proof {
            assert(spec_parse_decl(line@, pos as int) == Some(
                (
                    spec_parse_params(line@, p3 as int).0,
                    DeclV { name: name@, var: spec_parse_params(line@, p3 as int).1 },
                ),
            ));
        }
        loop
            invariant
                pos <= p3 <= cur <= line@.len(),
                spec_parse_decl(line@, pos as int) == Some(
                    (
                        spec_parse_params(line@, p3 as int).0,
                        DeclV { name: name@, var: spec_parse_params(line@, p3 as int).1 },
                    ),
                ),
                spec_parse_params(line@, p3 as int).0 == spec_parse_params(line@, cur as int).0,
                spec_parse_params(line@, p3 as int).1 == assigns_view(vars@) + spec_parse_params(
                    line@,
                    cur as int,
                ).1,
            ensures
                spec_parse_assign(line@, cur as int) is None,
            decreases line@.len() - cur,
        {
            match parse_assign(line, cur) {
                Some((q, a)) => {
                    let ghost old_vars = vars@;
                    vars.push(Box::new(a));
                    proof {
                        assert(assigns_view(vars@) =~= assigns_view(old_vars).push(a@));
                        let rest = spec_parse_params(line@, q as int);
                        assert(spec_parse_params(line@, cur as int).1 =~= seq![a@] + rest.1);
                        assert(assigns_view(old_vars) + (seq![a@] + rest.1) =~= assigns_view(
                            vars@,
                        ) + rest.1);
                    }
                    cur = q;
                },
                None => {
                    break ;
                },
            }
        }
        proof {
            assert(spec_parse_params(line@, cur as int).1 =~= Seq::<AssignV>::empty());
            assert(assigns_view(vars@) + Seq::<AssignV>::empty() =~= assigns_view(vars@));
        }
        Some((cur, Decl { name: Box::new(name), var: vars }))
    } else {
        None
    }
}

} // verus!
