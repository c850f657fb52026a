//! Assignment targets: the `"name` token of `MAKE`/`ADDASSIGN` and of
//! formal parameters.  A malformed token becomes an `Error` variant rather
//! than a parse failure.

use vstd::prelude::*;

use crate::structs::{Assign, AssignV, ErrKind};
use crate::text::{
    check_name, copy_slice, scan_avar, scan_avar_chars, scan_word, scan_word_chars, skip_sp,
    skip_spaces, valid_name,
};

verus! {

/// Ghost image of an executable assignment-target parse result.
pub open spec fn pa_view(r: Option<(usize, Assign)>) -> Option<(int, AssignV)> {
    match r {
        Some((q, a)) => Some((q as int, a@)),
        None => None,
    }
}

/// A quoted name token: `"` then characters other than `"` and space.
pub open spec fn spec_parse_var(s: Seq<char>, p: int) -> Option<(int, AssignV)> {
    let p1 = skip_sp(s, p);
    if p1 < s.len() && s[p1] == '"' {
        let q = scan_avar(s, p1 + 1);
        if q == p1 + 1 {
            None
        } else {
            let name = s.subrange(p1 + 1, q);
            let p2 = skip_sp(s, q);
            if valid_name(name) {
                Some((p2, AssignV::Var(name, s.len() - p2, p2 - p)))
            } else {
                Some((p2, AssignV::Error(ErrKind::InvalidName, s.len() - p2, p2 - p)))
            }
        }
    } else {
        None
    }
}

/// Any other word: absorbed as an `UnexpectedAssign` error.
pub open spec fn spec_parse_error(s: Seq<char>, p: int) -> Option<(int, AssignV)> {
    let p1 = skip_sp(s, p);
    let q = scan_word(s, p1);
    if q == p1 {
        None
    } else {
        let p2 = skip_sp(s, q);
        Some((p2, AssignV::Error(ErrKind::UnexpectedAssign, s.len() - p2, p2 - p)))
    }
}

pub open spec fn spec_parse_assign(s: Seq<char>, p: int) -> Option<(int, AssignV)> {
    if spec_parse_var(s, p) is Some {
        spec_parse_var(s, p)
    } else {
        spec_parse_error(s, p)
    }
}

/// The span an assignment target records fits its sentence.
pub proof fn lemma_assign_spans(s: Seq<char>, p: int)
    requires
        0 <= p <= s.len(),
    ensures
        spec_parse_assign(s, p) matches Some((q, a)) ==> p < q <= s.len()
            && crate::structs::assign_span_ok(a, s.len() as int),
{
    crate::text::lemma_skip_sp(s, p);
    let p1 = skip_sp(s, p);
    if p1 < s.len() && s[p1] == '"' {
        crate::text::lemma_scan_avar(s, p1 + 1);
        crate::text::lemma_skip_sp(s, scan_avar(s, p1 + 1));
    }
    crate::text::lemma_scan_word(s, p1);
    crate::text::lemma_skip_sp(s, scan_word(s, p1));
}

pub fn parse_var(line: &Vec<char>, pos: usize) -> (r: Option<(usize, Assign)>)
    requires
        pos <= line@.len(),
    ensures
        pa_view(r) == spec_parse_var(line@, pos as int),
        r matches Some(t) ==> pos < t.0 <= line@.len(),
{
    let p1 = skip_spaces(line, pos);
    if p1 < line.len() && line[p1] == '"' {
        let q = scan_avar_chars(line, p1 + 1);
        if q == p1 + 1 {
            None
        } else {
            let name = copy_slice(line, p1 + 1, q);
            let p2 = skip_spaces(line, q);
            if check_name(&name) {
                Some((p2, Assign::Var(name, line.len() - p2, p2 - pos)))
            } else {
                Some((p2, Assign::Error(ErrKind::InvalidName, line.len() - p2, p2 - pos)))
            }
        }
    } else {
        None
    }
}

pub fn parse_error(line: &Vec<char>, pos: usize) -> (r: Option<(usize, Assign)>)
    requires
        pos <= line@.len(),
    ensures
        pa_view(r) == spec_parse_error(line@, pos as int),
        r matches Some(t) ==> pos < t.0 <= line@.len(),
{
    let p1 = skip_spaces(line, pos);
    let q = scan_word_chars(line, p1);
    if q == p1 {
        None
    } else {
        let p2 = skip_spaces(line, q);
        Some((p2, Assign::Error(ErrKind::UnexpectedAssign, line.len() - p2, p2 - pos)))
    }
}

/// An assignment target: a quoted name, or any word as an error variant;
/// fails only when nothing but spacing remains.
pub fn parse_assign(line: &Vec<char>, pos: usize) -> (r: Option<(usize, Assign)>)
    requires
        pos <= line@.len(),
    ensures
        pa_view(r) == spec_parse_assign(line@, pos as int),
        r matches Some(t) ==> pos < t.0 <= line@.len(),
{
    if let Some(t) = parse_var(line, pos) {
        return Some(t);
    }
    parse_error(line, pos)
}

} // verus!
