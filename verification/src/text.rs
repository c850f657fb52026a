//! Character-level utilities shared by the parser, the validator and the
//! emitters: space skipping, trimming, token scanning, identifier checking,
//! numeric-literal checking, and building of character vectors.

use vstd::prelude::*;

verus! {

/// A character that the token grammar treats as inline spacing.
pub open spec fn is_sp(c: char) -> bool {
    c == ' ' || c == '\t'
}

/// A character that line trimming removes at either end of a sentence.
pub open spec fn is_ws(c: char) -> bool {
    is_sp(c) || c as u32 == 10 || c as u32 == 13 || c as u32 == 12
}

pub fn is_sp_char(c: char) -> (r: bool)
    ensures
        r == is_sp(c),
{
    c == ' ' || c == '\t'
}

pub fn is_ws_char(c: char) -> (r: bool)
    ensures
        r == is_ws(c),
{
    let u = c as u32;
    c == ' ' || c == '\t' || u == 10 || u == 13 || u == 12
}

/// First position at or after `p` that does not hold inline spacing.
pub open spec fn skip_sp(s: Seq<char>, p: int) -> int
    decreases s.len() - p when 0 <= p <= s.len()
{
    if p < s.len() && is_sp(s[p]) {
        skip_sp(s, p + 1)
    } else {
        p
    }
}

pub proof fn lemma_skip_sp(s: Seq<char>, p: int)
    requires
        0 <= p <= s.len(),
    ensures
        p <= skip_sp(s, p) <= s.len(),
        forall|i: int| p <= i < skip_sp(s, p) ==> is_sp(s[i]),
        skip_sp(s, p) < s.len() ==> !is_sp(s[skip_sp(s, p)]),
    decreases s.len() - p,
{
    if p < s.len() && is_sp(s[p]) {
        lemma_skip_sp(s, p + 1);
    }
}

pub fn skip_spaces(line: &Vec<char>, pos: usize) -> (r: usize)
    requires
        pos <= line@.len(),
    ensures
        r == skip_sp(line@, pos as int),
        pos <= r <= line@.len(),
{
    let mut i = pos;
    while i < line.len() && is_sp_char(line[i])
        invariant
            pos <= i <= line@.len(),
            skip_sp(line@, pos as int) == skip_sp(line@, i as int),
        decreases line@.len() - i,
    {
        i += 1;
    }
    i
}

/// A character the numeric-literal scanner accepts: a digit, `.` or `-`.
pub open spec fn is_num_char(c: char) -> bool {
    (48 <= c as u32 <= 57) || c == '.' || c == '-'
}

pub fn is_num_char_at(c: char) -> (r: bool)
    ensures
        r == is_num_char(c),
{
    let u = c as u32;
    (48 <= u && u <= 57) || c == '.' || c == '-'
}

/// A character allowed inside a `:variable` reference token.
pub open spec fn is_var_char(c: char) -> bool {
    c != ':' && c != ' '
}

/// A character allowed inside a bare word token.
pub open spec fn is_word_char(c: char) -> bool {
    c != ' '
}

/// A character allowed inside an unrecognized-expression token.
pub open spec fn is_expr_word_char(c: char) -> bool {
    c != ' ' && c != '['
}

/// First position at or after `p` whose character fails `which`-selected
/// class; `which` picks one of the three scanner classes above.
pub open spec fn scan_num(s: Seq<char>, p: int) -> int
    decreases s.len() - p when 0 <= p <= s.len()
{
    if p < s.len() && is_num_char(s[p]) {
        scan_num(s, p + 1)
    } else {
        p
    }
}

pub proof fn lemma_scan_num(s: Seq<char>, p: int)
    requires
        0 <= p <= s.len(),
    ensures
        p <= scan_num(s, p) <= s.len(),
        forall|i: int| p <= i < scan_num(s, p) ==> is_num_char(s[i]),
        scan_num(s, p) < s.len() ==> !is_num_char(s[scan_num(s, p)]),
    decreases s.len() - p,
{
    if p < s.len() && is_num_char(s[p]) {
        lemma_scan_num(s, p + 1);
    }
}

pub fn scan_num_chars(line: &Vec<char>, pos: usize) -> (r: usize)
    requires
        pos <= line@.len(),
    ensures
        r == scan_num(line@, pos as int),
        pos <= r <= line@.len(),
{
    let mut i = pos;
    while i < line.len() && is_num_char_at(line[i])
        invariant
            pos <= i <= line@.len(),
            scan_num(line@, pos as int) == scan_num(line@, i as int),
        decreases line@.len() - i,
    {
        i += 1;
    }
    i
}

pub open spec fn scan_var(s: Seq<char>, p: int) -> int
    decreases s.len() - p when 0 <= p <= s.len()
{
    if p < s.len() && is_var_char(s[p]) {
        scan_var(s, p + 1)
    } else {
        p
    }
}

pub proof fn lemma_scan_var(s: Seq<char>, p: int)
    requires
        0 <= p <= s.len(),
    ensures
        p <= scan_var(s, p) <= s.len(),
        forall|i: int| p <= i < scan_var(s, p) ==> is_var_char(s[i]),
        scan_var(s, p) < s.len() ==> !is_var_char(s[scan_var(s, p)]),
    decreases s.len() - p,
{
    if p < s.len() && is_var_char(s[p]) {
        lemma_scan_var(s, p + 1);
    }
}

pub fn scan_var_chars(line: &Vec<char>, pos: usize) -> (r: usize)
    requires
        pos <= line@.len(),
    ensures
        r == scan_var(line@, pos as int),
        pos <= r <= line@.len(),
{
    let mut i = pos;
    while i < line.len() && line[i] != ':' && line[i] != ' '
        invariant
            pos <= i <= line@.len(),
            scan_var(line@, pos as int) == scan_var(line@, i as int),
        decreases line@.len() - i,
    {
        i += 1;
    }
    i
}

pub open spec fn scan_word(s: Seq<char>, p: int) -> int
    decreases s.len() - p when 0 <= p <= s.len()
{
    if p < s.len() && is_word_char(s[p]) {
        scan_word(s, p + 1)
    } else {
        p
    }
}

pub proof fn lemma_scan_word(s: Seq<char>, p: int)
    requires
        0 <= p <= s.len(),
    ensures
        p <= scan_word(s, p) <= s.len(),
        forall|i: int| p <= i < scan_word(s, p) ==> is_word_char(s[i]),
        scan_word(s, p) < s.len() ==> !is_word_char(s[scan_word(s, p)]),
    decreases s.len() - p,
{
    if p < s.len() && is_word_char(s[p]) {
        lemma_scan_word(s, p + 1);
    }
}

pub fn scan_word_chars(line: &Vec<char>, pos: usize) -> (r: usize)
    requires
        pos <= line@.len(),
    ensures
        r == scan_word(line@, pos as int),
        pos <= r <= line@.len(),
{
    let mut i = pos;
    while i < line.len() && line[i] != ' '
        invariant
            pos <= i <= line@.len(),
            scan_word(line@, pos as int) == scan_word(line@, i as int),
        decreases line@.len() - i,
    {
        i += 1;
    }
    i
}

pub open spec fn scan_expr_word(s: Seq<char>, p: int) -> int
    decreases s.len() - p when 0 <= p <= s.len()
{
    if p < s.len() && is_expr_word_char(s[p]) {
        scan_expr_word(s, p + 1)
    } else {
        p
    }
}

pub proof fn lemma_scan_expr_word(s: Seq<char>, p: int)
    requires
        0 <= p <= s.len(),
    ensures
        p <= scan_expr_word(s, p) <= s.len(),
        forall|i: int| p <= i < scan_expr_word(s, p) ==> is_expr_word_char(s[i]),
        scan_expr_word(s, p) < s.len() ==> !is_expr_word_char(s[scan_expr_word(s, p)]),
    decreases s.len() - p,
{
    if p < s.len() && is_expr_word_char(s[p]) {
        lemma_scan_expr_word(s, p + 1);
    }
}

pub fn scan_expr_word_chars(line: &Vec<char>, pos: usize) -> (r: usize)
    requires
        pos <= line@.len(),
    ensures
        r == scan_expr_word(line@, pos as int),
        pos <= r <= line@.len(),
{
    let mut i = pos;
    while i < line.len() && line[i] != ' ' && line[i] != '['
        invariant
            pos <= i <= line@.len(),
            scan_expr_word(line@, pos as int) == scan_expr_word(line@, i as int),
        decreases line@.len() - i,
    {
        i += 1;
    }
    i
}

/// A character allowed inside a quoted assignment-target token.
pub open spec fn is_avar_char(c: char) -> bool {
    c != '"' && c != ' '
}

pub open spec fn scan_avar(s: Seq<char>, p: int) -> int
    decreases s.len() - p when 0 <= p <= s.len()
{
    if p < s.len() && is_avar_char(s[p]) {
        scan_avar(s, p + 1)
    } else {
        p
    }
}

pub proof fn lemma_scan_avar(s: Seq<char>, p: int)
    requires
        0 <= p <= s.len(),
    ensures
        p <= scan_avar(s, p) <= s.len(),
        forall|i: int| p <= i < scan_avar(s, p) ==> is_avar_char(s[i]),
        scan_avar(s, p) < s.len() ==> !is_avar_char(s[scan_avar(s, p)]),
    decreases s.len() - p,
{
    if p < s.len() && is_avar_char(s[p]) {
        lemma_scan_avar(s, p + 1);
    }
}

pub fn scan_avar_chars(line: &Vec<char>, pos: usize) -> (r: usize)
    requires
        pos <= line@.len(),
    ensures
        r == scan_avar(line@, pos as int),
        pos <= r <= line@.len(),
{
    let mut i = pos;
    while i < line.len() && line[i] != '"' && line[i] != ' '
        invariant
            pos <= i <= line@.len(),
            scan_avar(line@, pos as int) == scan_avar(line@, i as int),
        decreases line@.len() - i,
    {
        i += 1;
    }
    i
}

/// First position from the start that is not trimmable whitespace.
pub open spec fn ws_lo(s: Seq<char>, p: int) -> int
    decreases s.len() - p when 0 <= p <= s.len()
{
    if p < s.len() && is_ws(s[p]) {
        ws_lo(s, p + 1)
    } else {
        p
    }
}

/// One past the last position before `p` that is not trimmable whitespace.
pub open spec fn ws_hi(s: Seq<char>, p: int) -> int
    decreases p when 0 <= p <= s.len()
{
    if p > 0 && is_ws(s[p - 1]) {
        ws_hi(s, p - 1)
    } else {
        p
    }
}

/// The sentence with trimmable whitespace removed from both ends.
pub open spec fn trimmed(s: Seq<char>) -> Seq<char> {
    let lo = ws_lo(s, 0);
    let hi = ws_hi(s, s.len() as int);
    if lo >= hi {
        Seq::empty()
    } else {
        s.subrange(lo, hi)
    }
}

pub proof fn lemma_ws_lo(s: Seq<char>, p: int)
    requires
        0 <= p <= s.len(),
    ensures
        p <= ws_lo(s, p) <= s.len(),
        forall|i: int| p <= i < ws_lo(s, p) ==> is_ws(s[i]),
        ws_lo(s, p) < s.len() ==> !is_ws(s[ws_lo(s, p)]),
    decreases s.len() - p,
{
    if p < s.len() && is_ws(s[p]) {
        lemma_ws_lo(s, p + 1);
    }
}

pub proof fn lemma_ws_hi(s: Seq<char>, p: int)
    requires
        0 <= p <= s.len(),
    ensures
        0 <= ws_hi(s, p) <= p,
        forall|i: int| ws_hi(s, p) <= i < p ==> is_ws(s[i]),
        ws_hi(s, p) > 0 ==> !is_ws(s[ws_hi(s, p) - 1]),
    decreases p,
{
    if p > 0 && is_ws(s[p - 1]) {
        lemma_ws_hi(s, p - 1);
    }
}

/// Bounds of the trimmed portion of a line, as executable indices.
pub fn trim_bounds(line: &Vec<char>) -> (r: (usize, usize))
    ensures
        r.0 == ws_lo(line@, 0),
        r.1 == ws_hi(line@, line@.len() as int),
        0 <= r.0 <= line@.len(),
        0 <= r.1 <= line@.len(),
{
    let mut lo: usize = 0;
    while lo < line.len() && is_ws_char(line[lo])
        invariant
            0 <= lo <= line@.len(),
            ws_lo(line@, 0) == ws_lo(line@, lo as int),
        decreases line@.len() - lo,
    {
        lo += 1;
    }
    let mut hi: usize = line.len();
    while hi > 0 && is_ws_char(line[hi - 1])
        invariant
            0 <= hi <= line@.len(),
            ws_hi(line@, line@.len() as int) == ws_hi(line@, hi as int),
        decreases hi,
    {
        hi -= 1;
    }
    (lo, hi)
}

/// Whether `pre` occurs at position `pos` of `s`.
pub open spec fn tag_matches(s: Seq<char>, pos: int, pre: Seq<char>) -> bool {
    pos + pre.len() <= s.len() && s.subrange(pos, pos + pre.len()) == pre
}

/// Tests a literal tag at a position of the line.
pub fn tag_at(line: &Vec<char>, pos: usize, tag: &str) -> (r: bool)
    requires
        pos <= line@.len(),
    ensures
        r == tag_matches(line@, pos as int, tag@),
{
    let n = tag.unicode_len();
    if n > line.len() - pos {
        return false;
    }
    let mut i: usize = 0;
    while i < n
        invariant
            0 <= i <= n,
            n == tag@.len(),
            pos + n <= line@.len(),
            line@.len() <= usize::MAX,
            forall|j: int| 0 <= j < i ==> line@[pos + j] == tag@[j],
        decreases n - i,
    {
        if line[pos + i] != tag.get_char(i) {
            assert(line@.subrange(pos as int, pos + n) != tag@) by {
                assert(line@.subrange(pos as int, pos + n)[i as int] != tag@[i as int]);
            }
            return false;
        }
        i += 1;
    }
    proof {
        assert(line@.subrange(pos as int, pos + n) =~= tag@);
    }
    true
}

/// Whether the slice `[lo, hi)` of `s` equals `t` exactly.
pub open spec fn slice_is(s: Seq<char>, lo: int, hi: int, t: Seq<char>) -> bool {
    hi - lo == t.len() && tag_matches(s, lo, t)
}

pub fn slice_eq(line: &Vec<char>, lo: usize, hi: usize, t: &str) -> (r: bool)
    requires
        lo <= hi <= line@.len(),
    ensures
        r == slice_is(line@, lo as int, hi as int, t@),
{
    if hi - lo != t.unicode_len() {
        return false;
    }
    tag_at(line, lo, t)
}

/// Appends a string literal to a character vector.
pub fn push_lit(out: &mut Vec<char>, s: &str)
    ensures
        final(out)@ == old(out)@ + s@,
{
    let n = s.unicode_len();
    let mut i: usize = 0;
    while i < n
        invariant
            0 <= i <= n,
            n == s@.len(),
            out@ == old(out)@ + s@.subrange(0, i as int),
        decreases n - i,
    {
        let c = s.get_char(i);
        out.push(c);
        proof {
            assert(out@ =~= old(out)@ + s@.subrange(0, i + 1 as int));
        }
        i += 1;
    }
    proof {
        assert(out@ =~= old(out)@ + s@);
    }
}

/// Appends one character vector to another.
pub fn push_chars(out: &mut Vec<char>, s: &Vec<char>)
    ensures
        final(out)@ == old(out)@ + s@,
{
    let mut i: usize = 0;
    while i < s.len()
        invariant
            0 <= i <= s@.len(),
            out@ == old(out)@ + s@.subrange(0, i as int),
        decreases s@.len() - i,
    {
        out.push(s[i]);
        proof {
            assert(out@ =~= old(out)@ + s@.subrange(0, i + 1 as int));
        }
        i += 1;
    }
    proof {
        assert(out@ =~= old(out)@ + s@);
    }
}

/// Copies a slice `[lo, hi)` of a line into a fresh character vector.
pub fn copy_slice(line: &Vec<char>, lo: usize, hi: usize) -> (r: Vec<char>)
    requires
        lo <= hi <= line@.len(),
    ensures
        r@ == line@.subrange(lo as int, hi as int),
{
    let mut out: Vec<char> = Vec::new();
    let mut i = lo;
    while i < hi
        invariant
            lo <= i <= hi <= line@.len(),
            out@ == line@.subrange(lo as int, i as int),
        decreases hi - i,
    {
        out.push(line[i]);
        proof {
            assert(out@ =~= line@.subrange(lo as int, i + 1 as int));
        }
        i += 1;
    }
    out
}

/// Equality of two character vectors.
pub fn chars_eq(a: &Vec<char>, b: &Vec<char>) -> (r: bool)
    ensures
        r <==> a@ == b@,
{
    if a.len() != b.len() {
        return false;
    }
    let mut i: usize = 0;
    while i < a.len()
        invariant
            0 <= i <= a@.len(),
            a@.len() == b@.len(),
            forall|j: int| 0 <= j < i ==> a@[j] == b@[j],
        decreases a@.len() - i,
    {
        if a[i] != b[i] {
            assert(a@ != b@);
            return false;
        }
        i += 1;
    }
    proof {
        assert(a@ =~= b@);
    }
    true
}

/// A character that may start an identifier: a letter or an underscore.
pub open spec fn is_name_start(c: char) -> bool {
    (65 <= c as u32 <= 90) || (97 <= c as u32 <= 122) || c == '_'
}

/// A character that may continue an identifier: a letter, digit or underscore.
pub open spec fn is_name_char(c: char) -> bool {
    is_name_start(c) || (48 <= c as u32 <= 57)
}

/// The lexical rule for function and variable names: a letter or underscore
/// followed by letters, digits and underscores.
pub open spec fn valid_name(s: Seq<char>) -> bool {
    &&& s.len() > 0
    &&& is_name_start(s[0])
    &&& forall|i: int| 1 <= i < s.len() ==> is_name_char(#[trigger] s[i])
}

/// Accepts or rejects a raw name token against the fixed lexical rule.
pub fn check_name(input: &Vec<char>) -> (r: bool)
    ensures
        r == valid_name(input@),
{
    if input.len() == 0 {
        return false;
    }
    let c0 = input[0];
    let u0 = c0 as u32;
    if !((65 <= u0 && u0 <= 90) || (97 <= u0 && u0 <= 122) || c0 == '_') {
        return false;
    }
    let mut i: usize = 1;
    while i < input.len()
        invariant
            1 <= i <= input@.len(),
            is_name_start(input@[0]),
            forall|j: int| 1 <= j < i ==> is_name_char(#[trigger] input@[j]),
        decreases input@.len() - i,
    {
        let c = input[i];
        let u = c as u32;
        if !((65 <= u && u <= 90) || (97 <= u && u <= 122) || c == '_' || (48 <= u && u <= 57)) {
            return false;
        }
        i += 1;
    }
    true
}

/// Number of `.` characters in a token.
pub open spec fn dot_count(s: Seq<char>) -> int
    decreases s.len(),
{
    if s.len() == 0 {
        0
    } else {
        dot_count(s.drop_last()) + if s.last() == '.' {
            1int
        } else {
            0int
        }
    }
}

/// Whether a token holds at least one decimal digit.
pub open spec fn has_digit(s: Seq<char>) -> bool {
    exists|i: int| 0 <= i < s.len() && 48 <= #[trigger] s[i] as u32 <= 57
}

/// Whether a token holds a minus sign.
pub open spec fn has_minus(s: Seq<char>) -> bool {
    exists|i: int| 0 <= i < s.len() && #[trigger] s[i] == '-'
}

/// The numeric-literal rule matched against by quoted numbers, over the
/// scanner's alphabet of digits, `.` and `-`: an optional leading minus,
/// then digits with at most one point and at least one digit, and no
/// further minus sign.
pub open spec fn valid_number(s: Seq<char>) -> bool {
    let t = if s.len() > 0 && s[0] == '-' {
        s.subrange(1, s.len() as int)
    } else {
        s
    };
    &&& t.len() > 0
    &&& !has_minus(t)
    &&& dot_count(t) <= 1
    &&& has_digit(t)
}

pub proof fn lemma_dot_count_snoc(s: Seq<char>, i: int)
    requires
        0 <= i < s.len(),
    ensures
        dot_count(s.subrange(0, i + 1)) == dot_count(s.subrange(0, i)) + if s[i] == '.' {
            1int
        } else {
            0int
        },
        has_digit(s.subrange(0, i + 1)) == (has_digit(s.subrange(0, i)) || 48 <= s[i] as u32
            <= 57),
        has_minus(s.subrange(0, i + 1)) == (has_minus(s.subrange(0, i)) || s[i] == '-'),
{
    let a = s.subrange(0, i);
    let b = s.subrange(0, i + 1);
    assert(b.drop_last() =~= a);
    assert(b.last() == s[i]);
    assert(forall|j: int| 0 <= j < i ==> a[j] == s[j] && #[trigger] b[j] == s[j]);
    assert(b[i] == s[i]);
    if has_digit(a) {
        let j = choose|j: int| 0 <= j < a.len() && 48 <= #[trigger] a[j] as u32 <= 57;
        assert(48 <= b[j] as u32 <= 57);
    }
    if 48 <= s[i] as u32 <= 57 {
        assert(48 <= b[i] as u32 <= 57);
    }
    if has_digit(b) && !(48 <= s[i] as u32 <= 57) {
        let j = choose|j: int| 0 <= j < b.len() && 48 <= #[trigger] b[j] as u32 <= 57;
        assert(j < i);
        assert(48 <= a[j] as u32 <= 57);
    }
    if has_minus(a) {
        let j = choose|j: int| 0 <= j < a.len() && #[trigger] a[j] == '-';
        assert(b[j] == '-');
    }
    if s[i] == '-' {
        assert(b[i] == '-');
    }
    if has_minus(b) && s[i] != '-' {
        let j = choose|j: int| 0 <= j < b.len() && #[trigger] b[j] == '-';
        assert(j < i);
        assert(a[j] == '-');
    }
}

/// Decides the numeric-literal rule on a token.
pub fn check_number(input: &Vec<char>) -> (r: bool)
    ensures
        r == valid_number(input@),
{
    let n = input.len();
    let start: usize = if n > 0 && input[0] == '-' {
        1
    } else {
        0
    };
    let ghost t = if input@.len() > 0 && input@[0] == '-' {
        input@.subrange(1, input@.len() as int)
    } else {
        input@
    };
    proof {
        assert(t =~= input@.subrange(start as int, input@.len() as int));
    }
    let mut i = start;
    let mut dots: usize = 0;
    let mut digit = false;
    let mut minus = false;
    while i < n
        invariant
            start <= i <= n,
            n == input@.len(),
            start <= 1,
            t == input@.subrange(start as int, input@.len() as int),
            dots == dot_count(t.subrange(0, i - start)),
            dots <= i,
            digit == has_digit(t.subrange(0, i - start)),
            minus == has_minus(t.subrange(0, i - start)),
        decreases n - i,
    {
        let c = input[i];
        proof {
            assert(t[i - start] == input@[i as int]);
            lemma_dot_count_snoc(t, i - start);
        }
        if c == '.' {
            dots += 1;
        } else if c == '-' {
            minus = true;
        } else {
            let u = c as u32;
            if 48 <= u && u <= 57 {
                digit = true;
            }
        }
        i += 1;
    }
    proof {
        assert(t.subrange(0, i - start) =~= t);
    }
    n > start && !minus && dots <= 1 && digit
}


/// The decimal digit character for one digit value.
pub open spec fn dec_digit(d: int) -> char {
    if d == 0 {
        '0'
    } else if d == 1 {
        '1'
    } else if d == 2 {
        '2'
    } else if d == 3 {
        '3'
    } else if d == 4 {
        '4'
    } else if d == 5 {
        '5'
    } else if d == 6 {
        '6'
    } else if d == 7 {
        '7'
    } else if d == 8 {
        '8'
    } else {
        '9'
    }
}

/// The decimal text of a nonnegative number.
pub open spec fn spec_dec(n: int) -> Seq<char>
    decreases n when n >= 0
{
    if n < 10 {
        seq![dec_digit(n)]
    } else {
        spec_dec(n / 10).push(dec_digit(n % 10))
    }
}

fn digit_char(d: usize) -> (c: char)
    requires
        d < 10,
    ensures
        c == dec_digit(d as int),
{
    if d == 0 {
        '0'
    } else if d == 1 {
        '1'
    } else if d == 2 {
        '2'
    } else if d == 3 {
        '3'
    } else if d == 4 {
        '4'
    } else if d == 5 {
        '5'
    } else if d == 6 {
        '6'
    } else if d == 7 {
        '7'
    } else if d == 8 {
        '8'
    } else {
        '9'
    }
}

/// Writes a number in decimal.
pub fn usize_chars(n: usize) -> (r: Vec<char>)
    ensures
        r@ == spec_dec(n as int),
    decreases n,
{
    if n < 10 {
        let mut v: Vec<char> = Vec::new();
        v.push(digit_char(n));
        proof {
            assert(v@ =~= seq![dec_digit(n as int)]);
        }
        v
    } else {
        let mut v = usize_chars(n / 10);
        v.push(digit_char(n % 10));
        v
    }
}

} // verus!
