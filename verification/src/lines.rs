//! The line tokenizer: splits raw source into logical lines, each carrying
//! its 1-based line number, its indentation depth (leading spaces; the
//! indentation unit is one space, and a tab in an indentation prefix is a
//! `MalformedIndentation` error), and its classified content. Content is
//! `<keyword> is <value>` (a field), `<keyword>:` (a nested block) or a
//! bare phrase (a word). Blank and `#`-comment lines are dropped before
//! indentation accounting; a source with no content lines at all is an
//! `EmptyDocument` error.

use vstd::prelude::*;
use crate::errors::{ErrorV, ParseError};
use crate::strutil::{chars_of, copy_range, string_range};

verus! {

/// The classified content of one logical line.
#[derive(Debug, PartialEq)]
pub enum LineKind {
    Field { keyword: String, value: String },
    Block { keyword: String },
    Word { phrase: String },
}

/// Spec-level picture of a `LineKind`.
pub enum LineKindV {
    Field { keyword: Seq<char>, value: Seq<char> },
    Block { keyword: Seq<char> },
    Word { phrase: Seq<char> },
}

impl View for LineKind {
    type V = LineKindV;

    open spec fn view(&self) -> LineKindV {
        match self {
            LineKind::Field { keyword, value } => LineKindV::Field {
                keyword: keyword@,
                value: value@,
            },
            LineKind::Block { keyword } => LineKindV::Block { keyword: keyword@ },
            LineKind::Word { phrase } => LineKindV::Word { phrase: phrase@ },
        }
    }
}

impl Clone for LineKind {
    fn clone(&self) -> (r: Self)
        ensures
            r == *self,
    {
        match self {
            LineKind::Field { keyword, value } => LineKind::Field {
                keyword: keyword.clone(),
                value: value.clone(),
            },
            LineKind::Block { keyword } => LineKind::Block { keyword: keyword.clone() },
            LineKind::Word { phrase } => LineKind::Word { phrase: phrase.clone() },
        }
    }
}

/// One logical line.
#[derive(Debug, PartialEq)]
pub struct Line {
    pub number: usize,
    pub depth: usize,
    pub kind: LineKind,
}

/// Spec-level picture of a `Line`.
pub struct LineV {
    pub number: nat,
    pub depth: nat,
    pub kind: LineKindV,
}

impl View for Line {
    type V = LineV;

    open spec fn view(&self) -> LineV {
        LineV { number: self.number as nat, depth: self.depth as nat, kind: self.kind@ }
    }
}

impl Clone for Line {
    fn clone(&self) -> (r: Self)
        ensures
            r == *self,
    {
        Line { number: self.number, depth: self.depth, kind: self.kind.clone() }
    }
}

/// The views of a sequence of lines.
pub open spec fn lines_view(s: Seq<Line>) -> Seq<LineV> {
    Seq::new(s.len(), |i: int| s[i]@)
}

/// The position of the newline ending the raw line that starts at `i`, or
/// the end of the source.
pub open spec fn line_end(s: Seq<char>, i: int) -> int
    decreases s.len() - i,
{
    if i < 0 || i >= s.len() {
        s.len() as int
    } else if s[i] == '\n' {
        i
    } else {
        line_end(s, i + 1)
    }
}

/// Finds the end of the raw line starting at `i`.
fn line_end_exec(v: &Vec<char>, i: usize) -> (r: usize)
    requires
        i <= v@.len(),
    ensures
        r as int == line_end(v@, i as int),
        i <= r <= v@.len(),
{
    let n = v.len();
    let mut j: usize = i;
    while j < n
        invariant
            i <= j <= n,
            n == v@.len(),
            line_end(v@, i as int) == line_end(v@, j as int),
        decreases n - j,
    {
        if v[j] == '\n' {
            return j;
        }
        j = j + 1;
    }
    n
}

/// The end of the leading indentation (spaces or tabs) of `c`, from `i`.
pub open spec fn lead_end(c: Seq<char>, i: int) -> int
    decreases c.len() - i,
{
    if i < 0 || i >= c.len() || (c[i] != ' ' && c[i] != '\t') {
        i
    } else {
        lead_end(c, i + 1)
    }
}

/// `lead_end` stays between its start and the end of the line.
pub proof fn lemma_lead_end_bounds(c: Seq<char>, i: int)
    requires
        0 <= i <= c.len(),
    ensures
        i <= lead_end(c, i) <= c.len(),
    decreases c.len() - i,
{
    if i < c.len() && (c[i] == ' ' || c[i] == '\t') {
        lemma_lead_end_bounds(c, i + 1);
    }
}

/// Finds the end of the leading indentation of `raw`.
fn lead_end_exec(raw: &Vec<char>) -> (d: usize)
    ensures
        d as int == lead_end(raw@, 0),
        d <= raw@.len(),
{
    let n = raw.len();
    let mut j: usize = 0;
    while j < n
        invariant
            j <= n,
            n == raw@.len(),
            lead_end(raw@, 0) == lead_end(raw@, j as int),
        decreases n - j,
    {
        let c = raw[j];
        if !(c == ' ' || c == '\t') {
            return j;
        }
        j = j + 1;
    }
    n
}

/// Whether a tab occurs among the first `d` characters of `raw`.
fn has_tab_prefix(raw: &Vec<char>, d: usize) -> (r: bool)
    requires
        d <= raw@.len(),
    ensures
        r == exists|j: int| 0 <= j < d && raw@[j] == '\t',
{
    let mut j: usize = 0;
    while j < d
        invariant
            j <= d <= raw@.len(),
            forall|k: int| 0 <= k < j ==> raw@[k] != '\t',
        decreases d - j,
    {
        if raw[j] == '\t' {
            return true;
        }
        j = j + 1;
    }
    false
}

/// The first position at or after `i` where the field separator ` is `
/// occurs in `c`.
pub open spec fn spec_find_is(c: Seq<char>, i: int) -> Option<int>
    decreases c.len() - i,
{
    if i < 0 || i + 4 > c.len() {
        None
    } else if c[i] == ' ' && c[i + 1] == 'i' && c[i + 2] == 's' && c[i + 3] == ' ' {
        Some(i)
    } else {
        spec_find_is(c, i + 1)
    }
}

/// Finds the first ` is ` separator in `c`.
fn find_is_exec(c: &Vec<char>) -> (r: Option<usize>)
    ensures
        match r {
            Some(j) => spec_find_is(c@, 0) == Some(j as int) && j + 4 <= c@.len(),
            None => spec_find_is(c@, 0) is None,
        },
{
    let n = c.len();
    if n < 4 {
        return None;
    }
    let mut j: usize = 0;
    while j <= n - 4
        invariant
            j <= n - 3,
            n == c@.len(),
            n >= 4,
            spec_find_is(c@, 0) == spec_find_is(c@, j as int),
        decreases n - j,
    {
        if c[j] == ' ' && c[j + 1] == 'i' && c[j + 2] == 's' && c[j + 3] == ' ' {
            return Some(j);
        }
        j = j + 1;
    }
    None
}

/// Classifies dedented line content: a ` is ` separator makes a field, a
/// trailing colon a block introducer, anything else a bare word.
pub open spec fn spec_classify_content(c: Seq<char>) -> LineKindV {
    match spec_find_is(c, 0) {
        Some(j) => LineKindV::Field {
            keyword: c.subrange(0, j),
            value: c.subrange(j + 4, c.len() as int),
        },
        None => if c.len() > 0 && c.last() == ':' {
            LineKindV::Block { keyword: c.subrange(0, c.len() - 1) }
        } else {
            LineKindV::Word { phrase: c }
        },
    }
}

/// Classifies dedented line content.
fn classify_content_exec(c: &Vec<char>) -> (k: LineKind)
    requires
        c@.len() > 0,
    ensures
        k@ == spec_classify_content(c@),
{
    let n = c.len();
    match find_is_exec(c) {
        Some(j) => {
            let keyword = string_range(c, 0, j);
            let value = string_range(c, j + 4, n);
            LineKind::Field { keyword, value }
        },
        None => {
            if c[n - 1] == ':' {
                LineKind::Block { keyword: string_range(c, 0, n - 1) }
            } else {
                let phrase = string_range(c, 0, n);
                assert(c@.subrange(0, n as int) =~= c@);
                LineKind::Word { phrase }
            }
        },
    }
}

/// Classifies one raw source line: dropped (blank or comment), malformed
/// indentation, or a logical line with its depth and content.
pub open spec fn spec_classify_line(raw: Seq<char>, n: nat) -> Option<Result<LineV, ErrorV>> {
    let d = lead_end(raw, 0);
    if d >= raw.len() {
        None
    } else if raw[d] == '#' {
        None
    } else if exists|j: int| 0 <= j < d && raw[j] == '\t' {
        Some(Err(ErrorV::MalformedIndentation { line: n }))
    } else {
        Some(
            Ok(
                LineV {
                    number: n,
                    depth: d as nat,
                    kind: spec_classify_content(raw.subrange(d, raw.len() as int)),
                },
            ),
        )
    }
}

/// The logical lines of the source from position `i`, numbering raw lines
/// from `lineno`; the first malformed line aborts the scan.
pub open spec fn spec_logical_lines(s: Seq<char>, i: int, lineno: nat) -> Result<
    Seq<LineV>,
    ErrorV,
>
    decreases s.len() - i,
{
    if i < 0 || i >= s.len() {
        Ok(Seq::empty())
    } else {
        let e = line_end(s, i);
        let next0 = if e < i {
            i + 1
        } else {
            e + 1
        };
        let next = if next0 > s.len() {
            s.len() as int
        } else {
            next0
        };
        match spec_classify_line(s.subrange(i, e), lineno) {
            None => spec_logical_lines(s, next, lineno + 1),
            Some(Err(err)) => Err(err),
            Some(Ok(lv)) => match spec_logical_lines(s, next, lineno + 1) {
                Ok(rest) => Ok(seq![lv] + rest),
                Err(err) => Err(err),
            },
        }
    }
}

/// The tokenizer's result on a whole source: its logical lines, or the
/// error that stops it, with an empty line list rejected as an empty
/// document.
pub open spec fn spec_tokenize(s: Seq<char>) -> Result<Seq<LineV>, ErrorV> {
    match spec_logical_lines(s, 0, 1) {
        Ok(ls) => if ls.len() == 0 {
            Err(ErrorV::EmptyDocument)
        } else {
            Ok(ls)
        },
        Err(e) => Err(e),
    }
}

/// Splits raw source into its logical lines.
pub fn tokenize(source: &str) -> (r: Result<Vec<Line>, ParseError>)
    requires
        source@.len() < usize::MAX,
    ensures
        r is Ok ==> spec_tokenize(source@) == Ok::<Seq<LineV>, ErrorV>(lines_view(r->Ok_0@)),
        r is Err ==> spec_tokenize(source@) == Err::<Seq<LineV>, ErrorV>(r->Err_0@),
{
    let v = chars_of(source);
    let n = v.len();
    let ghost s = source@;
    let mut acc: Vec<Line> = Vec::new();
    let mut i: usize = 0;
    let mut lineno: usize = 1;
    while i < n
        invariant
            s == source@,
            v@ == s,
            n == s.len(),
            n < usize::MAX,
            i <= n,
            1 <= lineno,
            lineno <= i + 1,
            match spec_logical_lines(s, i as int, lineno as nat) {
                Ok(rest) => spec_logical_lines(s, 0, 1) == Ok::<Seq<LineV>, ErrorV>(
                    lines_view(acc@) + rest,
                ),
                Err(e) => spec_logical_lines(s, 0, 1) == Err::<Seq<LineV>, ErrorV>(e),
            },
        decreases n - i,
    {
        let e = line_end_exec(&v, i);
        let next_i: usize = if e < n {
            e + 1
        } else {
            n
        };
        let raw = copy_range(&v, i, e);
        let ghost rawv = s.subrange(i as int, e as int);
        let ghost cur = spec_logical_lines(s, i as int, lineno as nat);
        let ghost rest_all = spec_logical_lines(s, next_i as int, (lineno + 1) as nat);
        proof {
            lemma_lead_end_bounds(rawv, 0);
            if e == n {
                // the next start position is at the end of the source
                assert(spec_logical_lines(s, n as int, (lineno + 1) as nat) == Ok::<
                    Seq<LineV>,
                    ErrorV,
                >(Seq::empty()));
            }
        }
        let d = lead_end_exec(&raw);
        if d == raw.len() {
            // blank line: dropped
            proof {
                assert(spec_classify_line(rawv, lineno as nat) is None);
                assert(cur == rest_all);
            }
        } else if raw[d] == '#' {
            // comment line: dropped
            proof {
                assert(spec_classify_line(rawv, lineno as nat) is None);
                assert(cur == rest_all);
            }
        } else if has_tab_prefix(&raw, d) {
            proof {
                assert(spec_classify_line(rawv, lineno as nat) == Some(
                    Err::<LineV, ErrorV>(ErrorV::MalformedIndentation { line: lineno as nat }),
                ));
                assert(cur == Err::<Seq<LineV>, ErrorV>(
                    ErrorV::MalformedIndentation { line: lineno as nat },
                ));
                assert(spec_logical_lines(s, 0, 1) == Err::<Seq<LineV>, ErrorV>(
                    ErrorV::MalformedIndentation { line: lineno as nat },
                ));
                assert(spec_tokenize(s) == Err::<Seq<LineV>, ErrorV>(
                    ErrorV::MalformedIndentation { line: lineno as nat },
                ));
            }
            return Err(ParseError::MalformedIndentation { line: lineno });
        } else {
            let m = raw.len();
            let content = copy_range(&raw, d, m);
            let kind = classify_content_exec(&content);
            let line = Line { number: lineno, depth: d, kind };
            proof {
                assert(rawv.subrange(d as int, rawv.len() as int) =~= content@);
                assert(spec_classify_line(rawv, lineno as nat) == Some(
                    Ok::<LineV, ErrorV>(line@),
                ));
                match rest_all {
                    Ok(rest) => {
                        assert(cur == Ok::<Seq<LineV>, ErrorV>(seq![line@] + rest));
                        assert(lines_view(acc@.push(line)) =~= lines_view(acc@).push(line@));
                        assert(lines_view(acc@) + (seq![line@] + rest) =~= lines_view(
                            acc@,
                        ).push(line@) + rest);
                    },
                    Err(err) => {
                        assert(cur == Err::<Seq<LineV>, ErrorV>(err));
                    },
                }
            }
            acc.push(line);
        }
        i = next_i;
        lineno = lineno + 1;
    }
    if acc.len() == 0 {
        assert(lines_view(acc@) =~= Seq::<LineV>::empty());
        return Err(ParseError::EmptyDocument);
    }
    proof {
        assert(lines_view(acc@) + Seq::<LineV>::empty() =~= lines_view(acc@));
    }
    Ok(acc)
}

} // verus!
