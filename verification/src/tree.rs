//! The indentation tree builder: arranges the logical lines into a forest.
//! A node's children are the maximal contiguous run of following lines with
//! strictly greater indentation; the lines of one sibling group share one
//! depth, so a line that dedents without landing exactly on an enclosing
//! group's depth is a `DedentMismatch` error.

use vstd::prelude::*;
use crate::errors::{ErrorV, ParseError};
use crate::lines::{lines_view, Line, LineV};

verus! {

broadcast use {
    vstd::std_specs::vec::axiom_vec_decreases_to_view,
    vstd::seq::axiom_seq_index_decreases,
    vstd::seq::axiom_seq_subrange_decreases,
};

/// One node of the indentation tree.
#[derive(Debug, PartialEq)]
pub struct Node {
    pub line: Line,
    pub children: Vec<Node>,
}

/// Spec-level picture of a `Node`.
pub struct NodeV {
    pub line: LineV,
    pub children: Seq<NodeV>,
}

/// The views of a sequence of nodes.
pub open spec fn nodes_view(s: Seq<Node>) -> Seq<NodeV>
    decreases s,
{
    if s.len() == 0 {
        Seq::empty()
    } else {
        seq![node_view(s[0])] + nodes_view(s.subrange(1, s.len() as int))
    }
}

/// The view of a single node.
pub open spec fn node_view(n: Node) -> NodeV
    decreases n,
{
    NodeV { line: n.line@, children: nodes_view(n.children@) }
}

impl View for Node {
    type V = NodeV;

    open spec fn view(&self) -> NodeV {
        node_view(*self)
    }
}

/// `nodes_view` maps `node_view` over the sequence.
pub proof fn lemma_nodes_view_props(s: Seq<Node>)
    ensures
        nodes_view(s).len() == s.len(),
        forall|i: int| 0 <= i < s.len() ==> nodes_view(s)[i] == node_view(s[i]),
    decreases s.len(),
{
    if s.len() > 0 {
        lemma_nodes_view_props(s.subrange(1, s.len() as int));
    }
}

/// `nodes_view` distributes over concatenation.
pub proof fn lemma_nodes_view_concat(a: Seq<Node>, b: Seq<Node>)
    ensures
        nodes_view(a + b) == nodes_view(a) + nodes_view(b),
{
    lemma_nodes_view_props(a);
    lemma_nodes_view_props(b);
    lemma_nodes_view_props(a + b);
    assert(nodes_view(a + b) =~= nodes_view(a) + nodes_view(b));
}

/// The line number at position `j`, or zero out of range.
pub open spec fn line_num_at(lines: Seq<LineV>, j: int) -> nat {
    if 0 <= j < lines.len() {
        lines[j].number
    } else {
        0
    }
}

/// Builds the sibling group at depth `d` that starts at line `i`: the
/// nodes of the group, and the position of the first line after it, which
/// is the first line whose depth falls below `d`. A line that dedents to a
/// depth strictly between `d` and its enclosing child group's depth is a
/// `DedentMismatch`.
pub open spec fn spec_build_group(lines: Seq<LineV>, i: int, d: nat) -> Result<
    (Seq<NodeV>, int),
    ErrorV,
>
    decreases lines.len() - i,
{
    if i < 0 || i >= lines.len() {
        Ok((Seq::empty(), i))
    } else {
        let head = lines[i];
        if i + 1 < lines.len() && lines[i + 1].depth > d {
            match spec_build_group(lines, i + 1, lines[i + 1].depth) {
                Err(e) => Err(e),
                Ok((cs, j)) => {
                    let node = NodeV { line: head, children: cs };
                    if j <= i + 1 || j > lines.len() {
                        // a group always consumes at least one line, so
                        // this branch is never reached
                        Ok((seq![node], j))
                    } else if j < lines.len() && lines[j].depth > d {
                        Err(ErrorV::DedentMismatch { line: line_num_at(lines, j) })
                    } else if j < lines.len() && lines[j].depth == d {
                        match spec_build_group(lines, j, d) {
                            Err(e) => Err(e),
                            Ok((sibs, k)) => Ok((seq![node] + sibs, k)),
                        }
                    } else {
                        Ok((seq![node], j))
                    }
                },
            }
        } else {
            let node = NodeV { line: head, children: Seq::empty() };
            if i + 1 < lines.len() && lines[i + 1].depth == d {
                match spec_build_group(lines, i + 1, d) {
                    Err(e) => Err(e),
                    Ok((sibs, k)) => Ok((seq![node] + sibs, k)),
                }
            } else {
                Ok((seq![node], i + 1))
            }
        }
    }
}

/// A successfully built group holds at least one node and stops after its
/// starting line, within the source.
pub proof fn lemma_build_group_bounds(lines: Seq<LineV>, i: int, d: nat)
    requires
        0 <= i < lines.len(),
    ensures
        spec_build_group(lines, i, d) matches Ok(p) ==> i + 1 <= p.1 <= lines.len() && p.0.len()
            >= 1,
    decreases lines.len() - i,
{
    if i + 1 < lines.len() && lines[i + 1].depth > d {
        lemma_build_group_bounds(lines, i + 1, lines[i + 1].depth);
        match spec_build_group(lines, i + 1, lines[i + 1].depth) {
            Err(_) => {},
            Ok((cs, j)) => {
                if i + 1 < j <= lines.len() && j < lines.len() && lines[j].depth == d {
                    lemma_build_group_bounds(lines, j, d);
                }
            },
        }
    } else {
        if i + 1 < lines.len() && lines[i + 1].depth == d {
            lemma_build_group_bounds(lines, i + 1, d);
        }
    }
}

/// Builds the sibling group at depth `d` starting at line `i`.
pub fn build_group(lines: &Vec<Line>, i: usize, d: usize) -> (r: Result<
    (Vec<Node>, usize),
    ParseError,
>)
    requires
        i < lines@.len(),
    ensures
        r is Ok ==> spec_build_group(lines_view(lines@), i as int, d as nat) == Ok::<
            (Seq<NodeV>, int),
            ErrorV,
        >((nodes_view(r->Ok_0.0@), r->Ok_0.1 as int)),
        r is Err ==> spec_build_group(lines_view(lines@), i as int, d as nat) == Err::<
            (Seq<NodeV>, int),
            ErrorV,
        >(r->Err_0@),
    decreases lines@.len() - i,
{
    let ghost lv = lines_view(lines@);
    let n = lines.len();
    let head_line = lines[i].clone();
    if i + 1 < n && lines[i + 1].depth > d {
        let cd = lines[i + 1].depth;
        match build_group(lines, i + 1, cd) {
            Err(e) => Err(e),
            Ok((cs, j)) => {
                proof {
                    lemma_build_group_bounds(lv, i + 1, cd as nat);
                }
                let node = Node { line: head_line, children: cs };
                if j < n && lines[j].depth > d {
                    Err(ParseError::DedentMismatch { line: lines[j].number })
                } else if j < n && lines[j].depth == d {
                    match build_group(lines, j, d) {
                        Err(e) => Err(e),
                        Ok((sibs, k)) => {
                            let mut out: Vec<Node> = Vec::new();
                            out.push(node);
                            let mut tail = sibs;
                            let ghost tailv = tail@;
                            out.append(&mut tail);
                            proof {
                                lemma_nodes_view_concat(seq![node], tailv);
                                assert(out@ =~= seq![node] + tailv);
                                lemma_nodes_view_props(seq![node]);
                                assert(nodes_view(seq![node]) =~= seq![node_view(node)]);
                            }
                            Ok((out, k))
                        },
                    }
                } else {
                    let mut out: Vec<Node> = Vec::new();
                    out.push(node);
                    proof {
                        lemma_nodes_view_props(out@);
                        assert(nodes_view(out@) =~= seq![node_view(node)]);
                    }
                    Ok((out, j))
                }
            },
        }
    } else {
        let node = Node { line: head_line, children: Vec::new() };
        proof {
            assert(node_view(node) == (NodeV { line: lv[i as int], children: Seq::empty() }));
        }
        if i + 1 < n && lines[i + 1].depth == d {
            match build_group(lines, i + 1, d) {
                Err(e) => Err(e),
                Ok((sibs, k)) => {
                    let mut out: Vec<Node> = Vec::new();
                    out.push(node);
                    let mut tail = sibs;
                    let ghost tailv = tail@;
                    out.append(&mut tail);
                    proof {
                        lemma_nodes_view_concat(seq![node], tailv);
                        assert(out@ =~= seq![node] + tailv);
                        lemma_nodes_view_props(seq![node]);
                        assert(nodes_view(seq![node]) =~= seq![node_view(node)]);
                    }
                    Ok((out, k))
                },
            }
        } else {
            let mut out: Vec<Node> = Vec::new();
            out.push(node);
            proof {
                lemma_nodes_view_props(out@);
                assert(nodes_view(out@) =~= seq![node_view(node)]);
            }
            Ok((out, i + 1))
        }
    }
}

/// Arranges the logical lines into a forest. The roots form one sibling
/// group at the first line's depth; a group that stops before the end of
/// the source stopped on a line below every open depth, which is a
/// `DedentMismatch`.
pub open spec fn spec_forest(lines: Seq<LineV>) -> Result<Seq<NodeV>, ErrorV> {
    if lines.len() == 0 {
        Ok(Seq::empty())
    } else {
        match spec_build_group(lines, 0, lines[0].depth) {
            Err(e) => Err(e),
            Ok((ns, j)) => if j == lines.len() {
                Ok(ns)
            } else {
                Err(ErrorV::DedentMismatch { line: line_num_at(lines, j) })
            },
        }
    }
}

/// Builds the indentation forest of the logical lines.
pub fn build_forest(lines: &Vec<Line>) -> (r: Result<Vec<Node>, ParseError>)
    ensures
        r is Ok ==> spec_forest(lines_view(lines@)) == Ok::<Seq<NodeV>, ErrorV>(
            nodes_view(r->Ok_0@),
        ),
        r is Err ==> spec_forest(lines_view(lines@)) == Err::<Seq<NodeV>, ErrorV>(r->Err_0@),
{
    let ghost lv = lines_view(lines@);
    if lines.len() == 0 {
        let out: Vec<Node> = Vec::new();
        return Ok(out);
    }
    let d = lines[0].depth;
    match build_group(lines, 0, d) {
        Err(e) => Err(e),
        Ok((ns, j)) => {
            if j == lines.len() {
                Ok(ns)
            } else {
                proof {
                    lemma_build_group_bounds(lv, 0, d as nat);
                }
                Err(ParseError::DedentMismatch { line: lines[j].number })
            }
        },
    }
}

/// Law: inside a sibling group at depth `d` whose open child group sits at
/// a greater depth, a line that dedents strictly between the two depths —
/// below the child group but not exactly onto `d` — is rejected as a
/// `DedentMismatch` naming that line.
pub proof fn lemma_dedent_mismatch(lines: Seq<LineV>, i: int, d: nat, j: int)
    requires
        0 <= i < lines.len(),
        i + 1 < lines.len(),
        lines[i + 1].depth > d,
        spec_build_group(lines, i + 1, lines[i + 1].depth) matches Ok(p) && p.1 == j,
        j < lines.len(),
        lines[j].depth > d,
    ensures
        spec_build_group(lines, i, d) == Err::<(Seq<NodeV>, int), ErrorV>(
            ErrorV::DedentMismatch { line: lines[j].number },
        ),
{
    lemma_build_group_bounds(lines, i + 1, lines[i + 1].depth);
}

} // verus!
