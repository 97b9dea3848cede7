use vstd::prelude::*;
use crate::ast::Span;
use crate::cst::CstNode;
use crate::rule::Rule;

verus! {

/// One line of the tree rendering: a node, indented by its depth.
#[derive(Debug)]
pub struct DiagLine {
    pub indent: usize,
    pub rule: Rule,
    pub text: String,
    pub span: Span,
}

/// The mathematical value of a `DiagLine`.
pub struct DiagLineModel {
    pub indent: nat,
    pub rule: Rule,
    pub text: Seq<char>,
    pub span: Span,
}

impl DiagLine {
    pub open spec fn model(&self) -> DiagLineModel {
        DiagLineModel { indent: self.indent as nat, rule: self.rule, text: self.text@, span: self.span }
    }
}

/// The width by which each level of the tree is indented further.
pub const INDENT_STEP: usize = 2;

pub open spec fn line_of(node: CstNode, indent: nat) -> DiagLineModel {
    DiagLineModel { indent, rule: node.rule, text: node.text@, span: node.span }
}

/// The rendering of a sequence of sibling trees: each node, then its children one
/// level deeper, then its next sibling.
pub open spec fn forest_lines(nodes: Seq<CstNode>, indent: nat) -> Seq<DiagLineModel>
    decreases nodes,
{
    if nodes.len() == 0 {
        Seq::empty()
    } else {
        seq![line_of(nodes[0], indent)] + forest_lines(
            nodes[0].children@,
            (indent + INDENT_STEP) as nat,
        ) + forest_lines(nodes.drop_first(), indent)
    }
}

/// The number of levels of a sequence of sibling trees.
pub open spec fn forest_height(nodes: Seq<CstNode>) -> nat
    decreases nodes,
{
    if nodes.len() == 0 {
        0
    } else {
        let below = 1 + forest_height(nodes[0].children@);
        let beside = forest_height(nodes.drop_first());
        if below >= beside {
            below
        } else {
            beside
        }
    }
}

/// The rendering of one tree.
pub open spec fn tree_lines(node: CstNode, indent: nat) -> Seq<DiagLineModel> {
    forest_lines(seq![node], indent)
}

pub open spec fn models(lines: Seq<DiagLine>) -> Seq<DiagLineModel> {
    lines.map_values(|l: DiagLine| l.model())
}

proof fn lemma_forest_append(a: Seq<CstNode>, b: Seq<CstNode>, indent: nat)
    ensures
        forest_lines(a + b, indent) == forest_lines(a, indent) + forest_lines(b, indent),
    decreases a.len(),
{
    if a.len() == 0 {
        assert(a + b =~= b);
        assert(forest_lines(a, indent) =~= Seq::<DiagLineModel>::empty());
        assert(forest_lines(b, indent) =~= Seq::<DiagLineModel>::empty() + forest_lines(b, indent));
    } else {
        assert((a + b).drop_first() =~= a.drop_first() + b);
        assert((a + b)[0] == a[0]);
        lemma_forest_append(a.drop_first(), b, indent);
        assert(forest_lines(a + b, indent) =~= forest_lines(a, indent) + forest_lines(b, indent));
    }
}

proof fn lemma_height_bounds(nodes: Seq<CstNode>, i: int)
    requires
        0 <= i < nodes.len(),
    ensures
        forest_height(nodes[i].children@) + 1 <= forest_height(nodes),
    decreases nodes.len(),
{
    if i > 0 {
        lemma_height_bounds(nodes.drop_first(), i - 1);
        assert(nodes.drop_first()[i - 1] == nodes[i]);
    }
}

fn push_lines(node: &CstNode, indent: usize, out: &mut Vec<DiagLine>)
    requires
        indent + INDENT_STEP * forest_height(seq![*node]) <= usize::MAX,
    ensures
        models(final(out)@) == models(old(out)@) + tree_lines(*node, indent as nat),
    decreases node,
{
    let ghost start = models(out@);
    let ghost kids = node.children@;
    proof {
        lemma_height_bounds(seq![*node], 0);
        assert(seq![*node].drop_first() =~= Seq::<CstNode>::empty());
    }
    out.push(DiagLine { indent, rule: node.rule, text: node.text.clone(), span: node.span });
    proof {
        assert(models(out@) =~= start + seq![line_of(*node, indent as nat)]);
    }
    let mut i: usize = 0;
    while i < node.children.len()
        invariant
            kids == node.children@,
            i <= kids.len(),
            indent + INDENT_STEP * forest_height(seq![*node]) <= usize::MAX,
            forest_height(kids) + 1 <= forest_height(seq![*node]),
            models(out@) == start + seq![line_of(*node, indent as nat)] + forest_lines(
                kids.take(i as int),
                (indent + INDENT_STEP) as nat,
            ),
        decreases kids.len() - i,
    {
        proof {
            lemma_height_bounds(kids, i as int);
            assert(forest_height(seq![kids[i as int]]) == 1 + forest_height(kids[i as int].children@)) by {
                let one = seq![kids[i as int]];
                assert(one.drop_first() =~= Seq::<CstNode>::empty());
                assert(forest_height(one.drop_first()) == 0);
                assert(one[0] == kids[i as int]);
            }
            assert(INDENT_STEP * forest_height(seq![kids[i as int]]) + INDENT_STEP <= INDENT_STEP * forest_height(seq![*node])) by (nonlinear_arith)
                requires forest_height(seq![kids[i as int]]) <= forest_height(kids),
                    forest_height(kids) + 1 <= forest_height(seq![*node]),
                    INDENT_STEP == 2;
        }
        push_lines(&node.children[i], indent + INDENT_STEP, out);
        proof {
            assert(kids.take(i + 1) =~= kids.take(i as int) + seq![kids[i as int]]);
            lemma_forest_append(kids.take(i as int), seq![kids[i as int]], (indent + INDENT_STEP) as nat);
        }
        i = i + 1;
    }
    proof {
        assert(kids.take(kids.len() as int) =~= kids);
        assert(forest_lines(seq![*node].drop_first(), indent as nat) =~= Seq::<DiagLineModel>::empty());
        assert(models(out@) =~= start + tree_lines(*node, indent as nat));
    }
}

/// The rendering of a concrete syntax tree, one line per node in depth-first order,
/// the root at `indent` and each level two columns further in.
pub fn print_pair(node: &CstNode, indent: usize) -> (r: Vec<DiagLine>)
    requires
        indent + INDENT_STEP * forest_height(seq![*node]) <= usize::MAX,
    ensures
        models(r@) == tree_lines(*node, indent as nat),
{
    let mut out: Vec<DiagLine> = Vec::new();
    push_lines(node, indent, &mut out);
    proof {
        assert(models(Seq::<DiagLine>::empty()) =~= Seq::<DiagLineModel>::empty());
        assert(Seq::<DiagLineModel>::empty() + tree_lines(*node, indent as nat) =~= tree_lines(*node, indent as nat));
    }
    out
}

} // verus!
