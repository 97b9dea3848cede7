use vstd::prelude::*;
use crate::ast::Span;
use crate::rule::Rule;

verus! {

/// A node of the concrete syntax tree that the grammar's parser emits: its rule, the
/// text it matched, that text's span in the source, and its children in order.
#[derive(Debug)]
pub struct CstNode {
    pub rule: Rule,
    pub span: Span,
    pub text: String,
    pub children: Vec<CstNode>,
}

/// Whether span `inner` lies within span `outer`.
pub open spec fn span_within(inner: Span, outer: Span) -> bool {
    outer.start <= inner.start && inner.end <= outer.end
}

/// Whether a node's own children lie within its span and start in order.
pub open spec fn children_placed(node: CstNode) -> bool {
    let kids = node.children@;
    &&& node.span.start <= node.span.end
    &&& forall|i: int| 0 <= i < kids.len() ==> span_within(#[trigger] kids[i].span, node.span)
    &&& forall|i: int|
        0 <= i < kids.len() - 1 ==> #[trigger] kids[i].span.start <= kids[i + 1].span.start
}

/// Whether every node of a sequence of sibling trees has its children placed.
pub open spec fn forest_nested(nodes: Seq<CstNode>) -> bool
    decreases nodes,
{
    if nodes.len() == 0 {
        true
    } else {
        children_placed(nodes[0]) && forest_nested(nodes[0].children@) && forest_nested(
            nodes.drop_first(),
        )
    }
}

/// The shape that a parser's tree has: in every node, each child's span lies within
/// the parent's span, and siblings start left to right.
pub open spec fn well_nested(node: CstNode) -> bool {
    forest_nested(seq![node])
}

proof fn lemma_forest_nested_append(a: Seq<CstNode>, b: Seq<CstNode>)
    ensures
        forest_nested(a + b) == (forest_nested(a) && forest_nested(b)),
    decreases a.len(),
{
    if a.len() == 0 {
        assert(a + b =~= b);
    } else {
        assert((a + b).drop_first() =~= a.drop_first() + b);
        assert((a + b)[0] == a[0]);
        lemma_forest_nested_append(a.drop_first(), b);
    }
}

proof fn lemma_single(node: CstNode)
    ensures
        well_nested(node) == (children_placed(node) && forest_nested(node.children@)),
{
    let one = seq![node];
    assert(one.drop_first() =~= Seq::<CstNode>::empty());
    assert(forest_nested(one.drop_first()));
    assert(one[0] == node);
}

/// Checks that a tree has the shape a parser gives it.
pub fn is_well_nested(node: &CstNode) -> (r: bool)
    ensures
        r == well_nested(*node),
    decreases node,
{
    let ghost kids = node.children@;
    proof {
        lemma_single(*node);
    }
    if node.span.start > node.span.end {
        return false;
    }
    let n = node.children.len();
    let mut i: usize = 0;
    while i < n
        invariant
            n == kids.len(),
            kids == node.children@,
            i <= n,
            node.span.start <= node.span.end,
            forall|j: int| 0 <= j < i ==> span_within(#[trigger] kids[j].span, node.span),
            forall|j: int| 0 <= j < i - 1 ==> #[trigger] kids[j].span.start <= kids[j + 1].span.start,
            forest_nested(kids.take(i as int)),
        decreases n - i,
    {
        let c = &node.children[i];
        if c.span.start < node.span.start || c.span.end > node.span.end {
            return false;
        }
        if i > 0 && node.children[i - 1].span.start > c.span.start {
            assert(!children_placed(*node)) by {
                assert(kids[i - 1].span.start > kids[(i - 1) + 1].span.start);
            }
            return false;
        }
        proof {
            assert(kids.take(i + 1) =~= kids.take(i as int) + seq![kids[i as int]]);
            lemma_forest_nested_append(kids.take(i as int), seq![kids[i as int]]);
            lemma_single(kids[i as int]);
            assert(kids.take(i as int) + kids.skip(i as int) =~= kids);
            lemma_forest_nested_append(kids.take(i as int), kids.skip(i as int));
            assert(kids.skip(i as int) =~= seq![kids[i as int]] + kids.skip(i + 1));
            lemma_forest_nested_append(seq![kids[i as int]], kids.skip(i + 1));
        }
        if !is_well_nested(c) {
            return false;
        }
        i = i + 1;
    }
    assert(kids.take(n as int) =~= kids);
    true
}

} // verus!
