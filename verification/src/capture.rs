//! The capture pass: snapshotting original spellings before lowering.
//!
//! Desugaring rewrites some expressions (structured-formatting calls) into
//! forms built from compiler-private symbols that have no valid surface
//! spelling. Before that happens, the capture pass walks the pre-lowering
//! tree once, read-only, and records the original text of every such
//! expression, in visit order, into a FIFO queue. The render pass later
//! drains the queue positionally: correspondence is by order, not by any
//! shared key, so both passes must visit matching sites left to right.

use std::collections::VecDeque;
use vstd::prelude::*;

verus! {

/// The pre-lowering tree, reduced to what the capture pass reads. Every
/// expression the pass does not match is `Plain`; sequencing and nesting of
/// subtrees is `Concat`, visited left to right; a structured-formatting
/// expression carries its original textual spelling together with the
/// subtree of its operands, which may themselves contain matches.
pub enum AstNode {
    Plain,
    Concat(Box<AstNode>, Box<AstNode>),
    FormatArgs(String, Box<AstNode>),
}

/// The texts the capture pass records for tree `a`, in visit order: a
/// matched expression's own spelling first, then whatever its operands
/// contribute (pre-order).
pub open spec fn captured_texts(a: AstNode) -> Seq<Seq<char>>
    decreases a,
{
    match a {
        AstNode::Plain => Seq::empty(),
        AstNode::Concat(x, y) => captured_texts(*x) + captured_texts(*y),
        AstNode::FormatArgs(text, inner) => seq![text@] + captured_texts(*inner),
    }
}

/// The views of the queued snapshot strings, front of the queue first.
pub open spec fn queue_view(q: Seq<String>) -> Seq<Seq<char>> {
    q.map_values(|s: String| s@)
}

/// Walks `a` once and appends the original spelling of every matched
/// expression to the back of `queue`, in visit order.
pub fn capture(a: &AstNode, queue: &mut VecDeque<String>)
    ensures
        queue_view(final(queue)@) == queue_view(old(queue)@) + captured_texts(*a),
    decreases a,
{
    match a {
        AstNode::Plain => {
            proof {
                assert(queue_view(queue@) =~= queue_view(queue@) + captured_texts(*a));
            }
        },
        AstNode::Concat(x, y) => {
            capture(x, queue);
            capture(y, queue);
            proof {
                assert(queue_view(queue@) =~= queue_view(old(queue)@) + captured_texts(*a));
            }
        },
        AstNode::FormatArgs(text, inner) => {
            queue.push_back(text.clone());
            proof {
                assert(queue_view(queue@) =~= queue_view(old(queue)@) + seq![text@]);
            }
            capture(inner, queue);
            proof {
                assert(queue_view(queue@) =~= queue_view(old(queue)@) + captured_texts(*a));
            }
        },
    }
}

} // verus!
