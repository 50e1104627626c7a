//! The resolved tree, reduced to what the render pass reads, and the
//! mathematical model of rendering.
//!
//! Nodes form a closed set of tagged variants; anything already printable is
//! `Text` (the pass-through default), and the variants the engine treats
//! specially are binding sites, use sites, lexical-unit boundaries, and the
//! two intrinsic-reference shapes. [`render_node`] defines, node by node,
//! exactly what text the engine emits and how the scope state and the
//! capture queue evolve; the executable engine in [`crate::render`] is
//! proved equal to it.

use crate::scope::{enter_result, enter_scope, scope_empty, ScopeModel};
use crate::text::marker_text;
use vstd::prelude::*;

verus! {

/// One node of the resolved tree.
///
/// Binding sites carry the printed name `text`, its interned symbol `sym`
/// (rebinding is counted per symbol), and the binding's globally unique
/// structural identity `id`. Use sites carry the identity their resolution
/// points at. An intrinsic-reference call node carries the canonical (non
/// re-parseable) spelling the resolved tree would print; a bare intrinsic
/// reference additionally carries the fully qualified path of the
/// capability's real underlying definition and the accessed member name.
pub enum Node {
    Text(String),
    Pair(Box<Node>, Box<Node>),
    Body(Box<Node>),
    Binding { sym: u64, id: u64, text: String },
    UseSite { target: u64, text: String },
    IntrinsicCall { canonical: String },
    IntrinsicRef { canonical: String, path: String, member: String },
}

/// The two internal-consistency failures. Either one means the capture and
/// render traversals observed different node orders; the engine aborts
/// rather than emit misleading output.
#[derive(Clone, Copy, Debug, PartialEq, Eq, Structural)]
pub enum RenderError {
    /// A use site resolved to a binding identity the tracker never observed.
    UnboundUse,
    /// The capture queue was drained past empty at a matching node.
    ExhaustedCaptures,
}

/// The state threaded through rendering: the scope tracker's state, the
/// remaining captured texts (front first), and the text emitted so far.
pub struct RState {
    pub scope: ScopeModel,
    pub queue: Seq<Seq<char>>,
    pub out: Seq<char>,
}

/// One rendering step either carries the state forward or fails fatally.
pub enum RStep {
    Ongoing(RState),
    Failed(RenderError),
}

/// Text that opens the comment wrapping a preserved canonical spelling.
pub open spec fn comment_open() -> Seq<char> {
    "/* "@
}

/// Text that closes the comment wrapping a preserved canonical spelling.
pub open spec fn comment_close() -> Seq<char> {
    " */"@
}

/// The separator between a qualified path and the accessed member name.
pub open spec fn path_sep() -> Seq<char> {
    "::"@
}

/// The marker a name carries: nothing for an unadorned binding, `_<k>` for
/// suffix `k`.
pub open spec fn suffix_text(s: Option<usize>) -> Seq<char> {
    match s {
        None => Seq::empty(),
        Some(k) => marker_text(k),
    }
}

/// What rendering one node does to the state.
///
/// * `Text` passes through unmodified.
/// * `Pair` renders left then right.
/// * `Body` renders the nested unit, then clears the scope state: exactly
///   one clear per boundary, so sibling units start unadorned.
/// * `Binding` prints the name, then the marker for the suffix handed out
///   at this bind.
/// * `UseSite` prints the name, then the marker stored for the binding it
///   resolves to; an unregistered identity is fatal.
/// * `IntrinsicCall` preserves the canonical spelling inside a comment and
///   emits the front captured text, verbatim, as the live code; an empty
///   queue is fatal.
/// * `IntrinsicRef` preserves the canonical spelling inside a comment,
///   immediately followed by the reconstructed `path::member` reference as
///   the live code.
pub open spec fn render_node(n: Node, st: RState) -> RStep
    decreases n,
{
    match n {
        Node::Text(text) => RStep::Ongoing(
            (RState { scope: st.scope, queue: st.queue, out: st.out + text@ }),
        ),
        Node::Pair(first, second) => match render_node(*first, st) {
            RStep::Ongoing(st1) => render_node(*second, st1),
            RStep::Failed(e) => RStep::Failed(e),
        },
        Node::Body(inner) => match render_node(*inner, st) {
            RStep::Ongoing(st1) => RStep::Ongoing(
                (RState { scope: scope_empty(), queue: st1.queue, out: st1.out }),
            ),
            RStep::Failed(e) => RStep::Failed(e),
        },
        Node::Binding { sym, id, text } => RStep::Ongoing(
            (RState {
                scope: enter_scope(st.scope, sym, id),
                queue: st.queue,
                out: st.out + text@ + suffix_text(enter_result(st.scope, sym)),
            }),
        ),
        Node::UseSite { target, text } => if st.scope.assigned.dom().contains(target) {
            RStep::Ongoing(
                (RState {
                    scope: st.scope,
                    queue: st.queue,
                    out: st.out + text@ + suffix_text(st.scope.assigned[target]),
                }),
            )
        } else {
            RStep::Failed(RenderError::UnboundUse)
        },
        Node::IntrinsicCall { canonical } => if st.queue.len() == 0 {
            RStep::Failed(RenderError::ExhaustedCaptures)
        } else {
            RStep::Ongoing(
                (RState {
                    scope: st.scope,
                    queue: st.queue.drop_first(),
                    out: st.out + comment_open() + canonical@ + comment_close() + st.queue[0],
                }),
            )
        },
        Node::IntrinsicRef { canonical, path, member } => RStep::Ongoing(
            (RState {
                scope: st.scope,
                queue: st.queue,
                out: st.out + comment_open() + canonical@ + comment_close() + path@ + path_sep()
                    + member@,
            }),
        ),
    }
}

/// Whether the tree contains a bare intrinsic reference, the shape whose
/// substitution needs the compatibility declarations prepended.
pub open spec fn has_intrinsic_ref(n: Node) -> bool
    decreases n,
{
    match n {
        Node::Pair(first, second) => has_intrinsic_ref(*first) || has_intrinsic_ref(*second),
        Node::Body(inner) => has_intrinsic_ref(*inner),
        Node::IntrinsicRef { .. } => true,
        _ => false,
    }
}

/// How many intrinsic call nodes the tree holds, in traversal order; each
/// one consumes exactly one captured text.
pub open spec fn intrinsic_call_count(n: Node) -> nat
    decreases n,
{
    match n {
        Node::Pair(first, second) => intrinsic_call_count(*first) + intrinsic_call_count(*second),
        Node::Body(inner) => intrinsic_call_count(*inner),
        Node::IntrinsicCall { .. } => 1,
        _ => 0,
    }
}

/// Exiting a lexical-unit boundary clears the suffix state entirely: a
/// sibling unit rendered afterwards sees no binding of the unit just
/// closed, so every name there starts again unadorned.
pub proof fn lemma_boundary_clears_scope(n: Node, st: RState)
    requires
        n matches Node::Body(_),
    ensures
        render_node(n, st) matches RStep::Ongoing(st2) ==> st2.scope == scope_empty(),
{
}

/// A use site prints exactly the marker stored for the binding identity it
/// resolves to, independent of the use site's own position.
pub proof fn lemma_use_site_prints_binding_suffix(target: u64, text: String, st: RState)
    requires
        st.scope.assigned.dom().contains(target),
    ensures
        render_node(Node::UseSite { target, text }, st) == RStep::Ongoing(
            (RState {
                scope: st.scope,
                queue: st.queue,
                out: st.out + text@ + suffix_text(st.scope.assigned[target]),
            }),
        ),
{
}

/// Full-expression substitution is exact: the live text emitted at an
/// intrinsic call node is the front captured snapshot, byte for byte, right
/// after the canonical spelling preserved in a comment; nothing of it is
/// re-derived.
pub proof fn lemma_full_expression_substitution(canonical: String, st: RState)
    requires
        st.queue.len() > 0,
    ensures
        render_node(Node::IntrinsicCall { canonical }, st) == RStep::Ongoing(
            (RState {
                scope: st.scope,
                queue: st.queue.drop_first(),
                out: st.out + comment_open() + canonical@ + comment_close() + st.queue[0],
            }),
        ),
{
}

/// Canonical-reference substitution always emits the canonical spelling
/// wrapped in comment delimiters, immediately followed by the reconstructed
/// qualified path plus accessed member name as the live code.
pub proof fn lemma_canonical_reference_substitution(
    canonical: String,
    path: String,
    member: String,
    st: RState,
)
    ensures
        render_node(Node::IntrinsicRef { canonical, path, member }, st) == RStep::Ongoing(
            (RState {
                scope: st.scope,
                queue: st.queue,
                out: st.out + comment_open() + canonical@ + comment_close() + path@ + path_sep()
                    + member@,
            }),
        ),
{
}

/// The render pass drains the capture queue from the front, one entry per
/// intrinsic call node, in traversal order: on success exactly as many
/// entries are gone as intrinsic call nodes were visited, and what remains
/// is the untouched tail of the original queue. Positional correspondence
/// with the capture pass follows: the k-th intrinsic call consumes the k-th
/// captured text.
pub proof fn lemma_queue_drained_in_order(n: Node, st: RState)
    ensures
        render_node(n, st) matches RStep::Ongoing(st2) ==> {
            &&& st2.queue.len() + intrinsic_call_count(n) == st.queue.len()
            &&& st2.queue == st.queue.skip(intrinsic_call_count(n) as int)
        },
    decreases n,
{
    match n {
        Node::Pair(first, second) => {
            lemma_queue_drained_in_order(*first, st);
            if let RStep::Ongoing(st1) = render_node(*first, st) {
                lemma_queue_drained_in_order(*second, st1);
                if render_node(*second, st1) matches RStep::Ongoing(st2) {
                    let ca = intrinsic_call_count(*first) as int;
                    let cb = intrinsic_call_count(*second) as int;
                    assert(st.queue.skip(ca).skip(cb) =~= st.queue.skip(ca + cb));
                }
            }
        },
        Node::Body(inner) => {
            lemma_queue_drained_in_order(*inner, st);
        },
        Node::IntrinsicCall { .. } => {
            if st.queue.len() > 0 {
                assert(st.queue.drop_first() =~= st.queue.skip(1));
            }
        },
        _ => {
            assert(st.queue.skip(0) =~= st.queue);
        },
    }
}

/// The declarative success condition for rendering one node: every use site
/// must resolve to a binding identity already registered in its lexical
/// unit, and one captured text must be available for every intrinsic call
/// node. `bound` is the set of identities registered so far in the current
/// unit; `avail` the number of captured texts left. On success the pair is
/// carried forward.
pub open spec fn check_node(n: Node, bound: Set<u64>, avail: nat) -> Option<(Set<u64>, nat)>
    decreases n,
{
    match n {
        Node::Text(_) => Some((bound, avail)),
        Node::Pair(first, second) => match check_node(*first, bound, avail) {
            Some((b1, a1)) => check_node(*second, b1, a1),
            None => None,
        },
        Node::Body(inner) => match check_node(*inner, bound, avail) {
            Some((b1, a1)) => Some((Set::empty(), a1)),
            None => None,
        },
        Node::Binding { sym, id, text } => Some((bound.insert(id), avail)),
        Node::UseSite { target, text } => if bound.contains(target) {
            Some((bound, avail))
        } else {
            None
        },
        Node::IntrinsicCall { .. } => if avail == 0 {
            None
        } else {
            Some((bound, (avail - 1) as nat))
        },
        Node::IntrinsicRef { .. } => Some((bound, avail)),
    }
}

/// Success is owed exactly when the declarative condition holds: rendering
/// aborts iff some use site is unresolved or the capture queue runs dry.
/// Names, suffix values and the texts themselves cannot make it fail.
pub proof fn lemma_render_succeeds_iff_checked(n: Node, st: RState)
    ensures
        render_node(n, st) is Ongoing <==> check_node(
            n,
            st.scope.assigned.dom(),
            st.queue.len(),
        ) is Some,
        render_node(n, st) matches RStep::Ongoing(st2) ==> check_node(
            n,
            st.scope.assigned.dom(),
            st.queue.len(),
        ) == Some((st2.scope.assigned.dom(), st2.queue.len())),
    decreases n,
{
    match n {
        Node::Pair(first, second) => {
            lemma_render_succeeds_iff_checked(*first, st);
            if let RStep::Ongoing(st1) = render_node(*first, st) {
                lemma_render_succeeds_iff_checked(*second, st1);
            }
        },
        Node::Body(inner) => {
            lemma_render_succeeds_iff_checked(*inner, st);
        },
        Node::Binding { sym, id, text } => {
            assert(enter_scope(st.scope, sym, id).assigned.dom() =~= st.scope.assigned.dom().insert(
                id,
            ));
        },
        _ => {
        },
    }
}

} // verus!
