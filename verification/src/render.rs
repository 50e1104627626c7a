//! The render/annotate engine: the executable second pass, proved equal to
//! the model in [`crate::ir`].
//!
//! The engine traverses the resolved tree depth-first in source order and
//! emits program text, consulting the scope tracker at every binding and
//! use site and draining the capture queue positionally at every matching
//! intrinsic node. Any internal inconsistency (a use site resolving to an
//! identity never bound, or a drained-out queue) aborts the whole render:
//! partial output could compile and still be wrong.

use crate::capture::{capture, captured_texts, queue_view, AstNode};
use crate::ir::{
    check_node, has_intrinsic_ref, lemma_render_succeeds_iff_checked, render_node, suffix_text,
    Node, RState, RStep, RenderError,
};
use crate::scope::{scope_empty, ScopeTracker};
use crate::text::suffix_marker;
use std::collections::VecDeque;
use vstd::prelude::*;
use vstd::string::StringExecFns;

verus! {

/// Appends the disambiguation marker for `s`, if any.
fn emit_suffix(out: &mut String, s: Option<usize>)
    ensures
        final(out)@ == old(out)@ + suffix_text(s),
{
    match s {
        None => {
            proof {
                assert(out@ + suffix_text(s) =~= out@);
            }
        },
        Some(k) => {
            let marker = suffix_marker(k);
            out.append(marker.as_str());
        },
    }
}

/// Renders one node into `out`, driving the tracker and draining the queue
/// exactly as [`render_node`] says: on success the three pieces of state end
/// up precisely in the model's successor state, and the call fails exactly
/// when the model does, with the same error.
pub fn render(n: &Node, locals: &mut ScopeTracker, captures: &mut VecDeque<String>, out: &mut String) -> (r: Result<
    (),
    RenderError,
>)
    ensures
        ({
            let pre = (RState {
                scope: old(locals)@,
                queue: queue_view(old(captures)@),
                out: old(out)@,
            });
            let post = (RState {
                scope: final(locals)@,
                queue: queue_view(final(captures)@),
                out: final(out)@,
            });
            match r {
                Ok(u) => render_node(*n, pre) == RStep::Ongoing(post),
                Err(e) => render_node(*n, pre) == RStep::Failed(e),
            }
        }),
    decreases n,
{
    match n {
        Node::Text(text) => {
            out.append(text.as_str());
            Ok(())
        },
        Node::Pair(first, second) => {
            render(first, locals, captures, out)?;
            render(second, locals, captures, out)
        },
        Node::Body(inner) => {
            render(inner, locals, captures, out)?;
            locals.clear();
            Ok(())
        },
        Node::Binding { sym, id, text } => {
            let s = locals.enter_binding(*sym, *id);
            out.append(text.as_str());
            emit_suffix(out, s);
            Ok(())
        },
        Node::UseSite { target, text } => {
            if !locals.is_bound(*target) {
                return Err(RenderError::UnboundUse);
            }
            let s = locals.suffix_of(*target);
            out.append(text.as_str());
            emit_suffix(out, s);
            Ok(())
        },
        Node::IntrinsicCall { canonical } => {
            match captures.pop_front() {
                None => Err(RenderError::ExhaustedCaptures),
                Some(code) => {
                    out.append("/* ");
                    out.append(canonical.as_str());
                    out.append(" */");
                    out.append(code.as_str());
                    proof {
                        assert(queue_view(captures@) =~= queue_view(
                            old(captures)@,
                        ).drop_first());
                        assert(code@ == queue_view(old(captures)@)[0]);
                    }
                    Ok(())
                },
            }
        },
        Node::IntrinsicRef { canonical, path, member } => {
            out.append("/* ");
            out.append(canonical.as_str());
            out.append(" */");
            out.append(path.as_str());
            out.append("::");
            out.append(member.as_str());
            Ok(())
        },
    }
}

/// The fixed module-level enabling declarations prepended whenever a
/// canonical-reference substitution appears in the output: the reconstructed
/// references reach definitions behind internal paths, which a compiled unit
/// must opt into before they are legal to name.
pub open spec fn compat_decls_text() -> Seq<char> {
    "#![allow(internal_features)]\n"@
}

/// What the whole two-pass reconstruction produces for a pre-lowering tree
/// `a` and the matching resolved tree `ir`: the capture pass's texts become
/// the initial queue, the scope state starts empty, and the output starts
/// with the compatibility declarations exactly when some bare intrinsic
/// reference will need them.
pub open spec fn spec_run(a: AstNode, ir: Node) -> RStep {
    render_node(
        ir,
        (RState {
            scope: scope_empty(),
            queue: captured_texts(a),
            out: if has_intrinsic_ref(ir) {
                compat_decls_text()
            } else {
                Seq::empty()
            },
        }),
    )
}

/// Whether the tree contains a bare intrinsic reference.
pub fn contains_intrinsic_ref(n: &Node) -> (r: bool)
    ensures
        r == has_intrinsic_ref(*n),
    decreases n,
{
    match n {
        Node::Pair(first, second) => contains_intrinsic_ref(first) || contains_intrinsic_ref(
            second,
        ),
        Node::Body(inner) => contains_intrinsic_ref(inner),
        Node::IntrinsicRef { .. } => true,
        _ => false,
    }
}

/// The two-pass engine. Runs the capture pass over the pre-lowering tree
/// `ast`, then renders the resolved tree `ir`, and returns the one complete
/// program text, or the internal-consistency failure that aborted the
/// render. The result is exactly what [`spec_run`] says, success and
/// failure alike.
pub fn run(ast: &AstNode, ir: &Node) -> (r: Result<String, RenderError>)
    ensures
        (match r {
            Ok(s) => spec_run(*ast, *ir) matches RStep::Ongoing(st) && st.out == s@,
            Err(e) => spec_run(*ast, *ir) == RStep::Failed(e),
        }),
{
    let mut captures: VecDeque<String> = VecDeque::new();
    capture(ast, &mut captures);
    proof {
        assert(queue_view(captures@) =~= captured_texts(*ast));
    }
    let mut locals = ScopeTracker::new();
    let mut out = if contains_intrinsic_ref(ir) {
        "#![allow(internal_features)]\n".to_owned()
    } else {
        String::new()
    };
    match render(ir, &mut locals, &mut captures, &mut out) {
        Ok(()) => Ok(out),
        Err(e) => Err(e),
    }
}

/// Success of the whole reconstruction is owed exactly when the input is
/// internally consistent: every use site resolves to a binding registered
/// earlier in its own lexical unit, and the capture pass supplied enough
/// texts for the intrinsic call nodes the resolved tree holds. Nothing else
/// about the trees — names, suffix values, the texts themselves — can make
/// the engine abort.
pub proof fn lemma_run_succeeds_iff_consistent(a: AstNode, ir: Node)
    ensures
        spec_run(a, ir) is Ongoing <==> check_node(
            ir,
            Set::empty(),
            captured_texts(a).len(),
        ) is Some,
{
    let init = (RState {
        scope: scope_empty(),
        queue: captured_texts(a),
        out: if has_intrinsic_ref(ir) {
            compat_decls_text()
        } else {
            Seq::empty()
        },
    });
    lemma_render_succeeds_iff_checked(ir, init);
    assert(scope_empty().assigned.dom() =~= Set::empty());
}

} // verus!
