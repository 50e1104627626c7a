//! Reconstruction of compilable surface syntax from a resolved,
//! post-expansion program representation.
//!
//! Macro expansion loses two kinds of information that this library repairs
//! when printing a resolved tree back to source text:
//!
//! * hygienic expansion can leave two distinct bindings that print with the
//!   same textual name ([`scope`] assigns disambiguating suffixes);
//! * desugaring rewrites some expressions into forms built from internal,
//!   compiler-private symbols with no valid surface spelling ([`capture`]
//!   snapshots the original spelling before lowering, and [`render`]
//!   substitutes it back, or reconstructs a canonical reference).
//!
//! The pipeline is two passes: a capture pass over the pre-lowering tree,
//! then a render pass over the resolved tree ([`render::run`]).

use vstd::prelude::*;

pub mod capture;
pub mod ir;
pub mod render;
pub mod scope;
pub mod text;

verus! {

/// The worked shadowing example, in the form the render pass prints: the
/// unit binds `x`, then rebinds the same name, so the second binding and
/// its uses carry the `_0` marker while the first `x` prints unadorned. A
/// hygienic reference introduced before the rebinding resolves to the first
/// binding and therefore stays suffix-free; the sum is 2 + 1.
pub fn hygiene_test() -> (r: i32)
    ensures
        r == 3,
{
    let x: i32 = 1;
    let x_0: i32 = 2;
    x_0 + x
}

} // verus!
