//! The scope suffix tracker: per-lexical-unit disambiguation of rebound
//! names.
//!
//! Hygienic expansion can leave one lexical unit with several distinct
//! bindings that print with the same textual name. The tracker assigns each
//! binding a stable label: the first binding of a name prints unadorned, and
//! the k-th rebinding receives suffix k-1. A use site always prints the
//! suffix stored for the binding identity it resolves to, never one derived
//! from its own position. All state is per lexical unit and is wiped by
//! [`ScopeTracker::clear`] at every unit boundary.
//!
//! Names and binding identities are interned: a name is a `u64` symbol (two
//! bindings print alike exactly when their symbols are equal) and a binding
//! site's globally unique structural identity is a `u64`.

use vstd::hash_map::HashMapWithView;
use vstd::prelude::*;

verus! {

broadcast use vstd::std_specs::hash::group_hash_axioms;

/// Mathematical model of the tracker's state: the next suffix counter per
/// name, and the suffix assigned to each binding identity at bind time
/// (`None` for a first, unadorned binding).
pub struct ScopeModel {
    pub next: Map<u64, usize>,
    pub assigned: Map<u64, Option<usize>>,
}

/// The state at the start of a lexical unit: nothing bound yet.
pub open spec fn scope_empty() -> ScopeModel {
    ScopeModel { next: Map::empty(), assigned: Map::empty() }
}

/// The suffix handed out when `sym` is bound in state `s`: none for the
/// first binding, the current counter value for a rebinding.
pub open spec fn enter_result(s: ScopeModel, sym: u64) -> Option<usize> {
    if s.next.dom().contains(sym) {
        Some(s.next[sym])
    } else {
        None
    }
}

/// The counter value stored for a name after one more binding of it.
/// Counters saturate at `usize::MAX`; until that bound every rebinding of a
/// name receives a fresh suffix.
pub open spec fn bumped(c: usize) -> usize {
    if c < usize::MAX {
        (c + 1) as usize
    } else {
        c
    }
}

/// The state after binding `sym` with identity `id` in state `s`: the
/// name's counter starts at 0 or advances, and the handed-out suffix is
/// recorded permanently for `id`.
pub open spec fn enter_scope(s: ScopeModel, sym: u64, id: u64) -> ScopeModel {
    let counter: usize = if s.next.dom().contains(sym) {
        bumped(s.next[sym])
    } else {
        0
    };
    ScopeModel { next: s.next.insert(sym, counter), assigned: s.assigned.insert(id, enter_result(s, sym)) }
}

/// Tracks, within one lexical unit, how often each name has been bound and
/// which suffix each binding identity received.
pub struct ScopeTracker {
    next_suffix: HashMapWithView<u64, usize>,
    current_suffixes: HashMapWithView<u64, Option<usize>>,
}

impl View for ScopeTracker {
    type V = ScopeModel;

    closed spec fn view(&self) -> ScopeModel {
        ScopeModel { next: self.next_suffix@, assigned: self.current_suffixes@ }
    }
}

impl ScopeTracker {
    /// A tracker with no bindings observed yet.
    pub fn new() -> (r: ScopeTracker)
        ensures
            r@ == scope_empty(),
    {
        ScopeTracker { next_suffix: HashMapWithView::new(), current_suffixes: HashMapWithView::new() }
    }

    /// Called exactly once per binding site, in tree order. Returns `None`
    /// if `sym` has not been bound in the current lexical unit (the name
    /// prints unadorned), else the suffix for this rebinding. Either way the
    /// outcome is recorded for `id` and can be read back with
    /// [`Self::suffix_of`].
    pub fn enter_binding(&mut self, sym: u64, id: u64) -> (r: Option<usize>)
        ensures
            r == enter_result(old(self)@, sym),
            final(self)@ == enter_scope(old(self)@, sym, id),
    {
        let current: Option<usize> = match self.next_suffix.get(&sym) {
            Some(c) => Some(*c),
            None => None,
        };
        let r = match current {
            Some(c) => {
                let c2: usize = if c < usize::MAX {
                    c + 1
                } else {
                    c
                };
                self.next_suffix.insert(sym, c2);
                Some(c)
            },
            None => {
                self.next_suffix.insert(sym, 0);
                None
            },
        };
        self.current_suffixes.insert(id, r);
        r
    }

    /// Whether `id` was observed as a binding site in the current unit.
    pub fn is_bound(&self, id: u64) -> (r: bool)
        ensures
            r == self@.assigned.dom().contains(id),
    {
        self.current_suffixes.contains_key(&id)
    }

    /// The suffix stored for binding identity `id` at bind time. Querying an
    /// identity that was never bound is an internal inconsistency between
    /// resolution data and traversal order; callers test [`Self::is_bound`]
    /// first and abort on failure.
    pub fn suffix_of(&self, id: u64) -> (r: Option<usize>)
        requires
            self@.assigned.dom().contains(id),
        ensures
            r == self@.assigned[id],
    {
        match self.current_suffixes.get(&id) {
            Some(s) => *s,
            None => {
                proof {
                    assert(false);
                }
                None
            },
        }
    }

    /// Wipes both maps. Invoked at every lexical-unit boundary, never
    /// mid-unit; afterwards every name starts again unadorned.
    pub fn clear(&mut self)
        ensures
            final(self)@ == scope_empty(),
    {
        self.next_suffix.clear();
        self.current_suffixes.clear();
    }
}

/// The state after a whole sequence of bindings, each a (symbol, identity)
/// pair, observed in order.
pub open spec fn enter_all(s: ScopeModel, binds: Seq<(u64, u64)>) -> ScopeModel
    decreases binds.len(),
{
    if binds.len() == 0 {
        s
    } else {
        enter_all(enter_scope(s, binds[0].0, binds[0].1), binds.drop_first())
    }
}

/// A run of bindings that all bind the same name `sym`, with the given
/// identities.
pub open spec fn same_sym_binds(sym: u64, ids: Seq<u64>) -> Seq<(u64, u64)> {
    ids.map_values(|id: u64| (sym, id))
}

/// In the first binding of a name within a lexical unit, the name prints
/// unadorned: no suffix is handed out.
pub proof fn lemma_first_binding_unsuffixed(s: ScopeModel, sym: u64)
    requires
        !s.next.dom().contains(sym),
    ensures
        enter_result(s, sym) is None,
{
}

/// Each further binding of an already-bound name advances its counter by
/// exactly one (below the saturation bound).
pub proof fn lemma_counter_step(s: ScopeModel, sym: u64, ids: Seq<u64>)
    requires
        s.next.dom().contains(sym),
        s.next[sym] + ids.len() <= usize::MAX,
    ensures
        enter_all(s, same_sym_binds(sym, ids)).next.dom().contains(sym),
        enter_all(s, same_sym_binds(sym, ids)).next[sym] == s.next[sym] + ids.len(),
    decreases ids.len(),
{
    if ids.len() > 0 {
        let binds = same_sym_binds(sym, ids);
        let s1 = enter_scope(s, sym, ids[0]);
        assert(binds.drop_first() =~= same_sym_binds(sym, ids.drop_first()));
        lemma_counter_step(s1, sym, ids.drop_first());
    }
}

/// Within one lexical unit, a name's first binding prints with no suffix
/// and its k-th rebinding (k >= 1) prints with suffix k - 1: after the
/// first k bindings of `sym`, the next binding of `sym` is handed `None`
/// for k = 0 and `Some(k - 1)` otherwise. (The statement leaves out runs of
/// more than `usize::MAX` rebindings of one name, where the counter
/// saturates.)
pub proof fn lemma_rebinding_suffixes(s: ScopeModel, sym: u64, ids: Seq<u64>, k: int)
    requires
        !s.next.dom().contains(sym),
        0 <= k <= ids.len(),
        k <= usize::MAX,
    ensures
        enter_result(enter_all(s, same_sym_binds(sym, ids.take(k))), sym) == if k == 0 {
            None::<usize>
        } else {
            Some((k - 1) as usize)
        },
{
    let pre = ids.take(k);
    let binds = same_sym_binds(sym, pre);
    if k == 0 {
        assert(binds.len() == 0);
    } else {
        let s1 = enter_scope(s, sym, pre[0]);
        assert(binds.drop_first() =~= same_sym_binds(sym, pre.drop_first()));
        assert(s1.next[sym] == 0);
        lemma_counter_step(s1, sym, pre.drop_first());
        assert(enter_all(s, binds) == enter_all(s1, same_sym_binds(sym, pre.drop_first())));
    }
}

/// Suffixing only rebindings is enough for uniqueness: within one lexical
/// unit, distinct bindings of the same name always receive distinct labels
/// (no marker for the first, a fresh suffix for each rebinding below the
/// saturation bound), so the printed forms never collide.
pub proof fn lemma_labels_distinct(s: ScopeModel, sym: u64, ids: Seq<u64>, j: int, k: int)
    requires
        !s.next.dom().contains(sym),
        0 <= j < k <= ids.len(),
        k <= usize::MAX,
    ensures
        enter_result(enter_all(s, same_sym_binds(sym, ids.take(j))), sym) != enter_result(
            enter_all(s, same_sym_binds(sym, ids.take(k))),
            sym,
        ),
{
    lemma_rebinding_suffixes(s, sym, ids, j);
    lemma_rebinding_suffixes(s, sym, ids, k);
}

/// A suffix recorded for a binding identity never changes: any later
/// bindings, of whatever names, with other identities, leave it exactly as
/// it was handed out at bind time. A use site therefore always prints the
/// suffix of the binding it resolves to, regardless of textual distance or
/// intervening rebindings of the same name.
pub proof fn lemma_suffix_stable(s: ScopeModel, binds: Seq<(u64, u64)>, id: u64)
    requires
        s.assigned.dom().contains(id),
        forall|i: int| 0 <= i < binds.len() ==> (#[trigger] binds[i]).1 != id,
    ensures
        enter_all(s, binds).assigned.dom().contains(id),
        enter_all(s, binds).assigned[id] == s.assigned[id],
    decreases binds.len(),
{
    if binds.len() > 0 {
        let s1 = enter_scope(s, binds[0].0, binds[0].1);
        assert forall|i: int| 0 <= i < binds.drop_first().len() implies (#[trigger] binds.drop_first()[
            i
        ]).1 != id by {
            assert(binds.drop_first()[i] == binds[i + 1]);
        }
        lemma_suffix_stable(s1, binds.drop_first(), id);
    }
}

/// Clearing at a lexical-unit boundary is total: afterwards every name,
/// even one that was rebound and suffixed in the unit just closed, starts
/// again with no suffix.
pub proof fn lemma_clear_restarts(sym: u64)
    ensures
        enter_result(scope_empty(), sym) is None,
{
}

} // verus!
