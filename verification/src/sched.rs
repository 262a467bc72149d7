//! The redraw/repaint scheduler: deciding which views re-run their draw
//! logic from the double-buffered dirty sets, which passes are resubmitted
//! to the GPU and in what order, and how a pass delegates its dpi factor to
//! the window at the end of its dependency chain.

use vstd::prelude::*;
use crate::area::{Area, ViewArea, dirty_insert};
use crate::viewpass::{
    CxView, CxPass, CxPassDepOf, CxWindow, views_wf, view_reaches_root, in_up_chain,
    pass_chain_ends, pass_chain_depth, lemma_pass_chain_fuel,
};
use crate::cx::{Cx, DPI_FACTOR_ONE};

verus! {

/// The pass arena of a context is well formed (edges in range, chains
/// terminating).
pub open spec fn cx_passes_wf(cx: Cx) -> bool {
    crate::viewpass::passes_wf(cx.passes@, cx.windows@.len() as int, cx.views@.len() as int)
}

/// Every window's main pass lies inside the pass arena.
pub open spec fn cx_windows_wf(cx: Cx) -> bool {
    forall|w: int| 0 <= w < cx.windows@.len() ==> match (#[trigger] cx.windows@[w]).main_pass_id {
        Option::Some(p) => p < cx.passes@.len(),
        Option::None => true,
    }
}

/// A dirty area of the child-propagating set reaches the tested view when
/// walking up from the area's view: the set holds the view itself or one of
/// its descendants.
pub open spec fn area_hits_down(views: Seq<CxView>, a: Area, view_id: int) -> bool {
    match a {
        Area::All => true,
        Area::Empty => false,
        Area::View(va) => in_up_chain(views, va.view_id as int, view_id, views.len()),
        Area::Instance(ia) => in_up_chain(views, ia.view_id as int, view_id, views.len()),
    }
}

/// A dirty area of the parent-propagating set is reached walking up from the
/// tested view: the set holds the view itself or one of its ancestors.
pub open spec fn area_hits_up(views: Seq<CxView>, a: Area, view_id: int) -> bool {
    match a {
        Area::All => true,
        Area::Empty => false,
        Area::View(va) => in_up_chain(views, view_id, va.view_id as int, views.len()),
        Area::Instance(ia) => in_up_chain(views, view_id, ia.view_id as int, views.len()),
    }
}

/// Whether the current frame's dirty sets make a view re-run its draw.
pub open spec fn spec_view_will_redraw(cx: Cx, view_id: int) -> bool {
    ||| exists|i: int|
        0 <= i < cx._redraw_child_areas@.len() && area_hits_down(
            cx.views@,
            #[trigger] cx._redraw_child_areas@[i],
            view_id,
        )
    ||| exists|i: int|
        0 <= i < cx._redraw_parent_areas@.len() && area_hits_up(
            cx.views@,
            #[trigger] cx._redraw_parent_areas@[i],
            view_id,
        )
}

/// Walk the parent chain from `start` and report whether it passes through
/// `target`; an out-of-range start hits only itself.
fn chain_hits(views: &Vec<CxView>, start: usize, target: usize) -> (r: bool)
    requires
        views_wf(views@),
    ensures
        r == in_up_chain(views@, start as int, target as int, views@.len()),
{
    if start == target {
        return true;
    }
    if start == 0 || start >= views.len() {
        return false;
    }
    let mut vw: usize = start;
    let ghost mut fuel: nat = views@.len() as nat;
    proof {
        assert(view_reaches_root(views@, start as int, views@.len()));
    }
    loop
        invariant
            views_wf(views@),
            0 < vw < views@.len(),
            vw != target,
            view_reaches_root(views@, vw as int, fuel),
            in_up_chain(views@, start as int, target as int, views@.len()) == in_up_chain(
                views@,
                vw as int,
                target as int,
                fuel,
            ),
        decreases fuel,
    {
        proof {
            assert(fuel > 0) by {
                if fuel == 0 {
                    assert(!view_reaches_root(views@, vw as int, fuel));
                }
            }
        }
        let parent = views[vw].nesting_view_id;
        proof {
            assert(in_up_chain(views@, vw as int, target as int, fuel) == in_up_chain(
                views@,
                parent as int,
                target as int,
                (fuel - 1) as nat,
            ));
            assert(view_reaches_root(views@, parent as int, (fuel - 1) as nat));
            if parent != 0 && parent as int >= views@.len() {
                assert(!view_reaches_root(views@, parent as int, (fuel - 1) as nat));
            }
            fuel = (fuel - 1) as nat;
        }
        vw = parent;
        if vw == target {
            return true;
        }
        if vw == 0 {
            return false;
        }
    }
}

impl Cx {
    /// Whether `view_id` must re-run its draw this frame: the
    /// child-propagating set holds `All`, the view, or a descendant of it,
    /// or the parent-propagating set holds `All`, the view, or an ancestor
    /// of it.
    pub fn view_will_redraw(&self, view_id: usize) -> (r: bool)
        requires
            views_wf(self.views@),
        ensures
            r == spec_view_will_redraw(*self, view_id as int),
    {
        let n = self._redraw_child_areas.len();
        let mut i: usize = 0;
        while i < n
            invariant
                i <= n,
                n == self._redraw_child_areas@.len(),
                views_wf(self.views@),
                forall|k: int|
                    0 <= k < i ==> !area_hits_down(
                        self.views@,
                        #[trigger] self._redraw_child_areas@[k],
                        view_id as int,
                    ),
            decreases n - i,
        {
            let hit = match self._redraw_child_areas[i] {
                Area::All => true,
                Area::Empty => false,
                Area::View(va) => chain_hits(&self.views, va.view_id, view_id),
                Area::Instance(ia) => chain_hits(&self.views, ia.view_id, view_id),
            };
            if hit {
                return true;
            }
            i += 1;
        }
        let m = self._redraw_parent_areas.len();
        let mut j: usize = 0;
        while j < m
            invariant
                j <= m,
                m == self._redraw_parent_areas@.len(),
                views_wf(self.views@),
                forall|k: int|
                    0 <= k < self._redraw_child_areas@.len() ==> !area_hits_down(
                        self.views@,
                        #[trigger] self._redraw_child_areas@[k],
                        view_id as int,
                    ),
                forall|k: int|
                    0 <= k < j ==> !area_hits_up(
                        self.views@,
                        #[trigger] self._redraw_parent_areas@[k],
                        view_id as int,
                    ),
            decreases m - j,
        {
            let hit = match self._redraw_parent_areas[j] {
                Area::All => true,
                Area::Empty => false,
                Area::View(va) => chain_hits(&self.views, view_id, va.view_id),
                Area::Instance(ia) => chain_hits(&self.views, view_id, ia.view_id),
            };
            if hit {
                return true;
            }
            j += 1;
        }
        false
    }
}

/// Law: a view's direct parent lies on its upward chain, so dirtying a
/// parent (or any ancestor) is seen by the chain walk.
pub proof fn lemma_parent_in_up_chain(views: Seq<CxView>, c: int)
    requires
        0 < c < views.len(),
    ensures
        in_up_chain(views, c, views[c].nesting_view_id as int, views.len()),
{
    let p = views[c].nesting_view_id as int;
    if c != p {
        assert(in_up_chain(views, p, p, (views.len() - 1) as nat));
    }
}

/// A walk whose fuel already suffices to reach the root gives the same
/// answer at any larger fuel.
proof fn lemma_up_chain_saturates(views: Seq<CxView>, a: int, c: int, f1: nat, f2: nat)
    requires
        view_reaches_root(views, a, f1),
        f1 <= f2,
    ensures
        in_up_chain(views, a, c, f1) == in_up_chain(views, a, c, f2),
    decreases f1,
{
    if a == c {
    } else if a == 0 {
    } else {
        lemma_up_chain_saturates(
            views,
            views[a].nesting_view_id as int,
            c,
            (f1 - 1) as nat,
            (f2 - 1) as nat,
        );
    }
}

/// Law: the chain walk composes under well-formedness, so any transitive
/// ancestor is reached.
pub proof fn lemma_up_chain_trans(views: Seq<CxView>, a: int, b: int, c: int, f: nat)
    requires
        views_wf(views),
        in_up_chain(views, a, b, f),
        in_up_chain(views, b, c, views.len()),
    ensures
        in_up_chain(views, a, c, views.len()),
    decreases f,
{
    if a == b {
    } else {
        let p = views[a].nesting_view_id as int;
        lemma_up_chain_trans(views, p, b, c, (f - 1) as nat);
        if a != c {
            assert(view_reaches_root(views, a, views.len()));
            lemma_up_chain_saturates(views, p, c, (views.len() - 1) as nat, views.len());
        }
    }
}

/// Place a dirty pass in the repaint to-do list: immediately before the
/// first occurrence of the pass it depends on, or at the end when that
/// dependency is not queued.
pub open spec fn todo_insert_dep(todo: Seq<usize>, pass_id: usize, dep: usize) -> Seq<usize>
    decreases todo.len(),
{
    if todo.len() == 0 {
        seq![pass_id]
    } else if todo[0] == dep {
        seq![pass_id] + todo
    } else {
        seq![todo[0]] + todo_insert_dep(todo.skip(1), pass_id, dep)
    }
}

/// The repaint to-do list after considering the first `n` passes: every
/// dirty pass is queued; one that depends on another pass is queued ahead
/// of its dependency when the dependency is already present.
pub open spec fn spec_passes_todo(passes: Seq<CxPass>, n: int) -> Seq<usize>
    decreases n,
{
    if n <= 0 {
        Seq::empty()
    } else {
        let prev = spec_passes_todo(passes, n - 1);
        let p = passes[n - 1];
        if p.paint_dirty {
            match p.dep_of {
                CxPassDepOf::Pass(d) => todo_insert_dep(prev, (n - 1) as usize, d),
                _ => prev.push((n - 1) as usize),
            }
        } else {
            prev
        }
    }
}

/// How many of the first `n` passes are dirty and depend directly on a
/// window.
pub open spec fn spec_windows_to_repaint(passes: Seq<CxPass>, n: int) -> nat
    decreases n,
{
    if n <= 0 {
        0
    } else {
        spec_windows_to_repaint(passes, n - 1) + (
        if passes[n - 1].paint_dirty && passes[n - 1].dep_of is Window {
            1nat
        } else {
            0nat
        })
    }
}

proof fn lemma_windows_to_repaint_bound(passes: Seq<CxPass>, n: int)
    ensures
        spec_windows_to_repaint(passes, n) <= (if n >= 0 { n } else { 0 }),
    decreases n,
{
    if n > 0 {
        lemma_windows_to_repaint_bound(passes, n - 1);
    }
}

/// Inserting before a queued dependency lands exactly at its first index.
proof fn lemma_todo_insert_at(todo: Seq<usize>, pass_id: usize, dep: usize, k: int)
    requires
        0 <= k < todo.len(),
        todo[k] == dep,
        forall|j: int| 0 <= j < k ==> todo[j] != dep,
    ensures
        todo_insert_dep(todo, pass_id, dep) == todo.insert(k, pass_id),
    decreases k,
{
    if k == 0 {
        assert(seq![pass_id] + todo =~= todo.insert(0, pass_id));
    } else {
        lemma_todo_insert_at(todo.skip(1), pass_id, dep, k - 1);
        assert(seq![todo[0]] + todo.skip(1).insert(k - 1, pass_id) =~= todo.insert(k, pass_id));
    }
}

/// With the dependency absent, the pass is appended.
proof fn lemma_todo_insert_none(todo: Seq<usize>, pass_id: usize, dep: usize)
    requires
        forall|j: int| 0 <= j < todo.len() ==> todo[j] != dep,
    ensures
        todo_insert_dep(todo, pass_id, dep) == todo.push(pass_id),
    decreases todo.len(),
{
    if todo.len() == 0 {
        assert(seq![pass_id] =~= todo.push(pass_id));
    } else {
        lemma_todo_insert_none(todo.skip(1), pass_id, dep);
        assert(seq![todo[0]] + todo.skip(1).push(pass_id) =~= todo.push(pass_id));
    }
}

/// The first index holding `x`, if any.
fn find_first_index(v: &Vec<usize>, x: usize) -> (r: Option<usize>)
    ensures
        (match r {
            Option::Some(k) => k < v@.len() && v@[k as int] == x && forall|j: int|
                0 <= j < k ==> v@[j] != x,
            Option::None => forall|j: int| 0 <= j < v@.len() ==> v@[j] != x,
        }),
{
    let n = v.len();
    let mut k: usize = 0;
    while k < n
        invariant
            k <= n,
            n == v@.len(),
            forall|j: int| 0 <= j < k ==> v@[j] != x,
        decreases n - k,
    {
        if v[k] == x {
            return Option::Some(k);
        }
        k += 1;
    }
    Option::None
}

impl Cx {
    /// Select the passes to resubmit this frame: clears `passes_todo`, then
    /// queues every pass whose `paint_dirty` flag is set, placing a pass
    /// that depends on another pass ahead of that dependency whenever the
    /// dependency is already queued; counts in `windows_need_repaint` the
    /// dirty passes that render straight to a window.
    pub fn compute_passes_to_repaint(
        &mut self,
        passes_todo: &mut Vec<usize>,
        windows_need_repaint: &mut usize,
    )
        requires
            *old(windows_need_repaint) + old(self).passes@.len() <= usize::MAX,
        ensures
            final(passes_todo)@ == spec_passes_todo(
                old(self).passes@,
                old(self).passes@.len() as int,
            ),
            *final(windows_need_repaint) == *old(windows_need_repaint)
                + spec_windows_to_repaint(old(self).passes@, old(self).passes@.len() as int),
            *final(self) == *old(self),
    {
        passes_todo.clear();
        let n = self.passes.len();
        let mut pass_id: usize = 0;
        while pass_id < n
            invariant
                pass_id <= n,
                n == self.passes@.len(),
                *self == *old(self),
                passes_todo@ == spec_passes_todo(self.passes@, pass_id as int),
                *windows_need_repaint == *old(windows_need_repaint) + spec_windows_to_repaint(
                    self.passes@,
                    pass_id as int,
                ),
                *old(windows_need_repaint) + n <= usize::MAX,
            decreases n - pass_id,
        {
            proof {
                lemma_windows_to_repaint_bound(self.passes@, pass_id as int);
            }
            if self.passes[pass_id].paint_dirty {
                match self.passes[pass_id].dep_of {
                    CxPassDepOf::Window(_) => {
                        *windows_need_repaint += 1;
                        passes_todo.push(pass_id);
                    },
                    CxPassDepOf::Pass(dep_of_pass_id) => {
                        match find_first_index(passes_todo, dep_of_pass_id) {
                            Option::Some(k) => {
                                proof {
                                    lemma_todo_insert_at(
                                        passes_todo@,
                                        pass_id,
                                        dep_of_pass_id,
                                        k as int,
                                    );
                                }
                                passes_todo.insert(k, pass_id);
                            },
                            Option::None => {
                                proof {
                                    lemma_todo_insert_none(passes_todo@, pass_id, dep_of_pass_id);
                                }
                                passes_todo.push(pass_id);
                            },
                        }
                    },
                    CxPassDepOf::Unattached => {
                        passes_todo.push(pass_id);
                    },
                }
            }
            pass_id += 1;
        }
    }
}

/// Maximum number of pass-to-pass hops the dpi delegation follows before
/// giving up with the default factor (a guard against broken chains).
pub const DPI_MAX_HOPS: usize = 25;

/// The dpi factor a pass delegates to: the factor of the window at the end
/// of its dependency chain, or the default when the chain leaves the arena,
/// ends unattached, or exceeds `fuel` hops.
pub open spec fn spec_delegated_dpi(
    passes: Seq<CxPass>,
    windows: Seq<CxWindow>,
    p: int,
    fuel: nat,
) -> u64
    decreases fuel,
{
    if fuel == 0 || !(0 <= p < passes.len()) {
        DPI_FACTOR_ONE
    } else {
        match passes[p].dep_of {
            CxPassDepOf::Window(w) => if 0 <= w < windows.len() {
                windows[w as int].window_geom.dpi_factor
            } else {
                DPI_FACTOR_ONE
            },
            CxPassDepOf::Pass(q) => spec_delegated_dpi(passes, windows, q as int, (fuel - 1) as nat),
            CxPassDepOf::Unattached => DPI_FACTOR_ONE,
        }
    }
}

/// The parent-dirty marks laid down by walking a pass dependency chain: the
/// main view of every pass along the chain, in walk order.
pub open spec fn spec_redraw_chain(
    passes: Seq<CxPass>,
    p: int,
    fuel: nat,
    areas: Seq<Area>,
) -> Seq<Area>
    decreases fuel,
{
    if !(0 <= p < passes.len()) {
        areas
    } else {
        let marked = match passes[p].main_view_id {
            Option::Some(v) => dirty_insert(areas, Area::View(ViewArea { view_id: v })),
            Option::None => areas,
        };
        match passes[p].dep_of {
            CxPassDepOf::Pass(q) => if fuel > 0 {
                spec_redraw_chain(passes, q as int, (fuel - 1) as nat, marked)
            } else {
                marked
            },
            _ => marked,
        }
    }
}

/// The parent-dirty marks laid down by the depth-first walk over a pass and
/// all passes that transitively depend on it.
pub open spec fn spec_redraw_sub(
    passes: Seq<CxPass>,
    p: int,
    areas: Seq<Area>,
    fuel: nat,
) -> Seq<Area>
    decreases fuel, passes.len() + 1,
{
    if !(0 <= p < passes.len()) {
        areas
    } else {
        let marked = match passes[p].main_view_id {
            Option::Some(v) => dirty_insert(areas, Area::View(ViewArea { view_id: v })),
            Option::None => areas,
        };
        spec_redraw_sub_scan(passes, p, 0, marked, fuel)
    }
}

/// Helper of [`spec_redraw_sub`]: scan passes `i..` for direct dependents of
/// `p` and recurse into each.
pub open spec fn spec_redraw_sub_scan(
    passes: Seq<CxPass>,
    p: int,
    i: int,
    areas: Seq<Area>,
    fuel: nat,
) -> Seq<Area>
    decreases fuel, passes.len() - i,
{
    if i < 0 || i >= passes.len() {
        areas
    } else {
        let is_sub = match passes[i].dep_of {
            CxPassDepOf::Pass(d) => d as int == p,
            _ => false,
        };
        let a2 = if is_sub && fuel > 0 {
            spec_redraw_sub(passes, i, areas, (fuel - 1) as nat)
        } else {
            areas
        };
        spec_redraw_sub_scan(passes, p, i + 1, a2, fuel)
    }
}

/// A direct dependent sits one hop deeper in the chain than the pass it
/// depends on.
proof fn lemma_sub_depth(passes: Seq<CxPass>, p: int, q: int)
    requires
        0 <= q < passes.len(),
        passes[q].dep_of == CxPassDepOf::Pass(p as usize),
        0 <= p < passes.len(),
        p as usize as int == p,
        pass_chain_ends(passes, q, passes.len()),
    ensures
        pass_chain_depth(passes, q, passes.len()) == pass_chain_depth(
            passes,
            p,
            passes.len(),
        ) + 1,
        pass_chain_depth(passes, q, passes.len()) <= passes.len(),
{
    let n = passes.len();
    assert(pass_chain_ends(passes, p, (n - 1) as nat));
    lemma_pass_chain_fuel(passes, p, (n - 1) as nat, n);
    lemma_pass_chain_fuel(passes, q, n, n);
}

/// The marks of every window's main pass chain, window by window: what a
/// full-surface redraw lays down.
pub open spec fn spec_redraw_all_windows(
    windows: Seq<CxWindow>,
    passes: Seq<CxPass>,
    n: int,
    areas: Seq<Area>,
) -> Seq<Area>
    decreases n,
{
    if n <= 0 {
        areas
    } else {
        let prev = spec_redraw_all_windows(windows, passes, n - 1, areas);
        let w = windows[n - 1];
        if w.spec_is_active() {
            match w.main_pass_id {
                Option::Some(p) => spec_redraw_chain(passes, p as int, passes.len(), prev),
                Option::None => prev,
            }
        } else {
            prev
        }
    }
}

/// Whether the views an area points at exist and name a pass in range.
pub open spec fn area_pass_ok(cx: Cx, area: Area) -> bool {
    match area.spec_view_id() {
        Option::Some(v) => v < cx.views@.len() && cx.views@[v as int].pass_id < cx.passes@.len(),
        Option::None => true,
    }
}

impl Cx {
    /// The dpi factor of the window a pass ultimately renders into,
    /// following up to [`DPI_MAX_HOPS`] pass-to-pass hops; the default
    /// factor when no window is reached.
    pub fn get_delegated_dpi_factor(&mut self, pass_id: usize) -> (dpi: u64)
        ensures
            dpi == spec_delegated_dpi(
                old(self).passes@,
                old(self).windows@,
                pass_id as int,
                DPI_MAX_HOPS as nat,
            ),
            *final(self) == *old(self),
    {
        let mut walk: usize = pass_id;
        let mut hops: usize = 0;
        loop
            invariant
                hops <= DPI_MAX_HOPS,
                *self == *old(self),
                spec_delegated_dpi(
                    self.passes@,
                    self.windows@,
                    pass_id as int,
                    DPI_MAX_HOPS as nat,
                ) == spec_delegated_dpi(
                    self.passes@,
                    self.windows@,
                    walk as int,
                    (DPI_MAX_HOPS - hops) as nat,
                ),
            decreases DPI_MAX_HOPS - hops,
        {
            if hops == DPI_MAX_HOPS || walk >= self.passes.len() {
                return DPI_FACTOR_ONE;
            }
            match self.passes[walk].dep_of {
                CxPassDepOf::Window(w) => {
                    if w < self.windows.len() {
                        return self.windows[w].window_geom.dpi_factor;
                    } else {
                        return DPI_FACTOR_ONE;
                    }
                },
                CxPassDepOf::Pass(q) => {
                    walk = q;
                    hops += 1;
                },
                CxPassDepOf::Unattached => {
                    return DPI_FACTOR_ONE;
                },
            }
        }
    }

    /// The dpi factor delegated by the pass an area's view belongs to; the
    /// default factor for the sentinels or a dangling view.
    pub fn get_dpi_factor_of(&mut self, area: Area) -> (dpi: u64)
        ensures
            dpi == (match area.spec_view_id() {
                Option::Some(v) => if v < old(self).views@.len() {
                    spec_delegated_dpi(
                        old(self).passes@,
                        old(self).windows@,
                        old(self).views@[v as int].pass_id as int,
                        DPI_MAX_HOPS as nat,
                    )
                } else {
                    DPI_FACTOR_ONE
                },
                Option::None => DPI_FACTOR_ONE,
            }),
            *final(self) == *old(self),
    {
        let view_id = match &area {
            Area::Instance(ia) => ia.view_id,
            Area::View(va) => va.view_id,
            _ => {
                return DPI_FACTOR_ONE;
            },
        };
        if view_id >= self.views.len() {
            return DPI_FACTOR_ONE;
        }
        let pass_id = self.views[view_id].pass_id;
        self.get_delegated_dpi_factor(pass_id)
    }

    /// Mark parent-dirty the main view of `pass_id` and of every pass its
    /// dependency chain runs through up to the window.
    pub fn redraw_pass_and_dep_of_passes(&mut self, pass_id: usize)
        requires
            !old(self).panic_redraw,
            pass_id < old(self).passes@.len(),
            cx_passes_wf(*old(self)),
        ensures
            final(self).redraw_parent_areas@ == spec_redraw_chain(
                old(self).passes@,
                pass_id as int,
                old(self).passes@.len() as nat,
                old(self).redraw_parent_areas@,
            ),
            *final(self) == (Cx {
                redraw_parent_areas: final(self).redraw_parent_areas,
                ..*old(self)
            }),
    {
        proof {
            assert(pass_chain_ends(old(self).passes@, pass_id as int, old(self).passes@.len()));
        }
        let ghost fuel: nat = self.passes@.len() as nat;
        self.redraw_chain_helper(pass_id, Ghost(fuel));
    }

    /// Walk one dependency chain, marking main views; `fuel` bounds the walk
    /// and is justified by the chain's termination.
    fn redraw_chain_helper(&mut self, pass_id: usize, Ghost(fuel): Ghost<nat>)
        requires
            !old(self).panic_redraw,
            pass_chain_ends(old(self).passes@, pass_id as int, fuel),
        ensures
            final(self).redraw_parent_areas@ == spec_redraw_chain(
                old(self).passes@,
                pass_id as int,
                fuel,
                old(self).redraw_parent_areas@,
            ),
            *final(self) == (Cx {
                redraw_parent_areas: final(self).redraw_parent_areas,
                ..*old(self)
            }),
        decreases fuel,
    {
        match self.passes[pass_id].main_view_id {
            Option::Some(main_view_id) => {
                self.redraw_parent_area(Area::view(main_view_id));
            },
            Option::None => {},
        }
        match self.passes[pass_id].dep_of {
            CxPassDepOf::Pass(next_pass_id) => {
                self.redraw_chain_helper(next_pass_id, Ghost((fuel - 1) as nat));
            },
            _ => {},
        }
    }

    /// Mark parent-dirty the main views of the passes of every active
    /// window's dependency chain (`Area::All`), of the pass an area's view
    /// belongs to (view or instance areas), or nothing (`Empty`).
    pub fn redraw_pass_of(&mut self, area: Area)
        requires
            !old(self).panic_redraw,
            cx_passes_wf(*old(self)),
            cx_windows_wf(*old(self)),
            area_pass_ok(*old(self), area),
        ensures
            final(self).redraw_parent_areas@ == (match area {
                Area::All => spec_redraw_all_windows(
                    old(self).windows@,
                    old(self).passes@,
                    old(self).windows@.len() as int,
                    old(self).redraw_parent_areas@,
                ),
                Area::Empty => old(self).redraw_parent_areas@,
                Area::View(va) => spec_redraw_chain(
                    old(self).passes@,
                    old(self).views@[va.view_id as int].pass_id as int,
                    old(self).passes@.len() as nat,
                    old(self).redraw_parent_areas@,
                ),
                Area::Instance(ia) => spec_redraw_chain(
                    old(self).passes@,
                    old(self).views@[ia.view_id as int].pass_id as int,
                    old(self).passes@.len() as nat,
                    old(self).redraw_parent_areas@,
                ),
            }),
            *final(self) == (Cx {
                redraw_parent_areas: final(self).redraw_parent_areas,
                ..*old(self)
            }),
    {
        match area {
            Area::All => {
                let n = self.windows.len();
                let mut window_id: usize = 0;
                while window_id < n
                    invariant
                        window_id <= n,
                        n == self.windows@.len(),
                        !self.panic_redraw,
                        cx_passes_wf(*self),
                        cx_windows_wf(*self),
                        self.windows == old(self).windows,
                        self.passes == old(self).passes,
                        self.redraw_parent_areas@ == spec_redraw_all_windows(
                            old(self).windows@,
                            old(self).passes@,
                            window_id as int,
                            old(self).redraw_parent_areas@,
                        ),
                        *self == (Cx {
                            redraw_parent_areas: self.redraw_parent_areas,
                            ..*old(self)
                        }),
                    decreases n - window_id,
                {
                    let redraw = match self.windows[window_id].window_state {
                        crate::viewpass::CxWindowState::Create { .. } => true,
                        crate::viewpass::CxWindowState::Created => true,
                        _ => false,
                    };
                    if redraw {
                        match self.windows[window_id].main_pass_id {
                            Option::Some(pass_id) => {
                                self.redraw_pass_and_dep_of_passes(pass_id);
                            },
                            Option::None => {},
                        }
                    }
                    window_id += 1;
                }
            },
            Area::Empty => {},
            Area::Instance(instance) => {
                let pass_id = self.views[instance.view_id].pass_id;
                self.redraw_pass_and_dep_of_passes(pass_id);
            },
            Area::View(viewarea) => {
                let pass_id = self.views[viewarea.view_id].pass_id;
                self.redraw_pass_and_dep_of_passes(pass_id);
            },
        }
    }

    /// Mark parent-dirty the main view of `pass_id` and, depth first, of
    /// every pass that transitively depends on it.
    pub fn redraw_pass_and_sub_passes(&mut self, pass_id: usize)
        requires
            !old(self).panic_redraw,
            pass_id < old(self).passes@.len(),
            cx_passes_wf(*old(self)),
        ensures
            final(self).redraw_parent_areas@ == spec_redraw_sub(
                old(self).passes@,
                pass_id as int,
                old(self).redraw_parent_areas@,
                old(self).passes@.len() as nat,
            ),
            *final(self) == (Cx {
                redraw_parent_areas: final(self).redraw_parent_areas,
                ..*old(self)
            }),
    {
        proof {
            assert(pass_chain_ends(old(self).passes@, pass_id as int, old(self).passes@.len()));
            lemma_pass_chain_fuel(
                old(self).passes@,
                pass_id as int,
                old(self).passes@.len(),
                old(self).passes@.len(),
            );
        }
        let ghost fuel: nat = self.passes@.len() as nat;
        self.redraw_sub_helper(pass_id, Ghost(fuel));
    }

    /// Depth-first walk of the dependents of `pass_id`; `fuel` bounds the
    /// recursion and always covers the remaining depth.
    fn redraw_sub_helper(&mut self, pass_id: usize, Ghost(fuel): Ghost<nat>)
        requires
            !old(self).panic_redraw,
            pass_id < old(self).passes@.len(),
            cx_passes_wf(*old(self)),
            fuel >= old(self).passes@.len() - pass_chain_depth(
                old(self).passes@,
                pass_id as int,
                old(self).passes@.len(),
            ),
        ensures
            final(self).redraw_parent_areas@ == spec_redraw_sub(
                old(self).passes@,
                pass_id as int,
                old(self).redraw_parent_areas@,
                fuel,
            ),
            *final(self) == (Cx {
                redraw_parent_areas: final(self).redraw_parent_areas,
                ..*old(self)
            }),
        decreases fuel,
    {
        match self.passes[pass_id].main_view_id {
            Option::Some(main_view_id) => {
                self.redraw_parent_area(Area::view(main_view_id));
            },
            Option::None => {},
        }
        let n = self.passes.len();
        let mut sub_pass_id: usize = 0;
        while sub_pass_id < n
            invariant
                sub_pass_id <= n,
                n == self.passes@.len(),
                !self.panic_redraw,
                cx_passes_wf(*self),
                pass_id < n,
                self.passes == old(self).passes,
                fuel >= n - pass_chain_depth(self.passes@, pass_id as int, self.passes@.len()),
                spec_redraw_sub_scan(
                    old(self).passes@,
                    pass_id as int,
                    sub_pass_id as int,
                    self.redraw_parent_areas@,
                    fuel,
                ) == spec_redraw_sub(
                    old(self).passes@,
                    pass_id as int,
                    old(self).redraw_parent_areas@,
                    fuel,
                ),
                *self == (Cx { redraw_parent_areas: self.redraw_parent_areas, ..*old(self) }),
            decreases n - sub_pass_id,
        {
            let is_sub = match self.passes[sub_pass_id].dep_of {
                CxPassDepOf::Pass(dep_pass_id) => dep_pass_id == pass_id,
                _ => false,
            };
            if is_sub {
                proof {
                    assert(pass_chain_ends(self.passes@, sub_pass_id as int, self.passes@.len()));
                    lemma_sub_depth(self.passes@, pass_id as int, sub_pass_id as int);
                }
                self.redraw_sub_helper(sub_pass_id, Ghost((fuel - 1) as nat));
            }
            sub_pass_id += 1;
        }
    }
}

/// Law: a dirty descendant in the child-propagating set makes the ancestor
/// view redraw.
pub proof fn lemma_descendant_dirty_redraws(cx: Cx, v: usize, d: usize)
    requires
        in_up_chain(cx.views@, d as int, v as int, cx.views@.len()),
        cx._redraw_child_areas@.contains(Area::View(ViewArea { view_id: d })),
    ensures
        spec_view_will_redraw(cx, v as int),
{
    let i = choose|i: int|
        0 <= i < cx._redraw_child_areas@.len() && cx._redraw_child_areas@[i] == Area::View(
            ViewArea { view_id: d },
        );
    assert(area_hits_down(cx.views@, cx._redraw_child_areas@[i], v as int));
}

/// Law: a dirty ancestor in the parent-propagating set makes the descendant
/// view redraw.
pub proof fn lemma_ancestor_dirty_redraws(cx: Cx, v: usize, a: usize)
    requires
        in_up_chain(cx.views@, v as int, a as int, cx.views@.len()),
        cx._redraw_parent_areas@.contains(Area::View(ViewArea { view_id: a })),
    ensures
        spec_view_will_redraw(cx, v as int),
{
    let i = choose|i: int|
        0 <= i < cx._redraw_parent_areas@.len() && cx._redraw_parent_areas@[i] == Area::View(
            ViewArea { view_id: a },
        );
    assert(area_hits_up(cx.views@, cx._redraw_parent_areas@[i], v as int));
}

} // verus!
