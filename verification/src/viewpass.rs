//! The view tree and the render-pass DAG: nodes of the draw hierarchy, pass
//! dependency edges, and the well-formedness conditions the scheduler's
//! chain walks rely on.

use vstd::prelude::*;
use crate::geom::{Vec2I, RectI};

verus! {

/// A node of the draw hierarchy. `nesting_view_id` is its single parent; the
/// chain of parents must reach the root view (index 0) in bounded depth.
#[derive(Clone, PartialEq, Eq, Structural, Debug)]
pub struct CxView {
    pub nesting_view_id: usize,
    pub pass_id: usize,
    pub rect: RectI,
    pub scroll: Vec2I,
}

/// What a render pass depends on: a window, another pass, or nothing yet.
#[derive(Clone, Copy, PartialEq, Eq, Structural, Debug)]
pub enum CxPassDepOf {
    Window(usize),
    Pass(usize),
    Unattached,
}

/// A render target. `paint_dirty` marks that the pass must be resubmitted to
/// the GPU this frame.
#[derive(Clone, Copy, PartialEq, Eq, Structural, Debug)]
pub struct CxPass {
    pub main_view_id: Option<usize>,
    pub dep_of: CxPassDepOf,
    pub paint_dirty: bool,
}

/// Lifecycle of a platform window.
#[derive(Clone, PartialEq, Eq, Debug)]
pub enum CxWindowState {
    Create { title: String, inner_size: Vec2I, position: Option<Vec2I> },
    Created,
    CloseRequested,
    Closed,
}

/// Platform geometry of a window; `dpi_factor` is in thousandths, so 1000
/// stands for a scale of one.
#[derive(Clone, Copy, PartialEq, Eq, Structural, Debug)]
pub struct WindowGeom {
    pub dpi_factor: u64,
    pub position: Vec2I,
    pub inner_size: Vec2I,
}

#[derive(Clone, PartialEq, Eq, Debug)]
pub struct CxWindow {
    pub window_state: CxWindowState,
    pub window_geom: WindowGeom,
    pub main_pass_id: Option<usize>,
}

impl CxWindow {
    /// Windows being created or already created take part in redraw.
    pub open spec fn spec_is_active(self) -> bool {
        match self.window_state {
            CxWindowState::Create { .. } => true,
            CxWindowState::Created => true,
            _ => false,
        }
    }
}

/// The parent chain starting at `v` reaches the root view 0 within `fuel`
/// steps, staying inside the arena.
pub open spec fn view_reaches_root(views: Seq<CxView>, v: int, fuel: nat) -> bool
    decreases fuel,
{
    if v == 0 {
        true
    } else if fuel == 0 || !(0 <= v < views.len()) {
        false
    } else {
        view_reaches_root(views, views[v].nesting_view_id as int, (fuel - 1) as nat)
    }
}

/// The view arena is well formed: every node's parent chain terminates at the
/// root within as many steps as there are views (so there are no cycles and
/// no out-of-range parents).
pub open spec fn views_wf(views: Seq<CxView>) -> bool {
    forall|i: int| 0 <= i < views.len() ==> #[trigger] view_reaches_root(views, i, views.len())
}

/// Walking the parent chain up from `from` hits `target` within `fuel` steps.
/// An out-of-range or root start hits only itself.
pub open spec fn in_up_chain(views: Seq<CxView>, from: int, target: int, fuel: nat) -> bool
    decreases fuel,
{
    if from == target {
        true
    } else if from == 0 || fuel == 0 || !(0 <= from < views.len()) {
        false
    } else {
        in_up_chain(views, views[from].nesting_view_id as int, target, (fuel - 1) as nat)
    }
}

/// The dependency chain starting at pass `p` leaves the `Pass` edges within
/// `fuel` hops, staying inside the arena.
pub open spec fn pass_chain_ends(passes: Seq<CxPass>, p: int, fuel: nat) -> bool
    decreases fuel,
{
    if !(0 <= p < passes.len()) {
        false
    } else {
        match passes[p].dep_of {
            CxPassDepOf::Pass(q) => fuel > 0 && pass_chain_ends(passes, q as int, (fuel - 1) as nat),
            _ => true,
        }
    }
}

/// How many `Pass` hops lie between `p` and the end of its chain.
pub open spec fn pass_chain_depth(passes: Seq<CxPass>, p: int, fuel: nat) -> nat
    decreases fuel,
{
    if !(0 <= p < passes.len()) || fuel == 0 {
        0
    } else {
        match passes[p].dep_of {
            CxPassDepOf::Pass(q) => 1 + pass_chain_depth(passes, q as int, (fuel - 1) as nat),
            _ => 0,
        }
    }
}

/// The pass DAG is well formed: every dependency edge stays inside the
/// arenas and every chain of `Pass` edges terminates.
pub open spec fn passes_wf(passes: Seq<CxPass>, windows_len: int, views_len: int) -> bool {
    forall|i: int| 0 <= i < passes.len() ==> {
        &&& match (#[trigger] passes[i]).dep_of {
            CxPassDepOf::Window(w) => 0 <= w < windows_len,
            CxPassDepOf::Pass(q) => 0 <= q < passes.len(),
            CxPassDepOf::Unattached => true,
        }
        &&& match passes[i].main_view_id {
            Option::Some(v) => 0 <= v < views_len,
            Option::None => true,
        }
        &&& pass_chain_ends(passes, i, passes.len())
    }
}

/// A terminating chain's depth is the same at any sufficient fuel.
pub proof fn lemma_pass_chain_fuel(passes: Seq<CxPass>, p: int, f1: nat, f2: nat)
    requires
        pass_chain_ends(passes, p, f1),
        f1 <= f2,
    ensures
        pass_chain_ends(passes, p, f2),
        pass_chain_depth(passes, p, f1) == pass_chain_depth(passes, p, f2),
        pass_chain_depth(passes, p, f1) <= f1,
    decreases f1,
{
    if 0 <= p < passes.len() {
        match passes[p].dep_of {
            CxPassDepOf::Pass(q) => {
                lemma_pass_chain_fuel(passes, q as int, (f1 - 1) as nat, (f2 - 1) as nat);
            },
            _ => {},
        }
    }
}

} // verus!
