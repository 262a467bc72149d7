use uicore::area::{Area, ViewArea};
use uicore::cx::{Cx, DPI_FACTOR_ONE};
use uicore::geom::{Vec2I, RectI};
use uicore::viewpass::{CxView, CxPass, CxPassDepOf, CxWindow, CxWindowState, WindowGeom};

fn plain_view(nesting: usize, pass: usize) -> CxView {
    CxView {
        nesting_view_id: nesting,
        pass_id: pass,
        rect: RectI { x: 0, y: 0, w: 0, h: 0 },
        scroll: Vec2I { x: 0, y: 0 },
    }
}

fn plain_pass(main_view_id: Option<usize>, dep_of: CxPassDepOf, dirty: bool) -> CxPass {
    CxPass { main_view_id, dep_of, paint_dirty: dirty }
}

fn plain_window(main_pass_id: Option<usize>, dpi: u64) -> CxWindow {
    CxWindow {
        window_state: CxWindowState::Created,
        window_geom: WindowGeom {
            dpi_factor: dpi,
            position: Vec2I { x: 0, y: 0 },
            inner_size: Vec2I { x: 800, y: 600 },
        },
        main_pass_id,
    }
}

/// root (0) -> a (1) -> b (2): a three-level nesting chain.
fn chain_cx() -> Cx {
    let mut cx = Cx::default();
    cx.views = vec![plain_view(0, 0), plain_view(0, 0), plain_view(1, 0)];
    cx
}

fn view(id: usize) -> Area {
    Area::View(ViewArea { view_id: id })
}

#[test]
fn descendant_dirty_in_child_set_redraws_ancestor() {
    let mut cx = chain_cx();
    cx._redraw_child_areas = vec![view(2)];
    assert!(cx.view_will_redraw(1));
    assert!(cx.view_will_redraw(0));
    assert!(cx.view_will_redraw(2));
}

#[test]
fn ancestor_dirty_in_child_set_does_not_reach_descendant() {
    let mut cx = chain_cx();
    cx._redraw_child_areas = vec![view(1)];
    assert!(!cx.view_will_redraw(2));
    assert!(cx.view_will_redraw(1));
}

#[test]
fn ancestor_dirty_in_parent_set_redraws_descendant() {
    let mut cx = chain_cx();
    cx._redraw_parent_areas = vec![view(1)];
    assert!(cx.view_will_redraw(2));
    assert!(cx.view_will_redraw(1));
}

#[test]
fn descendant_dirty_in_parent_set_does_not_reach_ancestor() {
    let mut cx = chain_cx();
    cx._redraw_parent_areas = vec![view(2)];
    assert!(!cx.view_will_redraw(1));
    assert!(!cx.view_will_redraw(0));
}

#[test]
fn all_in_either_set_redraws_everything() {
    let mut cx = chain_cx();
    cx._redraw_child_areas = vec![Area::All];
    assert!(cx.view_will_redraw(2));
    let mut cx2 = chain_cx();
    cx2._redraw_parent_areas = vec![Area::All];
    assert!(cx2.view_will_redraw(0));
    let cx3 = chain_cx();
    assert!(!cx3.view_will_redraw(0));
}

#[test]
fn dependent_pass_is_queued_ahead_of_its_dependency() {
    let mut cx = Cx::default();
    cx.windows = vec![plain_window(Some(0), DPI_FACTOR_ONE)];
    cx.passes = vec![
        plain_pass(None, CxPassDepOf::Window(0), true),
        plain_pass(None, CxPassDepOf::Pass(0), true),
    ];
    let mut todo: Vec<usize> = Vec::new();
    let mut windows_need_repaint: usize = 0;
    cx.compute_passes_to_repaint(&mut todo, &mut windows_need_repaint);
    assert_eq!(todo, vec![1, 0]);
    assert_eq!(windows_need_repaint, 1);
}

#[test]
fn a_chain_of_dependents_queues_deepest_first() {
    let mut cx = Cx::default();
    cx.windows = vec![plain_window(Some(0), DPI_FACTOR_ONE)];
    cx.passes = vec![
        plain_pass(None, CxPassDepOf::Window(0), true),
        plain_pass(None, CxPassDepOf::Pass(0), true),
        plain_pass(None, CxPassDepOf::Pass(1), true),
    ];
    let mut todo: Vec<usize> = Vec::new();
    let mut windows_need_repaint: usize = 0;
    cx.compute_passes_to_repaint(&mut todo, &mut windows_need_repaint);
    assert_eq!(todo, vec![2, 1, 0]);
}

#[test]
fn dependents_seen_before_their_dependency_still_precede_it() {
    // dependency edges point at higher ids, so each dependent is scanned
    // before the pass it depends on is queued and ends up pushed ahead
    let mut cx = Cx::default();
    cx.windows = vec![plain_window(Some(2), DPI_FACTOR_ONE)];
    cx.passes = vec![
        plain_pass(None, CxPassDepOf::Pass(1), true),
        plain_pass(None, CxPassDepOf::Pass(2), true),
        plain_pass(None, CxPassDepOf::Window(0), true),
    ];
    let mut todo: Vec<usize> = Vec::new();
    let mut windows_need_repaint: usize = 0;
    cx.compute_passes_to_repaint(&mut todo, &mut windows_need_repaint);
    assert_eq!(todo, vec![0, 1, 2]);
    assert_eq!(windows_need_repaint, 1);
}

#[test]
fn clean_passes_are_skipped_entirely() {
    let mut cx = Cx::default();
    cx.windows = vec![plain_window(Some(0), DPI_FACTOR_ONE)];
    cx.passes = vec![
        plain_pass(None, CxPassDepOf::Window(0), false),
        plain_pass(None, CxPassDepOf::Pass(0), true),
        plain_pass(None, CxPassDepOf::Unattached, true),
    ];
    let mut todo: Vec<usize> = vec![99];
    let mut windows_need_repaint: usize = 0;
    cx.compute_passes_to_repaint(&mut todo, &mut windows_need_repaint);
    // the list is rebuilt from scratch; pass 0 is clean, its dependent has
    // no queued dependency and is pushed, as is the unattached pass
    assert_eq!(todo, vec![1, 2]);
    assert_eq!(windows_need_repaint, 0);
}

#[test]
fn dpi_factor_delegates_through_the_pass_chain() {
    let mut cx = Cx::default();
    cx.windows = vec![plain_window(Some(0), 2000)];
    cx.passes = vec![
        plain_pass(None, CxPassDepOf::Window(0), false),
        plain_pass(None, CxPassDepOf::Pass(0), false),
        plain_pass(None, CxPassDepOf::Unattached, false),
    ];
    assert_eq!(cx.get_delegated_dpi_factor(1), 2000);
    assert_eq!(cx.get_delegated_dpi_factor(0), 2000);
    assert_eq!(cx.get_delegated_dpi_factor(2), DPI_FACTOR_ONE);
}

#[test]
fn dpi_factor_gives_up_after_the_hop_limit() {
    let mut cx = Cx::default();
    cx.windows = vec![plain_window(Some(0), 3000)];
    // a chain of 26 passes: pass 25 -> 24 -> ... -> 1 -> 0 -> window
    let mut passes = vec![plain_pass(None, CxPassDepOf::Window(0), false)];
    for i in 1..26 {
        passes.push(plain_pass(None, CxPassDepOf::Pass(i - 1), false));
    }
    cx.passes = passes;
    // 25 pass-to-pass hops exceed the guard; 24 still resolve
    assert_eq!(cx.get_delegated_dpi_factor(25), DPI_FACTOR_ONE);
    assert_eq!(cx.get_delegated_dpi_factor(24), 3000);
}

#[test]
fn dpi_factor_of_area_looks_through_the_view() {
    let mut cx = Cx::default();
    cx.windows = vec![plain_window(Some(0), 1500)];
    cx.passes = vec![plain_pass(None, CxPassDepOf::Window(0), false)];
    cx.views = vec![plain_view(0, 0)];
    assert_eq!(cx.get_dpi_factor_of(view(0)), 1500);
    assert_eq!(cx.get_dpi_factor_of(Area::Empty), DPI_FACTOR_ONE);
    assert_eq!(cx.get_dpi_factor_of(view(42)), DPI_FACTOR_ONE);
}

#[test]
fn redraw_pass_and_dep_of_passes_marks_chain_main_views() {
    let mut cx = Cx::default();
    cx.views = vec![plain_view(0, 0), plain_view(0, 0), plain_view(0, 1)];
    cx.passes = vec![
        plain_pass(Some(1), CxPassDepOf::Window(0), false),
        plain_pass(Some(2), CxPassDepOf::Pass(0), false),
    ];
    cx.windows = vec![plain_window(Some(0), DPI_FACTOR_ONE)];
    cx.redraw_pass_and_dep_of_passes(1);
    assert_eq!(cx.redraw_parent_areas, vec![view(2), view(1)]);
}

#[test]
fn redraw_pass_and_sub_passes_marks_dependents_depth_first() {
    let mut cx = Cx::default();
    cx.views = vec![
        plain_view(0, 0),
        plain_view(0, 0),
        plain_view(0, 1),
        plain_view(0, 2),
    ];
    cx.passes = vec![
        plain_pass(Some(1), CxPassDepOf::Window(0), false),
        plain_pass(Some(2), CxPassDepOf::Pass(0), false),
        plain_pass(Some(3), CxPassDepOf::Pass(1), false),
    ];
    cx.windows = vec![plain_window(Some(0), DPI_FACTOR_ONE)];
    cx.redraw_pass_and_sub_passes(0);
    assert_eq!(cx.redraw_parent_areas, vec![view(1), view(2), view(3)]);
}

#[test]
fn redraw_pass_of_all_walks_active_windows() {
    let mut cx = Cx::default();
    cx.views = vec![plain_view(0, 0), plain_view(0, 0)];
    cx.passes = vec![plain_pass(Some(1), CxPassDepOf::Window(0), false)];
    cx.windows = vec![plain_window(Some(0), DPI_FACTOR_ONE)];
    cx.redraw_pass_of(Area::All);
    assert_eq!(cx.redraw_parent_areas, vec![view(1)]);

    let mut closed = Cx::default();
    closed.views = vec![plain_view(0, 0), plain_view(0, 0)];
    closed.passes = vec![plain_pass(Some(1), CxPassDepOf::Window(0), false)];
    let mut w = plain_window(Some(0), DPI_FACTOR_ONE);
    w.window_state = CxWindowState::Closed;
    closed.windows = vec![w];
    closed.redraw_pass_of(Area::All);
    assert_eq!(closed.redraw_parent_areas, Vec::<Area>::new());
}

#[test]
fn view_slots_recycle_through_the_free_list() {
    let mut cx = Cx::default();
    let a = cx.alloc_view(0, 0);
    assert_eq!(a, 1);
    let b = cx.alloc_view(0, 0);
    assert_eq!(b, 2);
    cx.free_view(a);
    let c = cx.alloc_view(2, 0);
    assert_eq!(c, a);
    assert_eq!(cx.views.len(), 3);
    assert_eq!(cx.views[c].nesting_view_id, 2);
}
