use uicore::area::Area;
use uicore::cx::Cx;
use uicore::dock::{
    Dock, DockItem, DockTab, DockDropKind, DockDropTarget, DockDragEnd, DockTabIdent, DockEvent,
    SplitterAlign, Axis, SPLIT_EVEN, ALPHA_ONE, get_drop_kind, tween_step,
};
use uicore::events::FingerUpEvent;
use uicore::geom::{Vec2I, RectI};

fn tab(title: &str) -> DockTab<u32> {
    DockTab { closeable: true, title: title.to_string(), item: 0 }
}

fn tab_control(current: usize, titles: &[&str]) -> DockItem<u32> {
    DockItem::TabControl { current, tabs: titles.iter().map(|t| tab(t)).collect() }
}

fn splitter(first: DockItem<u32>, last: DockItem<u32>) -> DockItem<u32> {
    DockItem::Splitter {
        align: SplitterAlign::Weighted,
        pos: SPLIT_EVEN,
        axis: Axis::Vertical,
        first: Box::new(first),
        last: Box::new(last),
    }
}

fn titles(item: &DockItem<u32>) -> Vec<String> {
    match item {
        DockItem::TabControl { tabs, .. } => tabs.iter().map(|t| t.title.clone()).collect(),
        _ => panic!("expected a tab control"),
    }
}

#[test]
fn removing_the_last_tab_then_collapsing_promotes_the_sibling() {
    // Splitter{first: TabControl[A, B], last: TabControl[C]}; numbering:
    // splitter 0, first control 1, last control 2
    let tree = splitter(tab_control(0, &["A", "B"]), tab_control(0, &["C"]));
    let (tree, _counter, removed) = tree.recur_remove_tab(2, 0, 0);
    assert_eq!(removed.unwrap().title, "C");
    let (tree, collapsible) = tree.recur_collapse_empty();
    assert!(!collapsible);
    assert_eq!(titles(&tree), vec!["A".to_string(), "B".to_string()]);
}

#[test]
fn removing_the_current_last_tab_steps_current_back() {
    let tree = tab_control(1, &["A", "B"]);
    let (tree, counter, removed) = tree.recur_remove_tab(0, 1, 0);
    assert_eq!(counter, 1);
    assert_eq!(removed.unwrap().title, "B");
    match tree {
        DockItem::TabControl { current, tabs } => {
            assert_eq!(current, 0);
            assert_eq!(tabs.len(), 1);
        },
        _ => panic!("expected a tab control"),
    }
}

#[test]
fn out_of_range_tab_removal_is_a_pure_noop() {
    // the current index is left alone even when it sits on the last tab
    let tree = tab_control(1, &["A", "B"]);
    let (tree, _counter, removed) = tree.recur_remove_tab(0, 9, 0);
    assert!(removed.is_none());
    match tree {
        DockItem::TabControl { current, tabs } => {
            assert_eq!(current, 1);
            assert_eq!(tabs.len(), 2);
        },
        _ => panic!("expected a tab control"),
    }
    let tree2 = tab_control(0, &["A"]);
    let (_tree2, _c, removed2) = tree2.recur_remove_tab(9, 0, 0);
    assert!(removed2.is_none());
}

#[test]
fn collapse_propagates_through_chained_splitters() {
    let tree = splitter(
        splitter(tab_control(0, &[]), tab_control(0, &[])),
        tab_control(0, &["K"]),
    );
    let (tree, collapsible) = tree.recur_collapse_empty();
    assert!(!collapsible);
    assert_eq!(titles(&tree), vec!["K".to_string()]);
}

#[test]
fn drop_point_inside_a_tab_rect_wins_over_the_strip() {
    let tvr = RectI { x: 0, y: 0, w: 300, h: 30 };
    let cdr = RectI { x: 0, y: 30, w: 300, h: 270 };
    let tabs = vec![
        RectI { x: 0, y: 0, w: 100, h: 30 },
        RectI { x: 100, y: 0, w: 100, h: 30 },
    ];
    let pos = Vec2I { x: 150, y: 10 };
    let (kind, rect) = get_drop_kind(pos, Vec2I { x: 50, y: 70 }, tvr, cdr, &tabs);
    assert_eq!(kind, DockDropKind::Tab(1));
    assert_eq!(rect, tabs[1]);
    // outside every tab rect but inside the strip
    let (kind2, rect2) =
        get_drop_kind(Vec2I { x: 250, y: 10 }, Vec2I { x: 50, y: 70 }, tvr, cdr, &tabs);
    assert_eq!(kind2, DockDropKind::TabsView);
    assert_eq!(rect2, tvr);
}

#[test]
fn drop_zones_follow_the_fixed_priority() {
    let tvr = RectI { x: 0, y: 0, w: 300, h: 30 };
    let cdr = RectI { x: 0, y: 30, w: 300, h: 270 };
    let drop = Vec2I { x: 50, y: 70 };
    let none: Vec<RectI> = Vec::new();
    // within drop.y of the content top
    let (top, top_rect) = get_drop_kind(Vec2I { x: 150, y: 60 }, drop, tvr, cdr, &none);
    assert_eq!(top, DockDropKind::Top);
    assert_eq!(top_rect, RectI { x: 0, y: 30, w: 300, h: 135 });
    let (bottom, bottom_rect) = get_drop_kind(Vec2I { x: 150, y: 290 }, drop, tvr, cdr, &none);
    assert_eq!(bottom, DockDropKind::Bottom);
    assert_eq!(bottom_rect, RectI { x: 0, y: 165, w: 300, h: 135 });
    let (left, _r) = get_drop_kind(Vec2I { x: 20, y: 150 }, drop, tvr, cdr, &none);
    assert_eq!(left, DockDropKind::Left);
    let (right, _r) = get_drop_kind(Vec2I { x: 280, y: 150 }, drop, tvr, cdr, &none);
    assert_eq!(right, DockDropKind::Right);
    let (center, center_rect) = get_drop_kind(Vec2I { x: 150, y: 150 }, drop, tvr, cdr, &none);
    assert_eq!(center, DockDropKind::Center);
    assert_eq!(center_rect, cdr);
}

#[test]
fn splicing_at_a_tab_index_focuses_the_last_inserted() {
    let tree = tab_control(0, &["A", "B"]);
    let items = vec![tab("X"), tab("Y")];
    let (tree, _counter, given_back) = tree.recur_split_dock(items, 0, DockDropKind::Tab(1), 0);
    assert!(given_back.is_none());
    match tree {
        DockItem::TabControl { current, tabs } => {
            let names: Vec<String> = tabs.iter().map(|t| t.title.clone()).collect();
            assert_eq!(names, vec!["A", "X", "Y", "B"]);
            assert_eq!(current, 2);
        },
        _ => panic!("expected a tab control"),
    }
}

#[test]
fn splicing_to_a_side_builds_an_even_splitter() {
    let tree = tab_control(1, &["A", "B"]);
    let items = vec![tab("X")];
    let (tree, _counter, _given) = tree.recur_split_dock(items, 0, DockDropKind::Left, 0);
    match tree {
        DockItem::Splitter { align, pos, axis, first, last } => {
            assert_eq!(align, SplitterAlign::Weighted);
            assert_eq!(pos, SPLIT_EVEN);
            assert_eq!(axis, Axis::Vertical);
            assert_eq!(titles(&first), vec!["X".to_string()]);
            assert_eq!(titles(&last), vec!["A".to_string(), "B".to_string()]);
        },
        _ => panic!("expected a splitter"),
    }
}

#[test]
fn splicing_center_appends_and_focuses() {
    let tree = tab_control(0, &["A"]);
    let items = vec![tab("X"), tab("Y")];
    let (tree, _counter, _given) = tree.recur_split_dock(items, 0, DockDropKind::Center, 0);
    match tree {
        DockItem::TabControl { current, tabs } => {
            assert_eq!(tabs.len(), 3);
            assert_eq!(current, 2);
        },
        _ => panic!("expected a tab control"),
    }
}

#[test]
fn items_come_back_when_no_control_matches() {
    let tree = tab_control(0, &["A"]);
    let items = vec![tab("X")];
    let (_tree, _counter, given_back) = tree.recur_split_dock(items, 7, DockDropKind::Center, 0);
    assert_eq!(given_back.unwrap().len(), 1);
}

fn fresh_dock(tree: DockItem<u32>) -> Dock<u32> {
    Dock {
        dock_items: Some(tree),
        drop_size: Vec2I { x: 50, y: 70 },
        drop_quad_color: 0,
        drop_view_area: Area::Empty,
        _drag_move: None,
        _drag_end: None,
        _close_tab: None,
        _tweening_quad: None,
    }
}

fn one_target() -> DockDropTarget {
    DockDropTarget {
        id: 2,
        tabs_view_rect: RectI { x: 0, y: 0, w: 300, h: 30 },
        content_rect: RectI { x: 0, y: 30, w: 300, h: 270 },
        tab_rects: Vec::new(),
    }
}

#[test]
fn handle_dock_applies_a_pending_close() {
    let mut cx = Cx::default();
    let mut dock = fresh_dock(splitter(tab_control(0, &["A", "B"]), tab_control(0, &["C"])));
    dock._close_tab = Some(DockTabIdent { tab_control_id: 1, tab_id: 0 });
    let targets: Vec<DockDropTarget> = Vec::new();
    let ev = dock.handle_dock(&mut cx, &targets);
    assert_eq!(ev, DockEvent::DockChanged);
    assert!(dock._close_tab.is_none());
    match dock.dock_items.as_ref().unwrap() {
        DockItem::Splitter { first, .. } => assert_eq!(titles(first), vec!["B".to_string()]),
        _ => panic!("expected a splitter"),
    }
}

#[test]
fn handle_dock_re_parents_a_dropped_tab() {
    // drag tab B out of the first control and drop it in the center of the
    // second control's content
    let mut cx = Cx::default();
    let mut dock = fresh_dock(splitter(tab_control(1, &["A", "B"]), tab_control(0, &["C"])));
    dock._drag_end = Some(DockDragEnd::OldTab {
        fe: FingerUpEvent { window_id: 0, digit: 0, abs: Vec2I { x: 150, y: 150 }, time: 0 },
        ident: DockTabIdent { tab_control_id: 1, tab_id: 1 },
    });
    let targets = vec![one_target()];
    let ev = dock.handle_dock(&mut cx, &targets);
    assert_eq!(ev, DockEvent::DockChanged);
    assert!(dock._drag_end.is_none());
    match dock.dock_items.as_ref().unwrap() {
        DockItem::Splitter { first, last, .. } => {
            assert_eq!(titles(first), vec!["A".to_string()]);
            assert_eq!(titles(last), vec!["C".to_string(), "B".to_string()]);
            match last.as_ref() {
                DockItem::TabControl { current, .. } => assert_eq!(*current, 1),
                _ => panic!("expected a tab control"),
            }
        },
        _ => panic!("expected a splitter"),
    }
    // the whole surface repaints after a structural change
    assert_eq!(cx.redraw_child_areas, vec![Area::All]);
}

#[test]
fn handle_dock_collapses_after_moving_the_only_tab() {
    let mut cx = Cx::default();
    let mut dock = fresh_dock(splitter(tab_control(0, &["A"]), tab_control(0, &["C"])));
    // re-drag the only tab of the first control onto the second control
    dock._drag_end = Some(DockDragEnd::OldTab {
        fe: FingerUpEvent { window_id: 0, digit: 0, abs: Vec2I { x: 150, y: 150 }, time: 0 },
        ident: DockTabIdent { tab_control_id: 1, tab_id: 0 },
    });
    let targets = vec![one_target()];
    dock.handle_dock(&mut cx, &targets);
    // the emptied control collapsed away; only one control remains
    assert_eq!(
        titles(dock.dock_items.as_ref().unwrap()),
        vec!["C".to_string(), "A".to_string()]
    );
}

#[test]
fn handle_dock_without_pending_changes_nothing() {
    let mut cx = Cx::default();
    let mut dock = fresh_dock(tab_control(0, &["A"]));
    let targets: Vec<DockDropTarget> = Vec::new();
    let ev = dock.handle_dock(&mut cx, &targets);
    assert_eq!(ev, DockEvent::NoChange);
    assert_eq!(cx.redraw_child_areas.len(), 0);
}

#[test]
fn drag_lifecycle_records_and_clears() {
    let mut cx = Cx::default();
    let mut dock = fresh_dock(tab_control(0, &["A"]));
    dock.dock_drag_move(
        &mut cx,
        uicore::events::FingerMoveEvent {
            window_id: 0,
            digit: 0,
            abs: Vec2I { x: 5, y: 5 },
            time: 0,
        },
    );
    assert!(dock._drag_move.is_some());
    dock.dock_drag_out(&mut cx);
    assert!(dock._drag_move.is_none());
    dock.dock_drag_end(
        &mut cx,
        FingerUpEvent { window_id: 0, digit: 0, abs: Vec2I { x: 5, y: 5 }, time: 0 },
        vec![tab("N")],
    );
    assert!(dock._drag_end.is_some());
}

#[test]
fn tween_blends_toward_the_target_and_settles() {
    let start = RectI { x: 0, y: 0, w: 0, h: 0 };
    let target = RectI { x: 100, y: 200, w: 50, h: -40 };
    let (rc, alpha, moving) = tween_step(start, 0, target);
    assert_eq!(rc, RectI { x: 30, y: 60, w: 15, h: -12 });
    assert_eq!(alpha, 100);
    assert!(moving);
    // once the rectangle has landed and the fade settled, motion stops
    let (rc2, alpha2, moving2) = tween_step(target, ALPHA_ONE, target);
    assert_eq!(rc2, target);
    assert_eq!(alpha2, ALPHA_ONE);
    assert!(!moving2);
}

#[test]
fn highlight_restarts_when_the_hovered_control_changes() {
    let mut cx = Cx::default();
    let mut dock = fresh_dock(tab_control(0, &["A"]));
    let rect_a = RectI { x: 0, y: 0, w: 100, h: 100 };
    let (r1, a1) = dock.drop_highlight_step(&mut cx, 1, rect_a);
    assert_eq!((r1, a1), (rect_a, 0));
    let (_r2, a2) = dock.drop_highlight_step(&mut cx, 1, rect_a);
    assert_eq!(a2, 100);
    // hovering another control resets to the raw target at alpha zero
    let rect_b = RectI { x: 50, y: 50, w: 10, h: 10 };
    let (r3, a3) = dock.drop_highlight_step(&mut cx, 2, rect_b);
    assert_eq!((r3, a3), (rect_b, 0));
    dock.drop_highlight_reset();
    assert!(dock._tweening_quad.is_none());
}
