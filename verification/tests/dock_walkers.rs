use uicore::cx::Cx;
use uicore::area::Area;
use uicore::dock::{Dock, DockItem, DockTab, SplitterAlign, Axis, SPLIT_EVEN};
use uicore::dock_walk::{
    DockItemVisitor, DockWidgetHandler, DockDrawVisitor, TabControlAction, SplitterAction,
};

fn tab(title: &str) -> DockTab<u32> {
    DockTab { closeable: false, title: title.to_string(), item: 0 }
}

fn tab_control(current: usize, titles: &[&str]) -> DockItem<u32> {
    DockItem::TabControl { current, tabs: titles.iter().map(|t| tab(t)).collect() }
}

fn splitter(first: DockItem<u32>, last: DockItem<u32>) -> DockItem<u32> {
    DockItem::Splitter {
        align: SplitterAlign::Weighted,
        pos: SPLIT_EVEN,
        axis: Axis::Horizontal,
        first: Box::new(first),
        last: Box::new(last),
    }
}

fn sample_dock(tree: DockItem<u32>) -> Dock<u32> {
    Dock {
        dock_items: Some(tree),
        drop_size: uicore::geom::Vec2I { x: 50, y: 70 },
        drop_quad_color: 0,
        drop_view_area: Area::Empty,
        _drag_move: None,
        _drag_end: None,
        _close_tab: None,
        _tweening_quad: None,
    }
}

struct CountingVisitor {
    singles: usize,
    controls: usize,
    splitters: usize,
}

impl DockItemVisitor<u32> for CountingVisitor {
    fn visit_single(&mut self, _cx: &mut Cx, item: &mut u32) {
        self.singles += 1;
        *item += 10;
    }

    fn visit_tab_control(&mut self, _cx: &mut Cx, current: &mut usize, tabs: &mut Vec<DockTab<u32>>) {
        self.controls += 1;
        if *current > 0 && tabs.len() > 1 {
            *current = 0;
        }
    }

    fn visit_splitter(
        &mut self,
        _cx: &mut Cx,
        _align: &mut SplitterAlign,
        pos: &mut u64,
        _axis: &mut Axis,
    ) {
        self.splitters += 1;
        *pos = 250;
    }
}

#[test]
fn structural_walk_visits_every_node() {
    let mut cx = Cx::default();
    let mut dock = sample_dock(splitter(
        tab_control(1, &["A", "B"]),
        splitter(DockItem::Single(5), tab_control(0, &["C"])),
    ));
    let mut visitor = CountingVisitor { singles: 0, controls: 0, splitters: 0 };
    dock.walk_dock_item(&mut cx, &mut visitor);
    assert_eq!(visitor.singles, 1);
    assert_eq!(visitor.controls, 2);
    assert_eq!(visitor.splitters, 2);
    match dock.dock_items.as_ref().unwrap() {
        DockItem::Splitter { pos, first, .. } => {
            assert_eq!(*pos, 250);
            match first.as_ref() {
                DockItem::TabControl { current, .. } => assert_eq!(*current, 0),
                _ => panic!("expected a tab control"),
            }
        },
        _ => panic!("expected a splitter"),
    }
}

/// Selects a tab on one control and records the uid of every widget it was
/// asked about.
struct SelectingHandler {
    select_on_uid: usize,
    select_tab: usize,
    asked: Vec<(String, usize)>,
    defocused_except: Option<usize>,
}

impl DockWidgetHandler<u32> for SelectingHandler {
    fn handle_tab_control(
        &mut self,
        _cx: &mut Cx,
        uid: usize,
        _current: usize,
        _ntabs: usize,
    ) -> TabControlAction {
        self.asked.push(("tabs".to_string(), uid));
        if uid == self.select_on_uid {
            TabControlAction::TabSelect { tab_id: self.select_tab }
        } else {
            TabControlAction::NoAction
        }
    }

    fn defocus_other_tab_controls(&mut self, _cx: &mut Cx, uid: usize) {
        self.defocused_except = Some(uid);
    }

    fn handle_splitter(
        &mut self,
        _cx: &mut Cx,
        uid: usize,
        _align: SplitterAlign,
        _pos: u64,
        _axis: Axis,
    ) -> SplitterAction {
        self.asked.push(("split".to_string(), uid));
        SplitterAction::Moving { new_pos: 321 }
    }

    fn handle_item(&mut self, _cx: &mut Cx, item: &mut u32) {
        *item += 1;
    }
}

#[test]
fn handle_walk_numbers_widgets_and_applies_their_actions() {
    let mut cx = Cx::default();
    let mut dock = sample_dock(splitter(
        tab_control(0, &["A", "B"]),
        tab_control(0, &["C"]),
    ));
    let mut handler = SelectingHandler {
        select_on_uid: 1,
        select_tab: 1,
        asked: Vec::new(),
        defocused_except: None,
    };
    dock.walk_handle_dock(&mut cx, &mut handler);
    // pre-order numbering: splitter 0, first control 1, last control 2
    assert_eq!(
        handler.asked,
        vec![
            ("split".to_string(), 0),
            ("tabs".to_string(), 1),
            ("tabs".to_string(), 2)
        ]
    );
    assert_eq!(handler.defocused_except, Some(1));
    match dock.dock_items.as_ref().unwrap() {
        DockItem::Splitter { pos, first, .. } => {
            assert_eq!(*pos, 321);
            match first.as_ref() {
                DockItem::TabControl { current, .. } => assert_eq!(*current, 1),
                _ => panic!("expected a tab control"),
            }
        },
        _ => panic!("expected a splitter"),
    }
}

#[test]
fn handle_walk_records_a_tab_close_for_the_next_handle_dock() {
    struct ClosingHandler;

    impl DockWidgetHandler<u32> for ClosingHandler {
        fn handle_tab_control(
            &mut self,
            _cx: &mut Cx,
            uid: usize,
            _current: usize,
            _ntabs: usize,
        ) -> TabControlAction {
            if uid == 1 {
                TabControlAction::TabClose { tab_id: 0 }
            } else {
                TabControlAction::NoAction
            }
        }

        fn defocus_other_tab_controls(&mut self, _cx: &mut Cx, _uid: usize) {}

        fn handle_splitter(
            &mut self,
            _cx: &mut Cx,
            _uid: usize,
            _align: SplitterAlign,
            _pos: u64,
            _axis: Axis,
        ) -> SplitterAction {
            SplitterAction::NoAction
        }

        fn handle_item(&mut self, _cx: &mut Cx, _item: &mut u32) {}
    }

    let mut cx = Cx::default();
    let mut dock = sample_dock(splitter(
        tab_control(1, &["A", "B"]),
        tab_control(0, &["C"]),
    ));
    dock.walk_handle_dock(&mut cx, &mut ClosingHandler);
    let ident = dock._close_tab.unwrap();
    assert_eq!(ident.tab_control_id, 1);
    assert_eq!(ident.tab_id, 0);
    // closing a tab before the current one steps current back right away
    match dock.dock_items.as_ref().unwrap() {
        DockItem::Splitter { first, .. } => match first.as_ref() {
            DockItem::TabControl { current, .. } => assert_eq!(*current, 0),
            _ => panic!("expected a tab control"),
        },
        _ => panic!("expected a splitter"),
    }
}

struct DrawRecorder {
    log: Vec<String>,
}

impl DockDrawVisitor<u32> for DrawRecorder {
    fn begin_tabs(&mut self, _cx: &mut Cx, uid: usize) {
        self.log.push(format!("begin_tabs {uid}"));
    }

    fn draw_tab(&mut self, _cx: &mut Cx, _uid: usize, title: &String, selected: bool, _closeable: bool) {
        self.log.push(format!("tab {title} {selected}"));
    }

    fn end_tabs(&mut self, _cx: &mut Cx, uid: usize) {
        self.log.push(format!("end_tabs {uid}"));
    }

    fn begin_tab_page(&mut self, _cx: &mut Cx, uid: usize) {
        self.log.push(format!("begin_page {uid}"));
    }

    fn end_tab_page(&mut self, _cx: &mut Cx, uid: usize) {
        self.log.push(format!("end_page {uid}"));
    }

    fn begin_splitter(&mut self, _cx: &mut Cx, uid: usize, _align: SplitterAlign, _pos: u64, _axis: Axis) {
        self.log.push(format!("begin_split {uid}"));
    }

    fn mid_splitter(&mut self, _cx: &mut Cx, uid: usize) {
        self.log.push(format!("mid_split {uid}"));
    }

    fn end_splitter(&mut self, _cx: &mut Cx, uid: usize) {
        self.log.push(format!("end_split {uid}"));
    }

    fn draw_item(&mut self, _cx: &mut Cx, item: &mut u32) {
        self.log.push(format!("item {item}"));
    }
}

#[test]
fn draw_walk_emits_begin_mid_end_around_children() {
    let mut cx = Cx::default();
    let mut dock = sample_dock(splitter(
        tab_control(1, &["A", "B"]),
        DockItem::Single(7),
    ));
    let mut visitor = DrawRecorder { log: Vec::new() };
    dock.walk_draw_dock(&mut cx, &mut visitor);
    assert_eq!(
        visitor.log,
        vec![
            "begin_split 0",
            "begin_tabs 1",
            "tab A false",
            "tab B true",
            "end_tabs 1",
            "begin_page 1",
            "item 0",
            "end_page 1",
            "mid_split 0",
            "item 7",
            "end_split 0",
        ]
    );
}
