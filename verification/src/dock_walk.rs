//! Traversals of the dock tree. The walk owns the recursion and calls into
//! caller-supplied visitors per node, so no reference to a subtree ever
//! outlives one step; widget state is keyed by a walk uid handed out
//! sequentially to every tab control and splitter, stable only within one
//! full walk.

use vstd::prelude::*;
use crate::area::Area;
use crate::cx::Cx;
use crate::events::{FingerMoveEvent, FingerUpEvent};
use crate::dock::{
    Dock, DockItem, DockTab, DockModel, DockTabIdent, DockDragEnd, SplitterAlign, Axis,
    dock_view, model_node_count,
};

verus! {

/// Both trees have the same variant structure: the walk only ever mutates
/// node contents, never replaces a node by another kind.
pub open spec fn same_variant_tree<T>(a: DockModel<T>, b: DockModel<T>) -> bool
    decreases a,
{
    match (a, b) {
        (DockModel::Single(_), DockModel::Single(_)) => true,
        (DockModel::Tabs { .. }, DockModel::Tabs { .. }) => true,
        (
            DockModel::Split { first: fa, last: la, .. },
            DockModel::Split { first: fb, last: lb, .. },
        ) => same_variant_tree(*fa, *fb) && same_variant_tree(*la, *lb),
        _ => false,
    }
}

/// Both trees have the same shape: same variant structure, same axes, and
/// tab strips of the same length with the same titles — what an
/// event-handling or drawing walk leaves untouched.
pub open spec fn same_dock_shape<T>(a: DockModel<T>, b: DockModel<T>) -> bool
    decreases a,
{
    match (a, b) {
        (DockModel::Single(_), DockModel::Single(_)) => true,
        (DockModel::Tabs { tabs: ta, .. }, DockModel::Tabs { tabs: tb, .. }) => {
            &&& ta.len() == tb.len()
            &&& forall|i: int|
                0 <= i < ta.len() ==> (#[trigger] ta[i]).title == tb[i].title && ta[i].closeable
                    == tb[i].closeable
        },
        (
            DockModel::Split { axis: xa, first: fa, last: la, .. },
            DockModel::Split { axis: xb, first: fb, last: lb, .. },
        ) => xa == xb && same_dock_shape(*fa, *fb) && same_dock_shape(*la, *lb),
        _ => false,
    }
}

/// A visitor for the plain structural walk: called once per node, depth
/// first, splitters before their children; it may mutate the node's own
/// contents.
pub trait DockItemVisitor<T> {
    fn visit_single(&mut self, cx: &mut Cx, item: &mut T);

    fn visit_tab_control(&mut self, cx: &mut Cx, current: &mut usize, tabs: &mut Vec<DockTab<T>>);

    fn visit_splitter(
        &mut self,
        cx: &mut Cx,
        align: &mut SplitterAlign,
        pos: &mut u64,
        axis: &mut Axis,
    );
}

/// What a tab-control widget reports back to the event-handling walk.
pub enum TabControlAction {
    NoAction,
    TabSelect { tab_id: usize },
    TabDragMove { fe: FingerMoveEvent },
    TabDragEnd { fe: FingerUpEvent, tab_id: usize },
    TabClose { tab_id: usize },
}

/// What a splitter widget reports back to the event-handling walk.
pub enum SplitterAction {
    NoAction,
    Moving { new_pos: u64 },
    MovingEnd { new_align: SplitterAlign, new_pos: u64 },
}

/// The widget layer consulted by the event-handling walk: it forwards the
/// input event to the widget keyed by `uid` and reports what the widget
/// decided; the walk applies the decision to the tree.
pub trait DockWidgetHandler<T> {
    fn handle_tab_control(
        &mut self,
        cx: &mut Cx,
        uid: usize,
        current: usize,
        ntabs: usize,
    ) -> TabControlAction;

    fn defocus_other_tab_controls(&mut self, cx: &mut Cx, uid: usize);

    fn handle_splitter(
        &mut self,
        cx: &mut Cx,
        uid: usize,
        align: SplitterAlign,
        pos: u64,
        axis: Axis,
    ) -> SplitterAction;

    fn handle_item(&mut self, cx: &mut Cx, item: &mut T);
}

/// The drawing side of the widget layer: begin/mid/end calls around
/// children let the walk drive nested rendering.
pub trait DockDrawVisitor<T> {
    fn begin_tabs(&mut self, cx: &mut Cx, uid: usize);

    fn draw_tab(&mut self, cx: &mut Cx, uid: usize, title: &String, selected: bool, closeable: bool);

    fn end_tabs(&mut self, cx: &mut Cx, uid: usize);

    fn begin_tab_page(&mut self, cx: &mut Cx, uid: usize);

    fn end_tab_page(&mut self, cx: &mut Cx, uid: usize);

    fn begin_splitter(&mut self, cx: &mut Cx, uid: usize, align: SplitterAlign, pos: u64, axis: Axis);

    fn mid_splitter(&mut self, cx: &mut Cx, uid: usize);

    fn end_splitter(&mut self, cx: &mut Cx, uid: usize);

    fn draw_item(&mut self, cx: &mut Cx, item: &mut T);
}

/// The drag bookkeeping an event-handling walk may write, forwarded from
/// the dock that owns the tree.
pub struct DockWalkPending<T> {
    pub drag_move: Option<FingerMoveEvent>,
    pub drag_end: Option<DockDragEnd<T>>,
    pub close_tab: Option<DockTabIdent>,
    pub drop_view_area: Area,
}

/// Mark the drop overlay dirty, unless redraw is currently forbidden (then
/// the request is dropped rather than failing).
fn request_overlay_redraw(cx: &mut Cx, area: Area) {
    if !cx.panic_redraw {
        cx.redraw_child_area(area);
    }
}

/// The structural walk: yield every node to the visitor, pre-order.
fn walk_items_rec<T, V: DockItemVisitor<T>>(cx: &mut Cx, item: DockItem<T>, visitor: &mut V) -> (r:
    DockItem<T>)
    ensures
        same_variant_tree(dock_view(item), dock_view(r)),
    decreases item,
{
    match item {
        DockItem::Single(mut t) => {
            visitor.visit_single(cx, &mut t);
            DockItem::Single(t)
        },
        DockItem::TabControl { mut current, mut tabs } => {
            visitor.visit_tab_control(cx, &mut current, &mut tabs);
            DockItem::TabControl { current, tabs }
        },
        DockItem::Splitter { mut align, mut pos, mut axis, first, last } => {
            visitor.visit_splitter(cx, &mut align, &mut pos, &mut axis);
            let f2 = walk_items_rec(cx, *first, visitor);
            let l2 = walk_items_rec(cx, *last, visitor);
            DockItem::Splitter { align, pos, axis, first: Box::new(f2), last: Box::new(l2) }
        },
    }
}

/// The event-handling walk: consult the widget for every tab control and
/// splitter, apply its decision to the node (current tab, splitter
/// position and alignment), record drag state, and hand the current tab's
/// payload to the handler.
fn walk_handle_rec<T, H: DockWidgetHandler<T>>(
    cx: &mut Cx,
    item: DockItem<T>,
    handler: &mut H,
    walk_uid: usize,
    pend: &mut DockWalkPending<T>,
) -> (r: (DockItem<T>, usize))
    requires
        walk_uid + model_node_count(dock_view(item)) <= usize::MAX,
    ensures
        same_dock_shape(dock_view(item), dock_view(r.0)),
        r.1 == walk_uid + model_node_count(dock_view(item)),
    decreases item,
{
    match item {
        DockItem::Single(mut t) => {
            handler.handle_item(cx, &mut t);
            (DockItem::Single(t), walk_uid)
        },
        DockItem::TabControl { mut current, mut tabs } => {
            let my_uid = walk_uid;
            match handler.handle_tab_control(cx, my_uid, current, tabs.len()) {
                TabControlAction::TabSelect { tab_id } => {
                    current = tab_id;
                    handler.defocus_other_tab_controls(cx, my_uid);
                },
                TabControlAction::TabDragMove { fe } => {
                    pend.drag_move = Option::Some(fe);
                    pend.drag_end = Option::None;
                    request_overlay_redraw(cx, pend.drop_view_area);
                },
                TabControlAction::TabDragEnd { fe, tab_id } => {
                    pend.drag_move = Option::None;
                    pend.drag_end = Option::Some(
                        DockDragEnd::OldTab {
                            fe,
                            ident: DockTabIdent { tab_control_id: my_uid, tab_id },
                        },
                    );
                    request_overlay_redraw(cx, pend.drop_view_area);
                },
                TabControlAction::TabClose { tab_id } => {
                    pend.close_tab = Option::Some(
                        DockTabIdent { tab_control_id: my_uid, tab_id },
                    );
                    if tab_id < current && current > 0 {
                        current = current - 1;
                    }
                    request_overlay_redraw(cx, pend.drop_view_area);
                },
                TabControlAction::NoAction => {},
            }
            if current < tabs.len() {
                let ghost tabs0 = tabs@;
                let mut tab = tabs.remove(current);
                handler.handle_item(cx, &mut tab.item);
                tabs.insert(current, tab);
                proof {
                    let orig_tab = tabs0[current as int];
                    let new_tab = DockTab {
                        closeable: orig_tab.closeable,
                        title: orig_tab.title,
                        item: tabs@[current as int].item,
                    };
                    assert(tabs@ =~= tabs0.update(current as int, new_tab));
                }
            }
            (DockItem::TabControl { current, tabs }, my_uid + 1)
        },
        DockItem::Splitter { mut align, mut pos, axis, first, last } => {
            let my_uid = walk_uid;
            match handler.handle_splitter(cx, my_uid, align, pos, axis) {
                SplitterAction::Moving { new_pos } => {
                    pos = new_pos;
                },
                SplitterAction::MovingEnd { new_align, new_pos } => {
                    align = new_align;
                    pos = new_pos;
                },
                SplitterAction::NoAction => {},
            }
            let (f2, uid2) = walk_handle_rec(cx, *first, handler, my_uid + 1, pend);
            let (l2, uid3) = walk_handle_rec(cx, *last, handler, uid2, pend);
            (
                DockItem::Splitter { align, pos, axis, first: Box::new(f2), last: Box::new(l2) },
                uid3,
            )
        },
    }
}

/// The drawing walk: emit begin/tab/end calls around every tab control and
/// begin/mid/end calls around every splitter's children, drawing the
/// current tab's payload inside its page.
fn walk_draw_rec<T, D: DockDrawVisitor<T>>(
    cx: &mut Cx,
    item: DockItem<T>,
    visitor: &mut D,
    walk_uid: usize,
) -> (r: (DockItem<T>, usize))
    requires
        walk_uid + model_node_count(dock_view(item)) <= usize::MAX,
    ensures
        same_dock_shape(dock_view(item), dock_view(r.0)),
        r.1 == walk_uid + model_node_count(dock_view(item)),
    decreases item,
{
    match item {
        DockItem::Single(mut t) => {
            visitor.draw_item(cx, &mut t);
            (DockItem::Single(t), walk_uid)
        },
        DockItem::TabControl { current, mut tabs } => {
            let my_uid = walk_uid;
            visitor.begin_tabs(cx, my_uid);
            let n = tabs.len();
            let mut id: usize = 0;
            let ghost tabs_at_entry = tabs@;
            while id < n
                invariant
                    id <= n,
                    n == tabs@.len(),
                    tabs@ == tabs_at_entry,
                decreases n - id,
            {
                visitor.draw_tab(cx, my_uid, &tabs[id].title, current == id, tabs[id].closeable);
                id += 1;
            }
            visitor.end_tabs(cx, my_uid);
            visitor.begin_tab_page(cx, my_uid);
            if current < tabs.len() {
                let ghost tabs0 = tabs@;
                let mut tab = tabs.remove(current);
                visitor.draw_item(cx, &mut tab.item);
                tabs.insert(current, tab);
                proof {
                    let orig_tab = tabs0[current as int];
                    let new_tab = DockTab {
                        closeable: orig_tab.closeable,
                        title: orig_tab.title,
                        item: tabs@[current as int].item,
                    };
                    assert(tabs@ =~= tabs0.update(current as int, new_tab));
                }
            }
            visitor.end_tab_page(cx, my_uid);
            (DockItem::TabControl { current, tabs }, my_uid + 1)
        },
        DockItem::Splitter { align, pos, axis, first, last } => {
            let my_uid = walk_uid;
            visitor.begin_splitter(cx, my_uid, align, pos, axis);
            let (f2, uid2) = walk_draw_rec(cx, *first, visitor, my_uid + 1);
            visitor.mid_splitter(cx, my_uid);
            let (l2, uid3) = walk_draw_rec(cx, *last, visitor, uid2);
            visitor.end_splitter(cx, my_uid);
            (
                DockItem::Splitter { align, pos, axis, first: Box::new(f2), last: Box::new(l2) },
                uid3,
            )
        },
    }
}

impl<T> Dock<T> {
    /// Drive the structural walk over the whole tree, if there is one.
    pub fn walk_dock_item<V: DockItemVisitor<T>>(&mut self, cx: &mut Cx, visitor: &mut V)
        ensures
            (match (old(self).dock_items, final(self).dock_items) {
                (Option::Some(t0), Option::Some(t1)) => same_variant_tree(
                    dock_view(t0),
                    dock_view(t1),
                ),
                (Option::None, Option::None) => true,
                _ => false,
            }),
            *final(self) == (Dock { dock_items: final(self).dock_items, ..*old(self) }),
    {
        match self.dock_items.take() {
            Option::Some(tree) => {
                let tree2 = walk_items_rec(cx, tree, visitor);
                self.dock_items = Option::Some(tree2);
            },
            Option::None => {},
        }
    }

    /// Drive the event-handling walk: widgets are consulted in walk order
    /// and their decisions applied; drag and close outcomes land in the
    /// dock's pending state for the next `handle_dock` call. The tree's
    /// shape is preserved.
    pub fn walk_handle_dock<H: DockWidgetHandler<T>>(&mut self, cx: &mut Cx, handler: &mut H)
        requires
            (match old(self).dock_items {
                Option::Some(tree) => model_node_count(dock_view(tree)) <= usize::MAX,
                Option::None => true,
            }),
        ensures
            (match (old(self).dock_items, final(self).dock_items) {
                (Option::Some(t0), Option::Some(t1)) => same_dock_shape(
                    dock_view(t0),
                    dock_view(t1),
                ),
                (Option::None, Option::None) => true,
                _ => false,
            }),
            *final(self) == (Dock {
                dock_items: final(self).dock_items,
                _drag_move: final(self)._drag_move,
                _drag_end: final(self)._drag_end,
                _close_tab: final(self)._close_tab,
                ..*old(self)
            }),
    {
        match self.dock_items.take() {
            Option::Some(tree) => {
                let mut pend = DockWalkPending {
                    drag_move: self._drag_move.take(),
                    drag_end: self._drag_end.take(),
                    close_tab: self._close_tab.take(),
                    drop_view_area: self.drop_view_area,
                };
                let (tree2, _uid) = walk_handle_rec(cx, tree, handler, 0, &mut pend);
                self.dock_items = Option::Some(tree2);
                self._drag_move = pend.drag_move;
                self._drag_end = pend.drag_end;
                self._close_tab = pend.close_tab;
            },
            Option::None => {},
        }
    }

    /// Drive the drawing walk over the whole tree, if there is one; the
    /// tree's shape is preserved.
    pub fn walk_draw_dock<D: DockDrawVisitor<T>>(&mut self, cx: &mut Cx, visitor: &mut D)
        requires
            (match old(self).dock_items {
                Option::Some(tree) => model_node_count(dock_view(tree)) <= usize::MAX,
                Option::None => true,
            }),
        ensures
            (match (old(self).dock_items, final(self).dock_items) {
                (Option::Some(t0), Option::Some(t1)) => same_dock_shape(
                    dock_view(t0),
                    dock_view(t1),
                ),
                (Option::None, Option::None) => true,
                _ => false,
            }),
            *final(self) == (Dock { dock_items: final(self).dock_items, ..*old(self) }),
    {
        match self.dock_items.take() {
            Option::Some(tree) => {
                let (tree2, _uid) = walk_draw_rec(cx, tree, visitor, 0);
                self.dock_items = Option::Some(tree2);
            },
            Option::None => {},
        }
    }
}

} // verus!
