//! The dockable-panel layout engine: a recursive tree of single panels,
//! tab controls and splitters, with structural rewriting driven by
//! drag-and-drop geometry. Mutation is two-phase: drag events only record
//! what happened, and the next `handle_dock` call performs the rewrite, so
//! the tree is never restructured while a traversal is under way.

use vstd::prelude::*;
use crate::geom::{Vec2I, RectI};
use crate::area::Area;
use crate::cx::Cx;
use crate::events::{FingerMoveEvent, FingerUpEvent};

verus! {

/// How a splitter interprets its position: pinned to one side or a weighted
/// fraction (in thousandths).
#[derive(Clone, Copy, PartialEq, Eq, Structural, Debug)]
pub enum SplitterAlign {
    First,
    Last,
    Weighted,
}

#[derive(Clone, Copy, PartialEq, Eq, Structural, Debug)]
pub enum Axis {
    Horizontal,
    Vertical,
}

/// A weighted split straight down the middle.
pub const SPLIT_EVEN: u64 = 500;

/// One tab of a tab control: the docked payload plus its strip entry.
#[derive(Debug)]
pub struct DockTab<T> {
    pub closeable: bool,
    pub title: String,
    pub item: T,
}

/// The recursive layout tree.
#[derive(Debug)]
pub enum DockItem<T> {
    Single(T),
    TabControl { current: usize, tabs: Vec<DockTab<T>> },
    Splitter {
        align: SplitterAlign,
        pos: u64,
        axis: Axis,
        first: Box<DockItem<T>>,
        last: Box<DockItem<T>>,
    },
}

/// The mathematical model of a layout tree: the same shape over `Seq` and
/// `int`, so contracts can speak of rewritten trees.
#[verifier::ext_equal]
pub enum DockModel<T> {
    Single(T),
    Tabs { current: int, tabs: Seq<DockTab<T>> },
    Split {
        align: SplitterAlign,
        pos: u64,
        axis: Axis,
        first: Box<DockModel<T>>,
        last: Box<DockModel<T>>,
    },
}

/// The model a layout tree denotes.
pub open spec fn dock_view<T>(item: DockItem<T>) -> DockModel<T>
    decreases item,
{
    match item {
        DockItem::Single(t) => DockModel::Single(t),
        DockItem::TabControl { current, tabs } => DockModel::Tabs {
            current: current as int,
            tabs: tabs@,
        },
        DockItem::Splitter { align, pos, axis, first, last } => DockModel::Split {
            align,
            pos,
            axis,
            first: Box::new(dock_view(*first)),
            last: Box::new(dock_view(*last)),
        },
    }
}

/// How many tab controls and splitters a tree holds: the walk numbering
/// advances once per such node.
pub open spec fn model_node_count<T>(m: DockModel<T>) -> nat
    decreases m,
{
    match m {
        DockModel::Single(_) => 0,
        DockModel::Tabs { .. } => 1,
        DockModel::Split { first, last, .. } => 1 + model_node_count(*first) + model_node_count(
            *last,
        ),
    }
}

/// Remove tab `tab_id` from the control numbered `control_id` in the
/// pre-order numbering that counts tab controls and splitters. Returns the
/// rewritten tree, the counter after the walked part, and the removed tab.
/// When the control's current tab is the last one, current steps back with
/// the removal; an out-of-range tab id is a pure no-op yielding `None`. The
/// walk stops at the subtree that yielded a tab.
pub open spec fn model_remove_tab<T>(
    m: DockModel<T>,
    control_id: int,
    tab_id: int,
    counter: int,
) -> (DockModel<T>, int, Option<DockTab<T>>)
    decreases m,
{
    match m {
        DockModel::Single(_) => (m, counter, Option::None),
        DockModel::Tabs { current, tabs } => {
            if counter == control_id && 0 <= tab_id < tabs.len() {
                let cur2: int = if current >= 1 && current == tabs.len() - 1 {
                    current - 1
                } else {
                    current
                };
                (
                    DockModel::Tabs { current: cur2, tabs: tabs.remove(tab_id) },
                    counter + 1,
                    Option::Some(tabs[tab_id]),
                )
            } else {
                (m, counter + 1, Option::None)
            }
        },
        DockModel::Split { align, pos, axis, first, last } => {
            let (f2, c2, r1) = model_remove_tab(*first, control_id, tab_id, counter + 1);
            if r1 is Some {
                (DockModel::Split { align, pos, axis, first: Box::new(f2), last }, c2, r1)
            } else {
                let (l2, c3, r2) = model_remove_tab(*last, control_id, tab_id, c2);
                (
                    DockModel::Split {
                        align,
                        pos,
                        axis,
                        first: Box::new(f2),
                        last: Box::new(l2),
                    },
                    c3,
                    r2,
                )
            }
        },
    }
}

/// The removal walk advances the counter by at most one per tab control or
/// splitter it visits.
proof fn lemma_remove_counter_bound<T>(m: DockModel<T>, control_id: int, tab_id: int, counter: int)
    ensures
        counter <= model_remove_tab(m, control_id, tab_id, counter).1 <= counter
            + model_node_count(m),
    decreases m,
{
    match m {
        DockModel::Single(_) => {},
        DockModel::Tabs { .. } => {},
        DockModel::Split { first, last, .. } => {
            lemma_remove_counter_bound(*first, control_id, tab_id, counter + 1);
            let c2 = model_remove_tab(*first, control_id, tab_id, counter + 1).1;
            lemma_remove_counter_bound(*last, control_id, tab_id, c2);
        },
    }
}

/// Collapse empty controls bottom-up: a tab control with no tabs reports
/// collapsible; a splitter with exactly one collapsible child is replaced by
/// the surviving child; one whose both children collapse reports collapsible
/// itself.
pub open spec fn model_collapse_empty<T>(m: DockModel<T>) -> (DockModel<T>, bool)
    decreases m,
{
    match m {
        DockModel::Single(_) => (m, false),
        DockModel::Tabs { current, tabs } => (m, tabs.len() == 0),
        DockModel::Split { align, pos, axis, first, last } => {
            let (f2, rf) = model_collapse_empty(*first);
            let (l2, rl) = model_collapse_empty(*last);
            if rf && rl {
                (
                    DockModel::Split {
                        align,
                        pos,
                        axis,
                        first: Box::new(f2),
                        last: Box::new(l2),
                    },
                    true,
                )
            } else if rf {
                (l2, false)
            } else if rl {
                (f2, false)
            } else {
                (
                    DockModel::Split {
                        align,
                        pos,
                        axis,
                        first: Box::new(f2),
                        last: Box::new(l2),
                    },
                    false,
                )
            }
        },
    }
}

/// Where a drop lands relative to a tab control.
#[derive(Clone, Copy, PartialEq, Eq, Structural, Debug)]
pub enum DockDropKind {
    Tab(usize),
    TabsView,
    Left,
    Top,
    Right,
    Bottom,
    Center,
}

/// Splice `items` into the control numbered `control_id`: at a tab index,
/// as a new even splitter to a side, or appended for the strip and center
/// zones; the last inserted tab becomes current. The third component tells
/// whether the target was found (and the items consumed); the walk stops
/// there. An out-of-range tab index, or a tab list that could not index its
/// tabs any more, consumes nothing.
pub open spec fn model_split_dock<T>(
    m: DockModel<T>,
    items: Seq<DockTab<T>>,
    control_id: int,
    kind: DockDropKind,
    counter: int,
) -> (DockModel<T>, int, bool)
    decreases m,
{
    match m {
        DockModel::Single(_) => (m, counter, false),
        DockModel::Tabs { current, tabs } => {
            if counter == control_id {
                match kind {
                    DockDropKind::Tab(id) => if 0 <= id <= tabs.len() && tabs.len() + items.len()
                        + 1 <= usize::MAX {
                        (
                            DockModel::Tabs {
                                current: id + items.len() - 1,
                                tabs: tabs.subrange(0, id as int) + items + tabs.subrange(
                                    id as int,
                                    tabs.len() as int,
                                ),
                            },
                            counter + 1,
                            true,
                        )
                    } else {
                        (m, counter + 1, false)
                    },
                    DockDropKind::Left => (
                        DockModel::Split {
                            align: SplitterAlign::Weighted,
                            pos: SPLIT_EVEN,
                            axis: Axis::Vertical,
                            first: Box::new(DockModel::Tabs { current: 0, tabs: items }),
                            last: Box::new(m),
                        },
                        counter + 1,
                        true,
                    ),
                    DockDropKind::Right => (
                        DockModel::Split {
                            align: SplitterAlign::Weighted,
                            pos: SPLIT_EVEN,
                            axis: Axis::Vertical,
                            first: Box::new(m),
                            last: Box::new(DockModel::Tabs { current: 0, tabs: items }),
                        },
                        counter + 1,
                        true,
                    ),
                    DockDropKind::Top => (
                        DockModel::Split {
                            align: SplitterAlign::Weighted,
                            pos: SPLIT_EVEN,
                            axis: Axis::Horizontal,
                            first: Box::new(DockModel::Tabs { current: 0, tabs: items }),
                            last: Box::new(m),
                        },
                        counter + 1,
                        true,
                    ),
                    DockDropKind::Bottom => (
                        DockModel::Split {
                            align: SplitterAlign::Weighted,
                            pos: SPLIT_EVEN,
                            axis: Axis::Horizontal,
                            first: Box::new(m),
                            last: Box::new(DockModel::Tabs { current: 0, tabs: items }),
                        },
                        counter + 1,
                        true,
                    ),
                    DockDropKind::TabsView | DockDropKind::Center => if tabs.len() + items.len()
                        + 1 <= usize::MAX {
                        (
                            DockModel::Tabs {
                                current: tabs.len() + items.len() - 1,
                                tabs: tabs + items,
                            },
                            counter + 1,
                            true,
                        )
                    } else {
                        (m, counter + 1, false)
                    },
                }
            } else {
                (m, counter + 1, false)
            }
        },
        DockModel::Split { align, pos, axis, first, last } => {
            let (f2, c2, con1) = model_split_dock(*first, items, control_id, kind, counter + 1);
            if con1 {
                (DockModel::Split { align, pos, axis, first: Box::new(f2), last }, c2, true)
            } else {
                let (l2, c3, con2) = model_split_dock(*last, items, control_id, kind, c2);
                (
                    DockModel::Split {
                        align,
                        pos,
                        axis,
                        first: Box::new(f2),
                        last: Box::new(l2),
                    },
                    c3,
                    con2,
                )
            }
        },
    }
}

/// The splice walk advances the counter by at most one per tab control or
/// splitter it visits.
proof fn lemma_split_counter_bound<T>(
    m: DockModel<T>,
    items: Seq<DockTab<T>>,
    control_id: int,
    kind: DockDropKind,
    counter: int,
)
    ensures
        counter <= model_split_dock(m, items, control_id, kind, counter).1 <= counter
            + model_node_count(m),
    decreases m,
{
    match m {
        DockModel::Single(_) => {},
        DockModel::Tabs { .. } => {},
        DockModel::Split { first, last, .. } => {
            lemma_split_counter_bound(*first, items, control_id, kind, counter + 1);
            let c2 = model_split_dock(*first, items, control_id, kind, counter + 1).1;
            lemma_split_counter_bound(*last, items, control_id, kind, c2);
        },
    }
}

impl<T> DockItem<T> {
    /// Remove a tab (see [`model_remove_tab`]); the tree is consumed and
    /// returned rewritten along with the advanced counter and the tab.
    pub fn recur_remove_tab(
        self,
        control_id: usize,
        tab_id: usize,
        counter: usize,
    ) -> (r: (DockItem<T>, usize, Option<DockTab<T>>))
        requires
            counter + model_node_count(dock_view(self)) <= usize::MAX,
        ensures
            (dock_view(r.0), r.1 as int, r.2) == model_remove_tab(
                dock_view(self),
                control_id as int,
                tab_id as int,
                counter as int,
            ),
        decreases self,
    {
        match self {
            DockItem::Single(t) => (DockItem::Single(t), counter, Option::None),
            DockItem::TabControl { current, mut tabs } => {
                if counter == control_id && tab_id < tabs.len() {
                    let mut cur2 = current;
                    if current >= 1 && (current as u128) + 1 == (tabs.len() as u128) {
                        cur2 = current - 1;
                    }
                    let tab = tabs.remove(tab_id);
                    (DockItem::TabControl { current: cur2, tabs }, counter + 1, Option::Some(tab))
                } else {
                    (DockItem::TabControl { current, tabs }, counter + 1, Option::None)
                }
            },
            DockItem::Splitter { align, pos, axis, first, last } => {
                proof {
                    lemma_remove_counter_bound(
                        dock_view(*first),
                        control_id as int,
                        tab_id as int,
                        counter + 1,
                    );
                }
                let (f2, c2, r1) = (*first).recur_remove_tab(control_id, tab_id, counter + 1);
                if r1.is_some() {
                    (DockItem::Splitter { align, pos, axis, first: Box::new(f2), last }, c2, r1)
                } else {
                    let (l2, c3, r2) = (*last).recur_remove_tab(control_id, tab_id, c2);
                    (
                        DockItem::Splitter {
                            align,
                            pos,
                            axis,
                            first: Box::new(f2),
                            last: Box::new(l2),
                        },
                        c3,
                        r2,
                    )
                }
            },
        }
    }

    /// Collapse empty controls (see [`model_collapse_empty`]).
    pub fn recur_collapse_empty(self) -> (r: (DockItem<T>, bool))
        ensures
            (dock_view(r.0), r.1) == model_collapse_empty(dock_view(self)),
        decreases self,
    {
        match self {
            DockItem::Single(t) => (DockItem::Single(t), false),
            DockItem::TabControl { current, tabs } => {
                let empty = tabs.len() == 0;
                (DockItem::TabControl { current, tabs }, empty)
            },
            DockItem::Splitter { align, pos, axis, first, last } => {
                let (f2, rf) = (*first).recur_collapse_empty();
                let (l2, rl) = (*last).recur_collapse_empty();
                if rf && rl {
                    (
                        DockItem::Splitter {
                            align,
                            pos,
                            axis,
                            first: Box::new(f2),
                            last: Box::new(l2),
                        },
                        true,
                    )
                } else if rf {
                    (l2, false)
                } else if rl {
                    (f2, false)
                } else {
                    (
                        DockItem::Splitter {
                            align,
                            pos,
                            axis,
                            first: Box::new(f2),
                            last: Box::new(l2),
                        },
                        false,
                    )
                }
            },
        }
    }

    /// Splice dropped items in (see [`model_split_dock`]); when the target
    /// control is not in this tree, the untouched items come back.
    pub fn recur_split_dock(
        self,
        items: Vec<DockTab<T>>,
        control_id: usize,
        kind: DockDropKind,
        counter: usize,
    ) -> (r: (DockItem<T>, usize, Option<Vec<DockTab<T>>>))
        requires
            counter + model_node_count(dock_view(self)) <= usize::MAX,
            items@.len() >= 1,
        ensures
            (dock_view(r.0), r.1 as int, r.2 is None) == model_split_dock(
                dock_view(self),
                items@,
                control_id as int,
                kind,
                counter as int,
            ),
            (match r.2 {
                Option::Some(given_back) => given_back@ == items@,
                Option::None => true,
            }),
        decreases self,
    {
        proof {
            reveal_with_fuel(dock_view, 3);
        }
        match self {
            DockItem::Single(t) => (DockItem::Single(t), counter, Option::Some(items)),
            DockItem::TabControl { current, mut tabs } => {
                if counter == control_id {
                    match kind {
                        DockDropKind::Tab(id) => {
                            let fits = (tabs.len() as u128) + (items.len() as u128) + 1
                                <= (usize::MAX as u128);
                            if id <= tabs.len() && fits {
                                let new_current = id + items.len() - 1;
                                let mut idc = id;
                                let mut rest = items;
                                let ghost items_seq = rest@;
                                let ghost tabs0 = tabs@;
                                while rest.len() > 0
                                    invariant
                                        idc == id + (items_seq.len() - rest@.len()),
                                        rest@.len() <= items_seq.len(),
                                        id <= tabs0.len(),
                                        tabs0.len() + items_seq.len() + 1 <= usize::MAX,
                                        tabs@.len() == tabs0.len() + (items_seq.len()
                                            - rest@.len()),
                                        tabs@ == tabs0.subrange(0, id as int)
                                            + items_seq.subrange(
                                            0,
                                            items_seq.len() - rest@.len(),
                                        ) + tabs0.subrange(id as int, tabs0.len() as int),
                                        rest@ == items_seq.subrange(
                                            items_seq.len() - rest@.len(),
                                            items_seq.len() as int,
                                        ),
                                    decreases rest@.len(),
                                {
                                    let tab = rest.remove(0);
                                    tabs.insert(idc, tab);
                                    idc += 1;
                                    proof {
                                        let k = items_seq.len() - rest@.len();
                                        assert(items_seq.subrange(0, k as int)
                                            =~= items_seq.subrange(0, k - 1).push(
                                            items_seq[k - 1],
                                        ));
                                        assert(tabs@ =~= tabs0.subrange(0, id as int)
                                            + items_seq.subrange(0, k as int) + tabs0.subrange(
                                            id as int,
                                            tabs0.len() as int,
                                        ));
                                        assert(rest@ =~= items_seq.subrange(
                                            items_seq.len() - rest@.len(),
                                            items_seq.len() as int,
                                        ));
                                    }
                                }
                                proof {
                                    assert(items_seq.subrange(0, items_seq.len() as int)
                                        =~= items_seq);
                                }
                                (
                                    DockItem::TabControl { current: new_current, tabs },
                                    counter + 1,
                                    Option::None,
                                )
                            } else {
                                (
                                    DockItem::TabControl { current, tabs },
                                    counter + 1,
                                    Option::Some(items),
                                )
                            }
                        },
                        DockDropKind::Left => (
                            DockItem::Splitter {
                                align: SplitterAlign::Weighted,
                                pos: SPLIT_EVEN,
                                axis: Axis::Vertical,
                                first: Box::new(DockItem::TabControl { current: 0, tabs: items }),
                                last: Box::new(DockItem::TabControl { current, tabs }),
                            },
                            counter + 1,
                            Option::None,
                        ),
                        DockDropKind::Right => (
                            DockItem::Splitter {
                                align: SplitterAlign::Weighted,
                                pos: SPLIT_EVEN,
                                axis: Axis::Vertical,
                                first: Box::new(DockItem::TabControl { current, tabs }),
                                last: Box::new(DockItem::TabControl { current: 0, tabs: items }),
                            },
                            counter + 1,
                            Option::None,
                        ),
                        DockDropKind::Top => (
                            DockItem::Splitter {
                                align: SplitterAlign::Weighted,
                                pos: SPLIT_EVEN,
                                axis: Axis::Horizontal,
                                first: Box::new(DockItem::TabControl { current: 0, tabs: items }),
                                last: Box::new(DockItem::TabControl { current, tabs }),
                            },
                            counter + 1,
                            Option::None,
                        ),
                        DockDropKind::Bottom => (
                            DockItem::Splitter {
                                align: SplitterAlign::Weighted,
                                pos: SPLIT_EVEN,
                                axis: Axis::Horizontal,
                                first: Box::new(DockItem::TabControl { current, tabs }),
                                last: Box::new(DockItem::TabControl { current: 0, tabs: items }),
                            },
                            counter + 1,
                            Option::None,
                        ),
                        DockDropKind::TabsView | DockDropKind::Center => {
                            let fits = (tabs.len() as u128) + (items.len() as u128) + 1
                                <= (usize::MAX as u128);
                            if fits {
                                let new_current = tabs.len() + items.len() - 1;
                                let mut rest = items;
                                tabs.append(&mut rest);
                                (
                                    DockItem::TabControl { current: new_current, tabs },
                                    counter + 1,
                                    Option::None,
                                )
                            } else {
                                (
                                    DockItem::TabControl { current, tabs },
                                    counter + 1,
                                    Option::Some(items),
                                )
                            }
                        },
                    }
                } else {
                    (DockItem::TabControl { current, tabs }, counter + 1, Option::Some(items))
                }
            },
            DockItem::Splitter { align, pos, axis, first, last } => {
                proof {
                    lemma_split_counter_bound(
                        dock_view(*first),
                        items@,
                        control_id as int,
                        kind,
                        counter + 1,
                    );
                }
                let (f2, c2, give1) = (*first).recur_split_dock(items, control_id, kind, counter
                    + 1);
                match give1 {
                    Option::Some(rest) => {
                        let (l2, c3, give2) = (*last).recur_split_dock(rest, control_id, kind, c2);
                        (
                            DockItem::Splitter {
                                align,
                                pos,
                                axis,
                                first: Box::new(f2),
                                last: Box::new(l2),
                            },
                            c3,
                            give2,
                        )
                    },
                    Option::None => (
                        DockItem::Splitter { align, pos, axis, first: Box::new(f2), last },
                        c2,
                        Option::None,
                    ),
                }
            },
        }
    }
}

/// The first tab rectangle containing the point, scanning in strip order.
pub open spec fn first_tab_hit(tab_rects: Seq<RectI>, pos: Vec2I) -> Option<int>
    decreases tab_rects.len(),
{
    if tab_rects.len() == 0 {
        Option::None
    } else if tab_rects[0].spec_contains(pos.x as int, pos.y as int) {
        Option::Some(0)
    } else {
        match first_tab_hit(tab_rects.skip(1), pos) {
            Option::Some(i) => Option::Some(i + 1),
            Option::None => Option::None,
        }
    }
}

proof fn lemma_first_tab_hit_at(tab_rects: Seq<RectI>, pos: Vec2I, i: int)
    requires
        0 <= i < tab_rects.len(),
        tab_rects[i].spec_contains(pos.x as int, pos.y as int),
        forall|j: int|
            0 <= j < i ==> !(#[trigger] tab_rects[j]).spec_contains(pos.x as int, pos.y as int),
    ensures
        first_tab_hit(tab_rects, pos) == Option::Some(i),
    decreases i,
{
    if i > 0 {
        lemma_first_tab_hit_at(tab_rects.skip(1), pos, i - 1);
    }
}

proof fn lemma_first_tab_hit_none(tab_rects: Seq<RectI>, pos: Vec2I)
    requires
        forall|j: int|
            0 <= j < tab_rects.len() ==> !(#[trigger] tab_rects[j]).spec_contains(
                pos.x as int,
                pos.y as int,
            ),
    ensures
        first_tab_hit(tab_rects, pos) is None,
    decreases tab_rects.len(),
{
    if tab_rects.len() > 0 {
        lemma_first_tab_hit_none(tab_rects.skip(1), pos);
    }
}

/// The fixed-priority drop classification: a specific tab's rectangle, then
/// the tab strip, then the top, bottom, left and right margins of the
/// content (each `drop_size` deep), and finally the center. The second
/// component is the highlight rectangle for that zone.
pub open spec fn spec_drop_kind(
    pos: Vec2I,
    drop_size: Vec2I,
    tvr: RectI,
    cdr: RectI,
    tab_rects: Seq<RectI>,
) -> (DockDropKind, RectI) {
    if tvr.spec_contains(pos.x as int, pos.y as int) {
        match first_tab_hit(tab_rects, pos) {
            Option::Some(i) => (DockDropKind::Tab(i as usize), tab_rects[i]),
            Option::None => (DockDropKind::TabsView, tvr),
        }
    } else if (pos.y as int) < cdr.y + drop_size.y {
        (
            DockDropKind::Top,
            RectI { x: cdr.x, y: cdr.y, w: cdr.w, h: ((cdr.h as int) / 2) as i64 },
        )
    } else if (pos.y as int) > cdr.y + cdr.h - drop_size.y {
        (
            DockDropKind::Bottom,
            RectI {
                x: cdr.x,
                y: (cdr.y + (cdr.h as int) / 2) as i64,
                w: cdr.w,
                h: ((cdr.h as int) / 2) as i64,
            },
        )
    } else if (pos.x as int) < cdr.x + drop_size.x {
        (
            DockDropKind::Left,
            RectI { x: cdr.x, y: cdr.y, w: ((cdr.w as int) / 2) as i64, h: cdr.h },
        )
    } else if (pos.x as int) > cdr.x + cdr.w - drop_size.x {
        (
            DockDropKind::Right,
            RectI {
                x: (cdr.x + (cdr.w as int) / 2) as i64,
                y: cdr.y,
                w: ((cdr.w as int) / 2) as i64,
                h: cdr.h,
            },
        )
    } else {
        (DockDropKind::Center, cdr)
    }
}

/// A rectangle sane enough to classify against: extents nonnegative and the
/// far corner still in range.
pub open spec fn rect_wf(r: RectI) -> bool {
    &&& r.w >= 0
    &&& r.h >= 0
    &&& r.x + r.w <= i64::MAX
    &&& r.y + r.h <= i64::MAX
}

/// Classify a drop point against one tab control's geometry.
pub fn get_drop_kind(
    pos: Vec2I,
    drop_size: Vec2I,
    tvr: RectI,
    cdr: RectI,
    tab_rects: &Vec<RectI>,
) -> (r: (DockDropKind, RectI))
    requires
        rect_wf(cdr),
    ensures
        r == spec_drop_kind(pos, drop_size, tvr, cdr, tab_rects@),
{
    if tvr.contains(pos.x, pos.y) {
        let n = tab_rects.len();
        let mut i: usize = 0;
        while i < n
            invariant
                i <= n,
                n == tab_rects@.len(),
                tvr.spec_contains(pos.x as int, pos.y as int),
                forall|j: int|
                    0 <= j < i ==> !(#[trigger] tab_rects@[j]).spec_contains(
                        pos.x as int,
                        pos.y as int,
                    ),
            decreases n - i,
        {
            if tab_rects[i].contains(pos.x, pos.y) {
                proof {
                    lemma_first_tab_hit_at(tab_rects@, pos, i as int);
                }
                return (DockDropKind::Tab(i), tab_rects[i]);
            }
            i += 1;
        }
        proof {
            lemma_first_tab_hit_none(tab_rects@, pos);
        }
        return (DockDropKind::TabsView, tvr);
    }
    let half_h: i64 = cdr.h / 2;
    let half_w: i64 = cdr.w / 2;
    if (pos.y as i128) < (cdr.y as i128) + (drop_size.y as i128) {
        return (DockDropKind::Top, RectI { x: cdr.x, y: cdr.y, w: cdr.w, h: half_h });
    }
    if (pos.y as i128) > (cdr.y as i128) + (cdr.h as i128) - (drop_size.y as i128) {
        return (
            DockDropKind::Bottom,
            RectI { x: cdr.x, y: cdr.y + half_h, w: cdr.w, h: half_h },
        );
    }
    if (pos.x as i128) < (cdr.x as i128) + (drop_size.x as i128) {
        return (DockDropKind::Left, RectI { x: cdr.x, y: cdr.y, w: half_w, h: cdr.h });
    }
    if (pos.x as i128) > (cdr.x as i128) + (cdr.w as i128) - (drop_size.x as i128) {
        return (DockDropKind::Right, RectI { x: cdr.x + half_w, y: cdr.y, w: half_w, h: cdr.h });
    }
    (DockDropKind::Center, cdr)
}

/// Law: a point strictly inside a given tab's rectangle classifies as that
/// tab — the first such tab on overlap — even though the point also lies in
/// the broader tab-strip rectangle; tab rectangles take priority.
pub proof fn lemma_tab_rect_priority(
    pos: Vec2I,
    drop_size: Vec2I,
    tvr: RectI,
    cdr: RectI,
    tab_rects: Seq<RectI>,
    i: int,
)
    requires
        tvr.spec_contains(pos.x as int, pos.y as int),
        0 <= i < tab_rects.len(),
        tab_rects[i].spec_contains(pos.x as int, pos.y as int),
        forall|j: int|
            0 <= j < i ==> !(#[trigger] tab_rects[j]).spec_contains(pos.x as int, pos.y as int),
    ensures
        spec_drop_kind(pos, drop_size, tvr, cdr, tab_rects) == (
            DockDropKind::Tab(i as usize),
            tab_rects[i],
        ),
{
    lemma_first_tab_hit_at(tab_rects, pos, i);
}

/// Alpha scale: one is full opacity of the hover highlight.
pub const ALPHA_ONE: u32 = 1000;

/// Below this alpha the highlight still counts as moving (its fade term of
/// the distance is above half a unit).
pub const ALPHA_SETTLED: u32 = 995;

/// One critically-damped blend step of a coordinate: seven tenths retained,
/// three tenths of the target, rounded toward zero.
pub open spec fn blend_coord(o: int, t: int) -> int {
    let n = 7 * o + 3 * t;
    if n >= 0 {
        n / 10
    } else {
        -((-n) / 10)
    }
}

fn blend_i64(o: i64, t: i64) -> (r: i64)
    ensures
        r as int == blend_coord(o as int, t as int),
{
    let n: i128 = 7 * (o as i128) + 3 * (t as i128);
    if n >= 0 {
        let q: i128 = n / 10;
        proof {
            assert(q <= i64::MAX && q >= 0);
        }
        q as i64
    } else {
        let q: i128 = (-n) / 10;
        proof {
            assert(q >= 0 && -q >= i64::MIN);
        }
        (-q) as i64
    }
}

/// Whether the highlight is still moving: some coordinate has not reached
/// the target, or the fade has not settled.
pub open spec fn tween_moving(rc: RectI, alpha: u32, target: RectI) -> bool {
    rc != target || alpha < ALPHA_SETTLED
}

/// One animation step of the hover highlight toward `target`: coordinates
/// blend seven-tenths retained, alpha fades nine-tenths retained toward
/// one; the third component reports whether another step is needed.
pub fn tween_step(old_rc: RectI, old_alpha: u32, target: RectI) -> (r: (RectI, u32, bool))
    requires
        old_alpha <= ALPHA_ONE,
    ensures
        r.0.x as int == blend_coord(old_rc.x as int, target.x as int),
        r.0.y as int == blend_coord(old_rc.y as int, target.y as int),
        r.0.w as int == blend_coord(old_rc.w as int, target.w as int),
        r.0.h as int == blend_coord(old_rc.h as int, target.h as int),
        r.1 == (9 * old_alpha + ALPHA_ONE) / 10,
        r.1 <= ALPHA_ONE,
        r.2 == tween_moving(r.0, r.1, target),
{
    let rc = RectI {
        x: blend_i64(old_rc.x, target.x),
        y: blend_i64(old_rc.y, target.y),
        w: blend_i64(old_rc.w, target.w),
        h: blend_i64(old_rc.h, target.h),
    };
    let alpha = (9 * old_alpha + ALPHA_ONE) / 10;
    let moving = rc != target || alpha < ALPHA_SETTLED;
    (rc, alpha, moving)
}

/// Identifies one tab of one tab control by the walk numbering.
#[derive(Clone, Copy, PartialEq, Eq, Structural, Debug)]
pub struct DockTabIdent {
    pub tab_control_id: usize,
    pub tab_id: usize,
}

/// What a completed drag drops: an existing tab re-dragged from the tree,
/// or brand-new items supplied from outside.
#[derive(Debug)]
pub enum DockDragEnd<T> {
    OldTab { fe: FingerUpEvent, ident: DockTabIdent },
    NewItems { fe: FingerUpEvent, items: Vec<DockTab<T>> },
}

/// What `handle_dock` reports.
#[derive(Clone, Copy, PartialEq, Eq, Structural, Debug)]
pub enum DockEvent {
    NoChange,
    DockChanged,
}

/// The geometry of one tab control on screen, as the widget layer measured
/// it: the strip rectangle, the content drop rectangle, and each tab's
/// rectangle.
#[derive(Debug)]
pub struct DockDropTarget {
    pub id: usize,
    pub tabs_view_rect: RectI,
    pub content_rect: RectI,
    pub tab_rects: Vec<RectI>,
}

/// The first target whose strip or content holds the point.
pub open spec fn first_target_hit(targets: Seq<DockDropTarget>, pos: Vec2I) -> Option<int>
    decreases targets.len(),
{
    if targets.len() == 0 {
        Option::None
    } else if targets[0].tabs_view_rect.spec_contains(pos.x as int, pos.y as int)
        || targets[0].content_rect.spec_contains(pos.x as int, pos.y as int) {
        Option::Some(0)
    } else {
        match first_target_hit(targets.skip(1), pos) {
            Option::Some(i) => Option::Some(i + 1),
            Option::None => Option::None,
        }
    }
}

proof fn lemma_first_target_hit_at(targets: Seq<DockDropTarget>, pos: Vec2I, i: int)
    requires
        0 <= i < targets.len(),
        (#[trigger] targets[i]).tabs_view_rect.spec_contains(pos.x as int, pos.y as int)
            || targets[i].content_rect.spec_contains(pos.x as int, pos.y as int),
        forall|j: int|
            0 <= j < i ==> !((#[trigger] targets[j]).tabs_view_rect.spec_contains(
                pos.x as int,
                pos.y as int,
            ) || targets[j].content_rect.spec_contains(pos.x as int, pos.y as int)),
    ensures
        first_target_hit(targets, pos) == Option::Some(i),
    decreases i,
{
    if i > 0 {
        lemma_first_target_hit_at(targets.skip(1), pos, i - 1);
    }
}

proof fn lemma_first_target_hit_none(targets: Seq<DockDropTarget>, pos: Vec2I)
    requires
        forall|j: int|
            0 <= j < targets.len() ==> !((#[trigger] targets[j]).tabs_view_rect.spec_contains(
                pos.x as int,
                pos.y as int,
            ) || targets[j].content_rect.spec_contains(pos.x as int, pos.y as int)),
    ensures
        first_target_hit(targets, pos) is None,
    decreases targets.len(),
{
    if targets.len() > 0 {
        lemma_first_target_hit_none(targets.skip(1), pos);
    }
}

/// The finger position a completed drag ended at.
pub open spec fn drag_end_pos<T>(drag: DockDragEnd<T>) -> Vec2I {
    match drag {
        DockDragEnd::OldTab { fe, .. } => fe.abs,
        DockDragEnd::NewItems { fe, .. } => fe.abs,
    }
}

/// Removing a tab leaves the number of controls and splitters unchanged.
proof fn lemma_remove_node_count<T>(m: DockModel<T>, control_id: int, tab_id: int, counter: int)
    ensures
        model_node_count(model_remove_tab(m, control_id, tab_id, counter).0)
            == model_node_count(m),
    decreases m,
{
    match m {
        DockModel::Single(_) => {},
        DockModel::Tabs { .. } => {},
        DockModel::Split { first, last, .. } => {
            lemma_remove_node_count(*first, control_id, tab_id, counter + 1);
            let c2 = model_remove_tab(*first, control_id, tab_id, counter + 1).1;
            lemma_remove_node_count(*last, control_id, tab_id, c2);
        },
    }
}

/// What one completed drag does to the tree: find the first tab control
/// whose geometry holds the drop point, classify the drop, take the dragged
/// items (removing a re-dragged tab from the tree first), splice them in,
/// and collapse empty controls.
pub open spec fn spec_apply_drag_end<T>(
    m: DockModel<T>,
    drag: DockDragEnd<T>,
    targets: Seq<DockDropTarget>,
    drop_size: Vec2I,
) -> DockModel<T> {
    let pos = drag_end_pos(drag);
    match first_target_hit(targets, pos) {
        Option::None => model_collapse_empty(m).0,
        Option::Some(ti) => {
            let t = targets[ti];
            let kind = spec_drop_kind(pos, drop_size, t.tabs_view_rect, t.content_rect,
                t.tab_rects@).0;
            let with_items = match drag {
                DockDragEnd::OldTab { ident, .. } => {
                    let removed = model_remove_tab(
                        m,
                        ident.tab_control_id as int,
                        ident.tab_id as int,
                        0,
                    );
                    (
                        removed.0,
                        match removed.2 {
                            Option::Some(tab) => seq![tab],
                            Option::None => Seq::<DockTab<T>>::empty(),
                        },
                    )
                },
                DockDragEnd::NewItems { items, .. } => (m, items@),
            };
            let m3 = if with_items.1.len() > 0 {
                model_split_dock(with_items.0, with_items.1, t.id as int, kind, 0).0
            } else {
                with_items.0
            };
            model_collapse_empty(m3).0
        },
    }
}

/// The dock: the layout tree plus the two-phase drag state. Drag events
/// record; the next `handle_dock` call rewrites.
#[derive(Debug)]
pub struct Dock<T> {
    pub dock_items: Option<DockItem<T>>,
    pub drop_size: Vec2I,
    pub drop_quad_color: u32,
    pub drop_view_area: Area,
    pub _drag_move: Option<FingerMoveEvent>,
    pub _drag_end: Option<DockDragEnd<T>>,
    pub _close_tab: Option<DockTabIdent>,
    pub _tweening_quad: Option<(usize, RectI, u32)>,
}

impl<T> Dock<T> {
    /// The pointer left every drop zone: clear the in-flight drag position
    /// and repaint the overlay.
    pub fn dock_drag_out(&mut self, cx: &mut Cx)
        requires
            !old(cx).panic_redraw,
        ensures
            final(self)._drag_move is None,
            *final(self) == (Dock { _drag_move: Option::None, ..*old(self) }),
            final(cx).redraw_child_areas@ == crate::area::dirty_insert(
                old(cx).redraw_child_areas@,
                old(self).drop_view_area,
            ),
            *final(cx) == (Cx { redraw_child_areas: final(cx).redraw_child_areas, ..*old(cx) }),
    {
        self._drag_move = Option::None;
        cx.redraw_child_area(self.drop_view_area);
    }

    /// Record the in-flight pointer position for hover highlighting and
    /// repaint the overlay.
    pub fn dock_drag_move(&mut self, cx: &mut Cx, fe: FingerMoveEvent)
        requires
            !old(cx).panic_redraw,
        ensures
            final(self)._drag_move == Option::Some(fe),
            *final(self) == (Dock { _drag_move: Option::Some(fe), ..*old(self) }),
            final(cx).redraw_child_areas@ == crate::area::dirty_insert(
                old(cx).redraw_child_areas@,
                old(self).drop_view_area,
            ),
            *final(cx) == (Cx { redraw_child_areas: final(cx).redraw_child_areas, ..*old(cx) }),
    {
        self._drag_move = Option::Some(fe);
        cx.redraw_child_area(self.drop_view_area);
    }

    /// Record a completed drop of externally supplied items; the tree is
    /// rewritten by the next `handle_dock` call.
    pub fn dock_drag_end(&mut self, _cx: &mut Cx, fe: FingerUpEvent, new_items: Vec<DockTab<T>>)
        ensures
            final(self)._drag_move is None,
            (match final(self)._drag_end {
                Option::Some(DockDragEnd::NewItems { fe: f, items }) => f == fe && items@
                    == new_items@,
                _ => false,
            }),
            *final(self) == (Dock {
                _drag_move: Option::None,
                _drag_end: final(self)._drag_end,
                ..*old(self)
            }),
    {
        self._drag_move = Option::None;
        self._drag_end = Option::Some(DockDragEnd::NewItems { fe, items: new_items });
    }

    /// Reset the hover highlight so the next step restarts from the raw
    /// target.
    pub fn drop_highlight_reset(&mut self)
        ensures
            *final(self) == (Dock { _tweening_quad: Option::None, ..*old(self) }),
    {
        self._tweening_quad = Option::None;
    }

    /// One hover-highlight animation step against the currently hovered
    /// control: restarts from the raw target (alpha zero) when the hovered
    /// control changed or no highlight was live, else blends toward it and
    /// keeps the overlay repainting while still moving. Returns the
    /// rectangle and alpha to draw.
    pub fn drop_highlight_step(&mut self, cx: &mut Cx, target_id: usize, rect: RectI) -> (r: (
        RectI,
        u32,
    ))
        requires
            !old(cx).panic_redraw,
            (match old(self)._tweening_quad {
                Option::Some((_, _, a)) => a <= ALPHA_ONE,
                Option::None => true,
            }),
        ensures
            (match old(self)._tweening_quad {
                Option::Some((id, rc, a)) => if id == target_id {
                    {
                        &&& r.0.x as int == blend_coord(rc.x as int, rect.x as int)
                        &&& r.0.y as int == blend_coord(rc.y as int, rect.y as int)
                        &&& r.0.w as int == blend_coord(rc.w as int, rect.w as int)
                        &&& r.0.h as int == blend_coord(rc.h as int, rect.h as int)
                        &&& r.1 == (9 * a + ALPHA_ONE) / 10
                        &&& final(cx).redraw_child_areas@ == (
                            if tween_moving(r.0, r.1, rect) {
                                crate::area::dirty_insert(
                                    old(cx).redraw_child_areas@,
                                    old(self).drop_view_area,
                                )
                            } else {
                                old(cx).redraw_child_areas@
                            }
                        )
                    }
                } else {
                    r == (rect, 0u32) && final(cx).redraw_child_areas@ == old(
                        cx,
                    ).redraw_child_areas@
                },
                Option::None => r == (rect, 0u32) && final(cx).redraw_child_areas@ == old(
                    cx,
                ).redraw_child_areas@,
            }),
            final(self)._tweening_quad == Option::Some((target_id, r.0, r.1)),
            (match final(self)._tweening_quad {
                Option::Some((_, _, a)) => a <= ALPHA_ONE,
                Option::None => true,
            }),
            *final(self) == (Dock { _tweening_quad: final(self)._tweening_quad, ..*old(self) }),
            *final(cx) == (Cx { redraw_child_areas: final(cx).redraw_child_areas, ..*old(cx) }),
    {
        let prior = match self._tweening_quad {
            Option::Some((id, rc, a)) => if id == target_id {
                Option::Some((rc, a))
            } else {
                Option::None
            },
            Option::None => Option::None,
        };
        match prior {
            Option::None => {
                self._tweening_quad = Option::Some((target_id, rect, 0));
                (rect, 0)
            },
            Option::Some((rc, a)) => {
                let (rc2, a2, moving) = tween_step(rc, a, rect);
                if moving {
                    cx.redraw_child_area(self.drop_view_area);
                }
                self._tweening_quad = Option::Some((target_id, rc2, a2));
                (rc2, a2)
            },
        }
    }

    /// Apply any pending structural change: a recorded tab close removes
    /// that tab; else a recorded drag end removes or takes the dragged
    /// items, splices them at the first matching target, collapses empty
    /// controls and requests a full redraw. With nothing pending, nothing
    /// changes.
    pub fn handle_dock(&mut self, cx: &mut Cx, targets: &Vec<DockDropTarget>) -> (r: DockEvent)
        requires
            !old(cx).panic_redraw,
            (old(self)._close_tab is Some || old(self)._drag_end is Some) ==> (match old(
                self,
            ).dock_items {
                Option::Some(tree) => model_node_count(dock_view(tree)) <= usize::MAX,
                Option::None => false,
            }),
            forall|i: int| 0 <= i < targets@.len() ==> rect_wf((#[trigger] targets@[i]).content_rect),
        ensures
            (match old(self)._close_tab {
                Option::Some(ident) => {
                    &&& r == DockEvent::DockChanged
                    &&& final(self)._close_tab is None
                    &&& (match (old(self).dock_items, final(self).dock_items) {
                        (Option::Some(t0), Option::Some(t1)) => dock_view(t1)
                            == model_remove_tab(
                            dock_view(t0),
                            ident.tab_control_id as int,
                            ident.tab_id as int,
                            0,
                        ).0,
                        _ => false,
                    })
                    &&& *final(self) == (Dock {
                        dock_items: final(self).dock_items,
                        _close_tab: Option::None,
                        ..*old(self)
                    })
                    &&& *final(cx) == *old(cx)
                },
                Option::None => match old(self)._drag_end {
                    Option::Some(drag) => {
                        &&& r == DockEvent::DockChanged
                        &&& final(self)._drag_end is None
                        &&& (match (old(self).dock_items, final(self).dock_items) {
                            (Option::Some(t0), Option::Some(t1)) => dock_view(t1)
                                == spec_apply_drag_end(
                                dock_view(t0),
                                drag,
                                targets@,
                                old(self).drop_size,
                            ),
                            _ => false,
                        })
                        &&& *final(self) == (Dock {
                            dock_items: final(self).dock_items,
                            _drag_end: Option::None,
                            ..*old(self)
                        })
                        &&& final(cx).redraw_child_areas@ == seq![Area::All]
                        &&& *final(cx) == (Cx {
                            redraw_child_areas: final(cx).redraw_child_areas,
                            ..*old(cx)
                        })
                    },
                    Option::None => {
                        &&& r == DockEvent::NoChange
                        &&& *final(self) == *old(self)
                        &&& *final(cx) == *old(cx)
                    },
                },
            }),
    {
        match self._close_tab.take() {
            Option::Some(close_tab) => {
                let tree = self.dock_items.take().unwrap();
                let (tree2, _counter, _tab) = tree.recur_remove_tab(
                    close_tab.tab_control_id,
                    close_tab.tab_id,
                    0,
                );
                self.dock_items = Option::Some(tree2);
                return DockEvent::DockChanged;
            },
            Option::None => {},
        }
        match self._drag_end.take() {
            Option::None => DockEvent::NoChange,
            Option::Some(drag_end) => {
                let pos = match &drag_end {
                    DockDragEnd::OldTab { fe, .. } => fe.abs,
                    DockDragEnd::NewItems { fe, .. } => fe.abs,
                };
                let n = targets.len();
                let mut ti: usize = 0;
                let mut found = false;
                while ti < n && !found
                    invariant
                        ti <= n,
                        n == targets@.len(),
                        found ==> ti < n && ((targets@[ti as int].tabs_view_rect.spec_contains(
                            pos.x as int,
                            pos.y as int,
                        ) || targets@[ti as int].content_rect.spec_contains(
                            pos.x as int,
                            pos.y as int,
                        ))),
                        forall|j: int|
                            0 <= j < ti ==> !((#[trigger] targets@[j]).tabs_view_rect.spec_contains(
                                pos.x as int,
                                pos.y as int,
                            ) || targets@[j].content_rect.spec_contains(
                                pos.x as int,
                                pos.y as int,
                            )),
                        !found ==> forall|j: int|
                            0 <= j <= ti - 1 ==> !((
                            #[trigger] targets@[j]).tabs_view_rect.spec_contains(
                                pos.x as int,
                                pos.y as int,
                            ) || targets@[j].content_rect.spec_contains(
                                pos.x as int,
                                pos.y as int,
                            )),
                    decreases n - ti + (if found { 0int } else { 1 }),
                {
                    if targets[ti].tabs_view_rect.contains(pos.x, pos.y)
                        || targets[ti].content_rect.contains(pos.x, pos.y) {
                        found = true;
                    } else {
                        ti += 1;
                    }
                }
                let tree = self.dock_items.take().unwrap();
                let tree_out: DockItem<T>;
                if found {
                    proof {
                        lemma_first_target_hit_at(targets@, pos, ti as int);
                    }
                    let kind = get_drop_kind(
                        pos,
                        self.drop_size,
                        targets[ti].tabs_view_rect,
                        targets[ti].content_rect,
                        &targets[ti].tab_rects,
                    ).0;
                    let target_id = targets[ti].id;
                    let (tree2, items) = match drag_end {
                        DockDragEnd::OldTab { ident, .. } => {
                            proof {
                                lemma_remove_node_count(
                                    dock_view(tree),
                                    ident.tab_control_id as int,
                                    ident.tab_id as int,
                                    0,
                                );
                            }
                            let (t2, _c, tab) = tree.recur_remove_tab(
                                ident.tab_control_id,
                                ident.tab_id,
                                0,
                            );
                            let mut items: Vec<DockTab<T>> = Vec::new();
                            match tab {
                                Option::Some(tb) => {
                                    items.push(tb);
                                },
                                Option::None => {},
                            }
                            (t2, items)
                        },
                        DockDragEnd::NewItems { items, .. } => (tree, items),
                    };
                    if items.len() > 0 {
                        let (t3, _c, _give) = tree2.recur_split_dock(items, target_id, kind, 0);
                        tree_out = t3;
                    } else {
                        tree_out = tree2;
                    }
                } else {
                    proof {
                        lemma_first_target_hit_none(targets@, pos);
                    }
                    tree_out = tree;
                }
                let (tree4, _collapsible) = tree_out.recur_collapse_empty();
                self.dock_items = Option::Some(tree4);
                cx.redraw_child_area(Area::All);
                DockEvent::DockChanged
            },
        }
    }
}

} // verus!
