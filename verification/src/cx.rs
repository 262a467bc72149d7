//! The central context: arenas of windows, passes and views, the
//! double-buffered dirty sets, input and focus state, animation lifecycle,
//! deferred signals and per-frame callbacks.

use vstd::prelude::*;
use crate::geom::Vec2I;
use crate::area::{Area, dirty_insert};
use crate::events::{KeyEvent, Signal};
use crate::viewpass::{CxView, CxPass, CxWindow};
use crate::desktop::CxDesktop;
use crate::style::StyleValue;

verus! {

/// Number of pointer slots tracked for tap counting and capture.
pub const NUM_FINGERS: usize = 10;

/// Two taps chain when they are closer than this many units.
pub const TAP_DIST: i64 = 10;

/// Two taps chain when they are closer than this many time ticks.
pub const TAP_TIME: i64 = 500;

/// Dpi factor representing a scale of one (factors are in thousandths).
pub const DPI_FACTOR_ONE: u64 = 1000;

#[derive(Clone, Copy, PartialEq, Eq, Structural, Debug)]
pub enum PlatformType {
    Windows,
    OSX,
    Linux,
    WASM,
}

impl PlatformType {
    pub fn is_desktop(&self) -> (r: bool)
        ensures
            r == (*self != PlatformType::WASM),
    {
        match self {
            PlatformType::Windows => true,
            PlatformType::OSX => true,
            PlatformType::Linux => true,
            PlatformType::WASM => false,
        }
    }
}

/// Per-finger running tap state: where and when the last tap landed, and how
/// many taps have chained.
#[derive(Clone, Copy, PartialEq, Eq, Structural, Debug)]
pub struct FingerTap {
    pub last_pos: Vec2I,
    pub last_time: i64,
    pub count: u32,
}

/// A timed animation in flight on an area. A `start_time` of `None` is the
/// already-ended sentinel: the animation is flushed on the next check
/// regardless of the clock.
#[derive(Clone, Copy, Debug)]
pub struct AnimArea {
    pub area: Area,
    pub start_time: Option<i64>,
    pub total_time: i64,
}

pub struct Cx {
    pub title: String,
    pub running: bool,
    pub platform_type: PlatformType,

    pub windows: Vec<CxWindow>,
    pub windows_free: Vec<usize>,
    pub passes: Vec<CxPass>,
    pub passes_free: Vec<usize>,
    pub views: Vec<CxView>,
    pub views_free: Vec<usize>,

    pub is_in_redraw_cycle: bool,
    pub window_stack: Vec<usize>,
    pub pass_stack: Vec<usize>,
    pub view_stack: Vec<usize>,
    pub align_list: Vec<Area>,

    pub redraw_child_areas: Vec<Area>,
    pub redraw_parent_areas: Vec<Area>,
    pub _redraw_child_areas: Vec<Area>,
    pub _redraw_parent_areas: Vec<Area>,

    pub redraw_id: u64,
    pub repaint_id: u64,
    pub event_id: u64,
    pub timer_id: u64,
    pub signal_id: usize,

    pub last_key_focus: Area,
    pub key_focus: Area,
    pub keys_down: Vec<KeyEvent>,

    pub debug_area: Area,

    pub captured_fingers: Vec<Area>,
    pub finger_tap_count: Vec<FingerTap>,
    pub finger_down_abs_start: Vec<Vec2I>,
    pub finger_down_rel_start: Vec<Vec2I>,
    pub finger_over_last_area: Area,
    pub _finger_over_last_area: Area,

    pub playing_anim_areas: Vec<AnimArea>,
    pub ended_anim_areas: Vec<AnimArea>,

    pub frame_callbacks: Vec<Area>,
    pub _frame_callbacks: Vec<Area>,

    pub signals_before_draw: Vec<(Signal, usize)>,
    pub signals_after_draw: Vec<(Signal, usize)>,

    pub style_values: Vec<(String, StyleValue)>,

    pub panic_now: bool,
    pub panic_redraw: bool,

    pub desktop: CxDesktop,
}

impl Default for Cx {
    fn default() -> (r: Cx)
        ensures
            r.running,
            !r.is_in_redraw_cycle,
            !r.panic_now,
            !r.panic_redraw,
            r.redraw_id == 1,
            r.repaint_id == 1,
            r.event_id == 1,
            r.timer_id == 1,
            r.signal_id == 1,
            r.windows@.len() == 0,
            r.windows_free@.len() == 0,
            r.passes@.len() == 0,
            r.passes_free@.len() == 0,
            r.views@.len() == 1,
            r.views@[0].nesting_view_id == 0,
            r.views_free@.len() == 0,
            r.window_stack@.len() == 0,
            r.pass_stack@.len() == 0,
            r.view_stack@.len() == 0,
            r.align_list@.len() == 0,
            r.redraw_child_areas@.len() == 0,
            r.redraw_parent_areas@.len() == 0,
            r._redraw_child_areas@.len() == 0,
            r._redraw_parent_areas@.len() == 0,
            r.last_key_focus == Area::Empty,
            r.key_focus == Area::Empty,
            r.keys_down@.len() == 0,
            r.captured_fingers@ == Seq::new(NUM_FINGERS as nat, |i: int| Area::Empty),
            r.finger_tap_count@ == Seq::new(
                NUM_FINGERS as nat,
                |i: int| (FingerTap { last_pos: Vec2I { x: 0, y: 0 }, last_time: 0, count: 0 }),
            ),
            r.finger_over_last_area == Area::Empty,
            r._finger_over_last_area == Area::Empty,
            r.playing_anim_areas@.len() == 0,
            r.ended_anim_areas@.len() == 0,
            r.frame_callbacks@.len() == 0,
            r._frame_callbacks@.len() == 0,
            r.signals_before_draw@.len() == 0,
            r.signals_after_draw@.len() == 0,
            r.style_values@.len() == 0,
            r.desktop.file_read_id == 1,
            r.desktop.file_read_requests@.len() == 0,
    {
        let captured_fingers: Vec<Area> = vec![Area::Empty; NUM_FINGERS];
        let tap: FingerTap = FingerTap { last_pos: Vec2I { x: 0, y: 0 }, last_time: 0, count: 0 };
        let finger_tap_count: Vec<FingerTap> = vec![tap; NUM_FINGERS];
        let zero = Vec2I { x: 0, y: 0 };
        let finger_down_abs_start: Vec<Vec2I> = vec![zero; NUM_FINGERS];
        let finger_down_rel_start: Vec<Vec2I> = vec![zero; NUM_FINGERS];
        let root_view = CxView {
            nesting_view_id: 0,
            pass_id: 0,
            rect: crate::geom::RectI { x: 0, y: 0, w: 0, h: 0 },
            scroll: zero,
        };
        proof {
            assert(Seq::new(NUM_FINGERS as nat, |i: int| Area::Empty) =~= captured_fingers@);
        }
        let r = Cx {
            title: "Hello World".to_string(),
            running: true,
            platform_type: PlatformType::Windows,
            windows: Vec::new(),
            windows_free: Vec::new(),
            passes: Vec::new(),
            passes_free: Vec::new(),
            views: vec![root_view],
            views_free: Vec::new(),
            is_in_redraw_cycle: false,
            window_stack: Vec::new(),
            pass_stack: Vec::new(),
            view_stack: Vec::new(),
            align_list: Vec::new(),
            redraw_child_areas: Vec::new(),
            redraw_parent_areas: Vec::new(),
            _redraw_child_areas: Vec::new(),
            _redraw_parent_areas: Vec::new(),
            redraw_id: 1,
            repaint_id: 1,
            event_id: 1,
            timer_id: 1,
            signal_id: 1,
            last_key_focus: Area::Empty,
            key_focus: Area::Empty,
            keys_down: Vec::new(),
            debug_area: Area::Empty,
            captured_fingers,
            finger_tap_count,
            finger_down_abs_start,
            finger_down_rel_start,
            finger_over_last_area: Area::Empty,
            _finger_over_last_area: Area::Empty,
            playing_anim_areas: Vec::new(),
            ended_anim_areas: Vec::new(),
            frame_callbacks: Vec::new(),
            _frame_callbacks: Vec::new(),
            signals_before_draw: Vec::new(),
            signals_after_draw: Vec::new(),
            style_values: Vec::new(),
            panic_now: false,
            panic_redraw: false,
            desktop: CxDesktop::default(),
        };
        proof {
            assert(r.finger_tap_count@ =~= Seq::new(
                NUM_FINGERS as nat,
                |i: int| (FingerTap { last_pos: Vec2I { x: 0, y: 0 }, last_time: 0, count: 0 }),
            ));
        }
        r
    }
}

/// Append `area` to a dirty list under the collapse/dedup discipline.
fn dirty_mark(list: &mut Vec<Area>, area: Area)
    ensures
        final(list)@ == dirty_insert(old(list)@, area),
{
    if area == Area::All {
        list.clear();
        list.push(Area::All);
        proof {
            assert(final(list)@ =~= seq![Area::All]);
        }
        return;
    }
    if list.len() == 1 && list[0] == Area::All {
        proof {
            assert(old(list)@.len() == 1);
            assert(old(list)@[0] == Area::All);
            assert(dirty_insert(old(list)@, area) == old(list)@);
        }
        return;
    }
    let n = list.len();
    let mut i: usize = 0;
    while i < n
        invariant
            i <= n,
            n == list@.len(),
            *list == *old(list),
            area != Area::All,
            !(list@.len() == 1 && list@[0] == Area::All),
            forall|k: int| 0 <= k < i ==> list@[k] != area,
        decreases n - i,
    {
        if list[i] == area {
            proof {
                assert(list@.contains(area));
            }
            return;
        }
        i += 1;
    }
    proof {
        assert(!list@.contains(area));
    }
    list.push(area);
}

impl Cx {
    /// Mark an area dirty for the next frame's child-propagating set:
    /// everything below it in the nesting tree will redraw.
    pub fn redraw_child_area(&mut self, area: Area)
        requires
            !old(self).panic_redraw,
        ensures
            final(self).redraw_child_areas@ == dirty_insert(old(self).redraw_child_areas@, area),
            *final(self) == (Cx {
                redraw_child_areas: final(self).redraw_child_areas,
                ..*old(self)
            }),
    {
        dirty_mark(&mut self.redraw_child_areas, area);
    }

    /// Mark an area dirty for the next frame's parent-propagating set:
    /// everything above it in the nesting tree will re-evaluate.
    pub fn redraw_parent_area(&mut self, area: Area)
        requires
            !old(self).panic_redraw,
        ensures
            final(self).redraw_parent_areas@ == dirty_insert(old(self).redraw_parent_areas@, area),
            *final(self) == (Cx {
                redraw_parent_areas: final(self).redraw_parent_areas,
                ..*old(self)
            }),
    {
        dirty_mark(&mut self.redraw_parent_areas, area);
    }

    /// Re-mark everything the previous frame drew dirty, child and parent
    /// sets alike.
    pub fn redraw_previous_areas(&mut self)
        requires
            !old(self).panic_redraw,
        ensures
            final(self).redraw_child_areas@ == dirty_insert_seq(
                old(self).redraw_child_areas@,
                old(self)._redraw_child_areas@,
            ),
            final(self).redraw_parent_areas@ == dirty_insert_seq(
                old(self).redraw_parent_areas@,
                old(self)._redraw_parent_areas@,
            ),
            *final(self) == (Cx {
                redraw_child_areas: final(self).redraw_child_areas,
                redraw_parent_areas: final(self).redraw_parent_areas,
                ..*old(self)
            }),
    {
        let n = self._redraw_child_areas.len();
        let mut i: usize = 0;
        while i < n
            invariant
                i <= n,
                !self.panic_redraw,
                n == self._redraw_child_areas@.len(),
                self._redraw_child_areas == old(self)._redraw_child_areas,
                self.redraw_child_areas@ == dirty_insert_seq(
                    old(self).redraw_child_areas@,
                    old(self)._redraw_child_areas@.take(i as int),
                ),
                *self == (Cx { redraw_child_areas: self.redraw_child_areas, ..*old(self) }),
            decreases n - i,
        {
            let area = self._redraw_child_areas[i];
            proof {
                lemma_dirty_insert_seq_snoc(
                    old(self).redraw_child_areas@,
                    old(self)._redraw_child_areas@.take(i as int),
                    area,
                );
                assert(old(self)._redraw_child_areas@.take(i as int).push(area)
                    =~= old(self)._redraw_child_areas@.take(i + 1));
            }
            dirty_mark(&mut self.redraw_child_areas, area);
            i += 1;
        }
        proof {
            assert(old(self)._redraw_child_areas@.take(n as int) =~= old(self)._redraw_child_areas@);
        }
        let m = self._redraw_parent_areas.len();
        let mut j: usize = 0;
        while j < m
            invariant
                j <= m,
                m == self._redraw_parent_areas@.len(),
                self._redraw_parent_areas == old(self)._redraw_parent_areas,
                self.redraw_child_areas@ == dirty_insert_seq(
                    old(self).redraw_child_areas@,
                    old(self)._redraw_child_areas@,
                ),
                self.redraw_parent_areas@ == dirty_insert_seq(
                    old(self).redraw_parent_areas@,
                    old(self)._redraw_parent_areas@.take(j as int),
                ),
                *self == (Cx {
                    redraw_child_areas: self.redraw_child_areas,
                    redraw_parent_areas: self.redraw_parent_areas,
                    ..*old(self)
                }),
            decreases m - j,
        {
            let area = self._redraw_parent_areas[j];
            proof {
                lemma_dirty_insert_seq_snoc(
                    old(self).redraw_parent_areas@,
                    old(self)._redraw_parent_areas@.take(j as int),
                    area,
                );
                assert(old(self)._redraw_parent_areas@.take(j as int).push(area)
                    =~= old(self)._redraw_parent_areas@.take(j + 1));
            }
            dirty_mark(&mut self.redraw_parent_areas, area);
            j += 1;
        }
        proof {
            assert(old(self)._redraw_parent_areas@.take(m as int) =~= old(self)._redraw_parent_areas@);
        }
    }

    /// Give key focus to an area.
    pub fn set_key_focus(&mut self, focus_area: Area)
        ensures
            *final(self) == (Cx { key_focus: focus_area, ..*old(self) }),
    {
        self.key_focus = focus_area;
    }

    /// Whether `focus_area` currently holds key focus.
    pub fn has_key_focus(&self, focus_area: Area) -> (r: bool)
        ensures
            r == (self.key_focus == focus_area),
    {
        self.key_focus == focus_area
    }

    /// Record a key going down; the list is deduplicated by key code, so a
    /// repeat of a held key changes nothing.
    pub fn process_key_down(&mut self, key_event: KeyEvent)
        ensures
            final(self).keys_down@ == (
                if exists|k: int|
                    0 <= k < old(self).keys_down@.len()
                    && (#[trigger] old(self).keys_down@[k]).key_code == key_event.key_code {
                    old(self).keys_down@
                } else {
                    old(self).keys_down@.push(key_event)
                }
            ),
            *final(self) == (Cx { keys_down: final(self).keys_down, ..*old(self) }),
    {
        let n = self.keys_down.len();
        let mut i: usize = 0;
        while i < n
            invariant
                i <= n,
                n == self.keys_down@.len(),
                *self == *old(self),
                forall|k: int|
                    0 <= k < i ==> (#[trigger] self.keys_down@[k]).key_code != key_event.key_code,
            decreases n - i,
        {
            if self.keys_down[i].key_code == key_event.key_code {
                return;
            }
            i += 1;
        }
        self.keys_down.push(key_event);
    }

    /// Release a key: the first held entry with this key code is removed; a
    /// key that is not down changes nothing.
    pub fn process_key_up(&mut self, key_event: &KeyEvent)
        ensures
            (forall|k: int|
                0 <= k < old(self).keys_down@.len()
                ==> (#[trigger] old(self).keys_down@[k]).key_code != key_event.key_code)
                ==> *final(self) == *old(self),
            (exists|k: int|
                0 <= k < old(self).keys_down@.len()
                && (#[trigger] old(self).keys_down@[k]).key_code == key_event.key_code)
                ==> exists|i: int| {
                    &&& 0 <= i < old(self).keys_down@.len()
                    &&& (#[trigger] old(self).keys_down@[i]).key_code == key_event.key_code
                    &&& forall|k: int|
                        0 <= k < i ==> (#[trigger] old(self).keys_down@[k]).key_code
                            != key_event.key_code
                    &&& final(self).keys_down@ == old(self).keys_down@.remove(i)
                },
            *final(self) == (Cx { keys_down: final(self).keys_down, ..*old(self) }),
    {
        let n = self.keys_down.len();
        let mut i: usize = 0;
        while i < n
            invariant
                i <= n,
                n == self.keys_down@.len(),
                *self == *old(self),
                forall|k: int|
                    0 <= k < i ==> (#[trigger] self.keys_down@[k]).key_code != key_event.key_code,
            decreases n - i,
        {
            if self.keys_down[i].key_code == key_event.key_code {
                self.keys_down.remove(i);
                return;
            }
            i += 1;
        }
    }

    /// Register an area for the next frame tick; registrations are
    /// deduplicated.
    pub fn next_frame(&mut self, area: Area)
        ensures
            final(self).frame_callbacks@ == (
                if old(self).frame_callbacks@.contains(area) {
                    old(self).frame_callbacks@
                } else {
                    old(self).frame_callbacks@.push(area)
                }
            ),
            *final(self) == (Cx { frame_callbacks: final(self).frame_callbacks, ..*old(self) }),
    {
        let n = self.frame_callbacks.len();
        let mut i: usize = 0;
        while i < n
            invariant
                i <= n,
                n == self.frame_callbacks@.len(),
                *self == *old(self),
                forall|k: int| 0 <= k < i ==> self.frame_callbacks@[k] != area,
            decreases n - i,
        {
            if self.frame_callbacks[i] == area {
                proof {
                    assert(self.frame_callbacks@.contains(area));
                }
                return;
            }
            i += 1;
        }
        proof {
            assert(!self.frame_callbacks@.contains(area));
        }
        self.frame_callbacks.push(area);
    }

    /// Allocate a fresh signal handle.
    pub fn new_signal(&mut self) -> (s: Signal)
        ensures
            final(self).signal_id == old(self).signal_id.wrapping_add(1),
            s.signal_id == final(self).signal_id,
            *final(self) == (Cx { signal_id: final(self).signal_id, ..*old(self) }),
    {
        self.signal_id = self.signal_id.wrapping_add(1);
        Signal { signal_id: self.signal_id }
    }

    /// Enqueue a signal for delivery before the next draw.
    pub fn send_signal_before_draw(&mut self, signal: Signal, message: usize)
        ensures
            final(self).signals_before_draw@ == old(self).signals_before_draw@.push(
                (signal, message),
            ),
            *final(self) == (Cx {
                signals_before_draw: final(self).signals_before_draw,
                ..*old(self)
            }),
    {
        self.signals_before_draw.push((signal, message));
    }

    /// Enqueue a signal for delivery after the next draw.
    pub fn send_signal_after_draw(&mut self, signal: Signal, message: usize)
        ensures
            final(self).signals_after_draw@ == old(self).signals_after_draw@.push(
                (signal, message),
            ),
            *final(self) == (Cx {
                signals_after_draw: final(self).signals_after_draw,
                ..*old(self)
            }),
    {
        self.signals_after_draw.push((signal, message));
    }
}

/// Rewrite every occurrence of `old_a` in a list of areas to `new_a`.
pub open spec fn area_replace_all(s: Seq<Area>, old_a: Area, new_a: Area) -> Seq<Area> {
    s.map(|i: int, a: Area| if a == old_a { new_a } else { a })
}

/// Retarget every animation playing on `old_a` to `new_a`.
pub open spec fn anim_replace_all(s: Seq<AnimArea>, old_a: Area, new_a: Area) -> Seq<AnimArea> {
    s.map(|i: int, a: AnimArea| if a.area == old_a { (AnimArea { area: new_a, ..a }) } else { a })
}

/// Law: rewriting an area reference to itself is the identity on a list of
/// plain area references, whatever the list holds.
pub proof fn lemma_area_replace_self_noop(s: Seq<Area>, a: Area)
    ensures
        area_replace_all(s, a, a) == s,
{
    assert(area_replace_all(s, a, a) =~= s);
}

/// Law: retargeting animations to the area they already play on is the
/// identity on the animation list.
pub proof fn lemma_anim_replace_self_noop(s: Seq<AnimArea>, a: Area)
    ensures
        anim_replace_all(s, a, a) == s,
{
    assert forall|i: int| 0 <= i < s.len() implies anim_replace_all(s, a, a)[i] == s[i] by {
        if s[i].area == a {
            assert(AnimArea { area: a, ..s[i] } == s[i]);
        }
    }
    assert(anim_replace_all(s, a, a) =~= s);
}

/// Rewrite every occurrence of `old_a` in `v` to `new_a`.
fn replace_all_in(v: &mut Vec<Area>, old_a: Area, new_a: Area)
    ensures
        final(v)@ == area_replace_all(old(v)@, old_a, new_a),
{
    let n = v.len();
    let mut i: usize = 0;
    while i < n
        invariant
            i <= n,
            n == v@.len(),
            v@.len() == old(v)@.len(),
            forall|k: int|
                0 <= k < i ==> v@[k] == (if old(v)@[k] == old_a {
                    new_a
                } else {
                    old(v)@[k]
                }),
            forall|k: int| i <= k < n ==> v@[k] == old(v)@[k],
        decreases n - i,
    {
        if v[i] == old_a {
            v.set(i, new_a);
        }
        i += 1;
    }
    proof {
        assert(v@ =~= area_replace_all(old(v)@, old_a, new_a));
    }
}

/// Retarget every animation playing on `old_a` to `new_a`.
fn anim_replace_all_in(v: &mut Vec<AnimArea>, old_a: Area, new_a: Area)
    ensures
        final(v)@ == anim_replace_all(old(v)@, old_a, new_a),
{
    let n = v.len();
    let mut i: usize = 0;
    while i < n
        invariant
            i <= n,
            n == v@.len(),
            v@.len() == old(v)@.len(),
            forall|k: int|
                0 <= k < i ==> v@[k] == (if old(v)@[k].area == old_a {
                    (AnimArea { area: new_a, ..old(v)@[k] })
                } else {
                    old(v)@[k]
                }),
            forall|k: int| i <= k < n ==> v@[k] == old(v)@[k],
        decreases n - i,
    {
        if v[i].area == old_a {
            let prev = v[i];
            v.set(
                i,
                AnimArea { area: new_a, start_time: prev.start_time, total_time: prev.total_time },
            );
        }
        i += 1;
    }
    proof {
        assert(v@ =~= anim_replace_all(old(v)@, old_a, new_a));
    }
}

/// Whether an animation is still in flight at `time`: it must have a real
/// start time and not yet have used up its duration.
pub open spec fn anim_keeps(a: AnimArea, time: int) -> bool {
    match a.start_time {
        Option::Some(st) => time - st < a.total_time,
        Option::None => false,
    }
}

/// The animations still playing at `time`, in order.
pub open spec fn kept_anims(s: Seq<AnimArea>, time: int) -> Seq<AnimArea>
    decreases s.len(),
{
    if s.len() == 0 {
        s
    } else {
        let rest = kept_anims(s.drop_last(), time);
        if anim_keeps(s.last(), time) {
            rest.push(s.last())
        } else {
            rest
        }
    }
}

/// The animations that have ended by `time`, in order.
pub open spec fn ended_anims(s: Seq<AnimArea>, time: int) -> Seq<AnimArea>
    decreases s.len(),
{
    if s.len() == 0 {
        s
    } else {
        let rest = ended_anims(s.drop_last(), time);
        if anim_keeps(s.last(), time) {
            rest
        } else {
            rest.push(s.last())
        }
    }
}

/// Whether a new tap at `pos`/`time` chains with the finger's previous tap:
/// it must come within [`TAP_TIME`] ticks and within [`TAP_DIST`] units.
pub open spec fn tap_chains(prev: FingerTap, pos: Vec2I, time: int) -> bool {
    &&& time - prev.last_time < TAP_TIME
    &&& (pos.x - prev.last_pos.x) * (pos.x - prev.last_pos.x)
        + (pos.y - prev.last_pos.y) * (pos.y - prev.last_pos.y) < TAP_DIST * TAP_DIST
}

impl Cx {
    /// Rewrite every live reference to `old_area` held by a subsystem — the
    /// playing animations, the captured fingers, the key focus, the last
    /// hovered area and the frame-callback registrations — to `new_area`.
    /// The sentinels `Empty` and `All` are never rewritten.
    pub fn update_area_refs(&mut self, old_area: Area, new_area: Area)
        ensures
            (old_area == Area::Empty || old_area == Area::All) ==> *final(self) == *old(self),
            (old_area != Area::Empty && old_area != Area::All) ==> {
                &&& final(self).playing_anim_areas@ == anim_replace_all(
                    old(self).playing_anim_areas@,
                    old_area,
                    new_area,
                )
                &&& final(self).captured_fingers@ == area_replace_all(
                    old(self).captured_fingers@,
                    old_area,
                    new_area,
                )
                &&& final(self).key_focus == (
                    if old(self).key_focus == old_area {
                        new_area
                    } else {
                        old(self).key_focus
                    }
                )
                &&& final(self)._finger_over_last_area == (
                    if old(self)._finger_over_last_area == old_area {
                        new_area
                    } else {
                        old(self)._finger_over_last_area
                    }
                )
                &&& final(self).frame_callbacks@ == area_replace_all(
                    old(self).frame_callbacks@,
                    old_area,
                    new_area,
                )
                &&& *final(self) == (Cx {
                    playing_anim_areas: final(self).playing_anim_areas,
                    captured_fingers: final(self).captured_fingers,
                    key_focus: final(self).key_focus,
                    _finger_over_last_area: final(self)._finger_over_last_area,
                    frame_callbacks: final(self).frame_callbacks,
                    ..*old(self)
                })
            },
    {
        if old_area == Area::Empty || old_area == Area::All {
            return;
        }
        anim_replace_all_in(&mut self.playing_anim_areas, old_area, new_area);
        replace_all_in(&mut self.captured_fingers, old_area, new_area);
        if self.key_focus == old_area {
            self.key_focus = new_area;
        }
        if self._finger_over_last_area == old_area {
            self._finger_over_last_area = new_area;
        }
        replace_all_in(&mut self.frame_callbacks, old_area, new_area);
    }

    /// Move every animation whose duration has elapsed at `time` — or whose
    /// start is the already-ended sentinel — from the playing list to the
    /// ended list, which is rebuilt from scratch each check.
    pub fn check_ended_anim_areas(&mut self, time: i64)
        ensures
            final(self).playing_anim_areas@ == kept_anims(
                old(self).playing_anim_areas@,
                time as int,
            ),
            final(self).ended_anim_areas@ == ended_anims(
                old(self).playing_anim_areas@,
                time as int,
            ),
            *final(self) == (Cx {
                playing_anim_areas: final(self).playing_anim_areas,
                ended_anim_areas: final(self).ended_anim_areas,
                ..*old(self)
            }),
    {
        self.ended_anim_areas.clear();
        let mut keep: Vec<AnimArea> = Vec::new();
        let n = self.playing_anim_areas.len();
        let mut i: usize = 0;
        while i < n
            invariant
                i <= n,
                n == self.playing_anim_areas@.len(),
                self.playing_anim_areas == old(self).playing_anim_areas,
                *self == (Cx { ended_anim_areas: self.ended_anim_areas, ..*old(self) }),
                keep@ == kept_anims(self.playing_anim_areas@.take(i as int), time as int),
                self.ended_anim_areas@ == ended_anims(
                    self.playing_anim_areas@.take(i as int),
                    time as int,
                ),
            decreases n - i,
        {
            let a = self.playing_anim_areas[i];
            proof {
                assert(self.playing_anim_areas@.take(i + 1).drop_last()
                    =~= self.playing_anim_areas@.take(i as int));
                assert(self.playing_anim_areas@.take(i + 1).last() == a);
            }
            let keeps = match a.start_time {
                Option::Some(st) => (time as i128) - (st as i128) < (a.total_time as i128),
                Option::None => false,
            };
            if keeps {
                keep.push(a);
            } else {
                self.ended_anim_areas.push(a);
            }
            i += 1;
        }
        proof {
            assert(self.playing_anim_areas@.take(n as int) =~= self.playing_anim_areas@);
        }
        self.playing_anim_areas = keep;
    }

    /// Advance the tap counter of one finger: a tap within [`TAP_TIME`] and
    /// [`TAP_DIST`] of the previous one chains (count goes up by one), any
    /// other tap restarts the count at one. A digit outside the tracked
    /// slots counts zero and changes nothing.
    pub fn process_tap_count(&mut self, digit: usize, pos: Vec2I, time: i64) -> (count: u32)
        ensures
            digit >= old(self).finger_tap_count@.len() ==> count == 0 && *final(self) == *old(
                self,
            ),
            digit < old(self).finger_tap_count@.len() ==> {
                let prev = old(self).finger_tap_count@[digit as int];
                &&& count == (
                    if tap_chains(prev, pos, time as int) {
                        prev.count.wrapping_add(1)
                    } else {
                        1u32
                    }
                )
                &&& final(self).finger_tap_count@ == old(self).finger_tap_count@.update(
                    digit as int,
                    (FingerTap { last_pos: pos, last_time: time, count: count }),
                )
                &&& *final(self) == (Cx {
                    finger_tap_count: final(self).finger_tap_count,
                    ..*old(self)
                })
            },
    {
        if digit >= self.finger_tap_count.len() {
            return 0;
        }
        let prev = self.finger_tap_count[digit];
        let within_time = (time as i128) - (prev.last_time as i128) < (TAP_TIME as i128);
        let dx = (pos.x as i128) - (prev.last_pos.x as i128);
        let dy = (pos.y as i128) - (prev.last_pos.y as i128);
        let small = dx < TAP_DIST as i128 && dx > -(TAP_DIST as i128) && dy < TAP_DIST as i128
            && dy > -(TAP_DIST as i128);
        let near: bool;
        if small {
            proof {
                assert(dx * dx <= 100 && dy * dy <= 100 && dx * dx >= 0 && dy * dy >= 0)
                    by (nonlinear_arith)
                    requires
                        -10 <= dx <= 10,
                        -10 <= dy <= 10,
                ;
            }
            near = dx * dx + dy * dy < (TAP_DIST as i128) * (TAP_DIST as i128);
        } else {
            proof {
                assert((dx >= 10 || dx <= -10 || dy >= 10 || dy <= -10) ==> dx * dx + dy * dy
                    >= 100) by (nonlinear_arith);
            }
            near = false;
        }
        let count: u32;
        if within_time && near {
            count = prev.count.wrapping_add(1);
        } else {
            count = 1;
        }
        self.finger_tap_count.set(
            digit,
            FingerTap { last_pos: pos, last_time: time, count },
        );
        count
    }
}

/// The free list only names slots that exist in the view arena.
pub open spec fn views_free_wf(cx: Cx) -> bool {
    forall|i: int| 0 <= i < cx.views_free@.len() ==> (#[trigger] cx.views_free@[i]) < cx.views@.len()
}

impl Cx {
    /// Claim a view slot for a widget: recycle the most recently freed slot
    /// if any, else grow the arena. The slot starts with the given parent
    /// and pass and cleared geometry.
    pub fn alloc_view(&mut self, nesting_view_id: usize, pass_id: usize) -> (view_id: usize)
        requires
            views_free_wf(*old(self)),
            old(self).views@.len() < usize::MAX,
        ensures
            view_id < final(self).views@.len(),
            final(self).views@[view_id as int] == (CxView {
                nesting_view_id,
                pass_id,
                rect: crate::geom::RectI { x: 0, y: 0, w: 0, h: 0 },
                scroll: Vec2I { x: 0, y: 0 },
            }),
            (if old(self).views_free@.len() > 0 {
                &&& view_id == old(self).views_free@.last()
                &&& final(self).views_free@ == old(self).views_free@.drop_last()
                &&& final(self).views@ == old(self).views@.update(
                    view_id as int,
                    final(self).views@[view_id as int],
                )
            } else {
                &&& view_id == old(self).views@.len()
                &&& final(self).views_free@ == old(self).views_free@
                &&& final(self).views@ == old(self).views@.push(
                    final(self).views@[view_id as int],
                )
            }),
            views_free_wf(*final(self)),
            *final(self) == (Cx {
                views: final(self).views,
                views_free: final(self).views_free,
                ..*old(self)
            }),
    {
        let fresh = CxView {
            nesting_view_id,
            pass_id,
            rect: crate::geom::RectI { x: 0, y: 0, w: 0, h: 0 },
            scroll: Vec2I { x: 0, y: 0 },
        };
        match self.views_free.pop() {
            Option::Some(view_id) => {
                proof {
                    assert(old(self).views_free@[old(self).views_free@.len() - 1] < old(
                        self,
                    ).views@.len());
                }
                self.views.set(view_id, fresh);
                view_id
            },
            Option::None => {
                let view_id = self.views.len();
                self.views.push(fresh);
                view_id
            },
        }
    }

    /// Return a view slot to the free list when its widget is destructed;
    /// the slot's storage stays put so stale areas can still be rewritten.
    pub fn free_view(&mut self, view_id: usize)
        requires
            view_id < old(self).views@.len(),
        ensures
            final(self).views_free@ == old(self).views_free@.push(view_id),
            *final(self) == (Cx { views_free: final(self).views_free, ..*old(self) }),
    {
        self.views_free.push(view_id);
    }
}

/// Fold a whole sequence of areas into a dirty list, in order.
pub open spec fn dirty_insert_seq(s: Seq<Area>, adds: Seq<Area>) -> Seq<Area>
    decreases adds.len(),
{
    if adds.len() == 0 {
        s
    } else {
        dirty_insert_seq(dirty_insert(s, adds[0]), adds.skip(1))
    }
}

/// Law: the dirty-set invariant survives any sequence of marking calls, so
/// a set that started empty is always collapsed and deduplicated.
pub proof fn lemma_dirty_insert_seq_preserves_inv(s: Seq<Area>, adds: Seq<Area>)
    requires
        crate::area::dirty_set_inv(s),
    ensures
        crate::area::dirty_set_inv(dirty_insert_seq(s, adds)),
    decreases adds.len(),
{
    if adds.len() > 0 {
        crate::area::lemma_dirty_insert_preserves_inv(s, adds[0]);
        lemma_dirty_insert_seq_preserves_inv(dirty_insert(s, adds[0]), adds.skip(1));
    }
}

/// Law: once a dirty set holds only the `All` sentinel, any further
/// sequence of marking calls leaves it exactly there.
pub proof fn lemma_dirty_all_absorbs_seq(adds: Seq<Area>)
    ensures
        dirty_insert_seq(seq![Area::All], adds) == seq![Area::All],
    decreases adds.len(),
{
    if adds.len() > 0 {
        crate::area::lemma_dirty_all_absorbs(seq![Area::All], adds[0]);
        lemma_dirty_all_absorbs_seq(adds.skip(1));
    }
}

/// Folding one more area equals folding the prefix and inserting it last.
pub proof fn lemma_dirty_insert_seq_snoc(s: Seq<Area>, adds: Seq<Area>, a: Area)
    ensures
        dirty_insert_seq(s, adds.push(a)) == dirty_insert(dirty_insert_seq(s, adds), a),
    decreases adds.len(),
{
    if adds.len() == 0 {
        assert(adds.push(a).skip(1) =~= Seq::<Area>::empty());
        assert(adds.push(a)[0] == a);
        assert(dirty_insert_seq(dirty_insert(s, a), Seq::<Area>::empty()) == dirty_insert(s, a));
        assert(dirty_insert_seq(s, adds) == s);
    } else {
        assert(adds.push(a)[0] == adds[0]);
        assert(adds.push(a).skip(1) =~= adds.skip(1).push(a));
        lemma_dirty_insert_seq_snoc(dirty_insert(s, adds[0]), adds.skip(1), a);
    }
}

} // verus!
