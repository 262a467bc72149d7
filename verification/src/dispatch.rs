//! The event dispatch core: single-threaded, cooperative and re-entrant
//! safe. Everything an application observes arrives through one handler;
//! re-entrant registrations made during a dispatch are deferred to the next
//! one by snapshot-and-clear, never processed in the same pass.

use vstd::prelude::*;
use crate::cx::Cx;
use crate::events::{Event, KeyEvent, KeyFocusEvent, AnimateEvent, FrameEvent, SignalEvent, Signal};

verus! {

/// The application's event handler. The dispatch core calls it once per
/// delivered event; it may mutate the context freely, so nothing is assumed
/// of it.
pub trait EventHandler {
    fn handle(&mut self, cx: &mut Cx, event: &Event);
}

impl Cx {
    /// Snapshot and clear the queue of keys currently down.
    pub fn take_keys_down(&mut self) -> (keys: Vec<KeyEvent>)
        ensures
            keys@ == old(self).keys_down@,
            final(self).keys_down@.len() == 0,
            *final(self) == (Cx { keys_down: final(self).keys_down, ..*old(self) }),
    {
        let mut keys: Vec<KeyEvent> = Vec::new();
        keys.append(&mut self.keys_down);
        keys
    }

    /// Snapshot and clear the pending before-draw signal queue; signals sent
    /// during the delivery that follows wait for the next snapshot.
    pub fn take_signals_before_draw(&mut self) -> (signals: Vec<(Signal, usize)>)
        ensures
            signals@ == old(self).signals_before_draw@,
            final(self).signals_before_draw@.len() == 0,
            *final(self) == (Cx {
                signals_before_draw: final(self).signals_before_draw,
                ..*old(self)
            }),
    {
        let mut signals: Vec<(Signal, usize)> = Vec::new();
        signals.append(&mut self.signals_before_draw);
        signals
    }

    /// Snapshot and clear the pending after-draw signal queue.
    pub fn take_signals_after_draw(&mut self) -> (signals: Vec<(Signal, usize)>)
        ensures
            signals@ == old(self).signals_after_draw@,
            final(self).signals_after_draw@.len() == 0,
            *final(self) == (Cx {
                signals_after_draw: final(self).signals_after_draw,
                ..*old(self)
            }),
    {
        let mut signals: Vec<(Signal, usize)> = Vec::new();
        signals.append(&mut self.signals_after_draw);
        signals
    }

    /// Snapshot the frame-callback registrations into the current frame's
    /// list and clear the registration list, so areas registering during
    /// the dispatch that follows wait for the next tick.
    pub fn take_frame_callbacks(&mut self)
        ensures
            final(self)._frame_callbacks@ == old(self).frame_callbacks@,
            final(self).frame_callbacks@.len() == 0,
            *final(self) == (Cx {
                _frame_callbacks: final(self)._frame_callbacks,
                frame_callbacks: final(self).frame_callbacks,
                ..*old(self)
            }),
    {
        self._frame_callbacks.clear();
        self._frame_callbacks.append(&mut self.frame_callbacks);
    }

    /// Frame begin: the pending dirty sets become the current frame's sets,
    /// the accumulation lists and the layout state reset, and the redraw
    /// counter advances.
    pub fn begin_draw_cycle(&mut self)
        ensures
            final(self).is_in_redraw_cycle,
            final(self).redraw_id == old(self).redraw_id.wrapping_add(1),
            final(self)._redraw_child_areas@ == old(self).redraw_child_areas@,
            final(self)._redraw_parent_areas@ == old(self).redraw_parent_areas@,
            final(self).redraw_child_areas@.len() == 0,
            final(self).redraw_parent_areas@.len() == 0,
            final(self).align_list@.len() == 0,
            *final(self) == (Cx {
                is_in_redraw_cycle: true,
                redraw_id: final(self).redraw_id,
                _redraw_child_areas: final(self)._redraw_child_areas,
                _redraw_parent_areas: final(self)._redraw_parent_areas,
                redraw_child_areas: final(self).redraw_child_areas,
                redraw_parent_areas: final(self).redraw_parent_areas,
                align_list: final(self).align_list,
                ..*old(self)
            }),
    {
        self.is_in_redraw_cycle = true;
        self.redraw_id = self.redraw_id.wrapping_add(1);
        self._redraw_child_areas.clear();
        self._redraw_child_areas.append(&mut self.redraw_child_areas);
        self._redraw_parent_areas.clear();
        self._redraw_parent_areas.append(&mut self.redraw_parent_areas);
        self.align_list.clear();
    }

    /// Deliver one event: the handler runs once, and if key focus changed
    /// during that call, a `KeyFocus` notification is delivered to it
    /// immediately afterwards — a guaranteed side effect of the same
    /// dispatch, not a separately scheduled event. Nothing is promised of
    /// the state afterwards: the handler owns the context while it runs.
    pub fn call_event_handler<H: EventHandler>(&mut self, handler: &mut H, event: &Event) {
        self.event_id = self.event_id.wrapping_add(1);
        handler.handle(self, event);
        if self.last_key_focus != self.key_focus {
            let last_key_focus = self.last_key_focus;
            self.last_key_focus = self.key_focus;
            let focus_event = Event::KeyFocus(
                KeyFocusEvent { last: last_key_focus, focus: self.key_focus },
            );
            handler.handle(self, &focus_event);
        }
    }

    /// Run one draw cycle: frame begin (see [`Cx::begin_draw_cycle`]), then
    /// the `Draw` event; the redraw-cycle flag is clear once dispatch
    /// returns.
    pub fn call_draw_event<H: EventHandler>(&mut self, handler: &mut H)
        ensures
            !final(self).is_in_redraw_cycle,
    {
        self.begin_draw_cycle();
        let draw_event = Event::Draw;
        self.call_event_handler(handler, &draw_event);
        self.is_in_redraw_cycle = false;
    }

    /// One animation tick: deliver `Animate`, collect the animations that
    /// ended at `time`, and — only if any ended — deliver `AnimateEnded` in
    /// the same tick, always after `Animate`.
    pub fn call_animation_event<H: EventHandler>(&mut self, handler: &mut H, time: i64) {
        let animate_event = Event::Animate(AnimateEvent { time, frame: self.repaint_id });
        self.call_event_handler(handler, &animate_event);
        self.check_ended_anim_areas(time);
        if self.ended_anim_areas.len() > 0 {
            let ended_event = Event::AnimateEnded(AnimateEvent { time, frame: self.repaint_id });
            self.call_event_handler(handler, &ended_event);
        }
    }

    /// One frame tick: snapshot and clear the frame-callback registrations
    /// (see [`Cx::take_frame_callbacks`]), then deliver `Frame` once; areas
    /// registering during the dispatch fire on the next tick.
    pub fn call_frame_event<H: EventHandler>(&mut self, handler: &mut H, time: i64) {
        self.take_frame_callbacks();
        let frame_event = Event::Frame(FrameEvent { time, frame: self.repaint_id });
        self.call_event_handler(handler, &frame_event);
    }

    /// Synthesize a `KeyUp` for every key currently down, clearing the list
    /// first so a re-entrant release cannot double-fire; with no key down,
    /// nothing observable happens.
    pub fn call_all_keys_up<H: EventHandler>(&mut self, handler: &mut H)
        ensures
            old(self).keys_down@.len() == 0 ==> final(self).keys_down@.len() == 0 && *final(self)
                == (Cx { keys_down: final(self).keys_down, ..*old(self) }),
    {
        let keys_down = self.take_keys_down();
        if keys_down.len() == 0 {
            return;
        }
        let n = keys_down.len();
        let mut i: usize = 0;
        while i < n
            invariant
                i <= n,
                n == keys_down@.len(),
            decreases n - i,
        {
            let key_up_event = Event::KeyUp(keys_down[i]);
            self.call_event_handler(handler, &key_up_event);
            i += 1;
        }
    }

    /// Deliver one `Signal` event per signal queued before draw, in enqueue
    /// order, from a snapshot taken before the first delivery; an empty
    /// queue dispatches nothing and leaves the context untouched.
    pub fn call_signals_before_draw<H: EventHandler>(&mut self, handler: &mut H)
        ensures
            old(self).signals_before_draw@.len() == 0 ==> *final(self) == *old(self),
    {
        if self.signals_before_draw.len() == 0 {
            return;
        }
        let signals = self.take_signals_before_draw();
        let n = signals.len();
        let mut i: usize = 0;
        while i < n
            invariant
                i <= n,
                n == signals@.len(),
            decreases n - i,
        {
            let (signal, value) = signals[i];
            let signal_event = Event::Signal(
                SignalEvent { signal_id: signal.signal_id, value },
            );
            self.call_event_handler(handler, &signal_event);
            i += 1;
        }
    }

    /// Deliver one `Signal` event per signal queued after draw, in enqueue
    /// order, from a snapshot taken before the first delivery; an empty
    /// queue dispatches nothing and leaves the context untouched.
    pub fn call_signals_after_draw<H: EventHandler>(&mut self, handler: &mut H)
        ensures
            old(self).signals_after_draw@.len() == 0 ==> *final(self) == *old(self),
    {
        if self.signals_after_draw.len() == 0 {
            return;
        }
        let signals = self.take_signals_after_draw();
        let n = signals.len();
        let mut i: usize = 0;
        while i < n
            invariant
                i <= n,
                n == signals@.len(),
            decreases n - i,
        {
            let (signal, value) = signals[i];
            let signal_event = Event::Signal(
                SignalEvent { signal_id: signal.signal_id, value },
            );
            self.call_event_handler(handler, &signal_event);
            i += 1;
        }
    }
}

} // verus!
