//! Plain event values delivered through the dispatch core, and the deferred
//! signal handle. Times are whole ticks of the caller's clock; positions are
//! whole units.

use vstd::prelude::*;
use crate::geom::Vec2I;
use crate::area::Area;

verus! {

/// A key identified by its code; `time` is when the key went down.
#[derive(Clone, Copy, PartialEq, Eq, Structural, Debug)]
pub struct KeyEvent {
    pub key_code: u32,
    pub time: i64,
}

/// Notification that key focus moved from `last` to `focus`.
#[derive(Clone, Copy, PartialEq, Eq, Structural, Debug)]
pub struct KeyFocusEvent {
    pub last: Area,
    pub focus: Area,
}

/// An animation or frame tick.
#[derive(Clone, Copy, PartialEq, Eq, Structural, Debug)]
pub struct AnimateEvent {
    pub time: i64,
    pub frame: u64,
}

#[derive(Clone, Copy, PartialEq, Eq, Structural, Debug)]
pub struct FrameEvent {
    pub time: i64,
    pub frame: u64,
}

/// A deferred signal delivery: the signal's id and the payload it was sent
/// with.
#[derive(Clone, Copy, PartialEq, Eq, Structural, Debug)]
pub struct SignalEvent {
    pub signal_id: usize,
    pub value: usize,
}

/// A handle to a deferred-delivery channel, allocated by the context.
#[derive(Clone, Copy, PartialEq, Eq, Structural, Debug)]
pub struct Signal {
    pub signal_id: usize,
}

#[derive(Clone, Copy, PartialEq, Eq, Structural, Debug)]
pub struct FingerDownEvent {
    pub window_id: usize,
    pub digit: usize,
    pub abs: Vec2I,
    pub time: i64,
}

#[derive(Clone, Copy, PartialEq, Eq, Structural, Debug)]
pub struct FingerMoveEvent {
    pub window_id: usize,
    pub digit: usize,
    pub abs: Vec2I,
    pub time: i64,
}

#[derive(Clone, Copy, PartialEq, Eq, Structural, Debug)]
pub struct FingerUpEvent {
    pub window_id: usize,
    pub digit: usize,
    pub abs: Vec2I,
    pub time: i64,
}

#[derive(Clone, Copy, PartialEq, Eq, Structural, Debug)]
pub struct FingerHoverEvent {
    pub window_id: usize,
    pub abs: Vec2I,
    pub time: i64,
}

#[derive(Clone, Copy, PartialEq, Eq, Structural, Debug)]
pub struct FingerScrollEvent {
    pub window_id: usize,
    pub abs: Vec2I,
    pub scroll: Vec2I,
    pub time: i64,
}

/// A window lifecycle notice carrying only the window concerned.
#[derive(Clone, Copy, PartialEq, Eq, Structural, Debug)]
pub struct WindowEvent {
    pub window_id: usize,
}

/// A window moved or resized; geometry in whole units, dpi in thousandths.
#[derive(Clone, Copy, PartialEq, Eq, Structural, Debug)]
pub struct WindowGeomChangeEvent {
    pub window_id: usize,
    pub position: Vec2I,
    pub inner_size: Vec2I,
    pub dpi_factor: u64,
}

/// A pending file read issued through the context; the read itself is done by
/// the surrounding platform layer.
#[derive(Clone, PartialEq, Eq, Debug)]
pub struct FileReadRequest {
    pub read_id: u64,
    pub path: String,
}

/// The outcome of a file read, delivered as an ordinary event.
#[derive(Debug)]
pub struct FileReadEvent {
    pub read_id: u64,
    pub data: Result<Vec<u8>, String>,
}

impl Clone for FileReadEvent {
    fn clone(&self) -> (r: FileReadEvent)
        ensures
            r.read_id == self.read_id,
            (match (&self.data, &r.data) {
                (Result::Ok(a), Result::Ok(b)) => a@ == b@,
                (Result::Err(a), Result::Err(b)) => a@ == b@,
                _ => false,
            }),
    {
        FileReadEvent {
            read_id: self.read_id,
            data: match &self.data {
                Result::Ok(v) => Result::Ok(v.clone()),
                Result::Err(e) => Result::Err(e.clone()),
            },
        }
    }
}

/// The events the dispatch core delivers to the application's handler.
#[derive(Clone, Debug)]
pub enum Event {
    Construct,
    Destruct,
    Draw,
    Animate(AnimateEvent),
    AnimateEnded(AnimateEvent),
    Frame(FrameEvent),
    Signal(SignalEvent),
    KeyFocus(KeyFocusEvent),
    KeyDown(KeyEvent),
    KeyUp(KeyEvent),
    FileRead(FileReadEvent),
    FingerDown(FingerDownEvent),
    FingerMove(FingerMoveEvent),
    FingerUp(FingerUpEvent),
    FingerHover(FingerHoverEvent),
    FingerScroll(FingerScrollEvent),
    WindowCloseRequested(WindowEvent),
    WindowClosed(WindowEvent),
    WindowGeomChange(WindowGeomChangeEvent),
}

impl Event {
    /// The window an event is addressed to, where it carries one.
    pub open spec fn spec_target_window(self) -> Option<usize> {
        match self {
            Event::FingerDown(e) => Option::Some(e.window_id),
            Event::FingerMove(e) => Option::Some(e.window_id),
            Event::FingerUp(e) => Option::Some(e.window_id),
            Event::FingerHover(e) => Option::Some(e.window_id),
            Event::FingerScroll(e) => Option::Some(e.window_id),
            Event::WindowCloseRequested(e) => Option::Some(e.window_id),
            Event::WindowClosed(e) => Option::Some(e.window_id),
            Event::WindowGeomChange(e) => Option::Some(e.window_id),
            _ => Option::None,
        }
    }

    /// Whether this event is addressed to a window other than `window_id`:
    /// true exactly for the window-carrying events of another window.
    pub fn is_for_other_window(&self, window_id: usize) -> (r: bool)
        ensures
            r == (match self.spec_target_window() {
                Option::Some(w) => w != window_id,
                Option::None => false,
            }),
    {
        match self {
            Event::FingerDown(e) => e.window_id != window_id,
            Event::FingerMove(e) => e.window_id != window_id,
            Event::FingerUp(e) => e.window_id != window_id,
            Event::FingerHover(e) => e.window_id != window_id,
            Event::FingerScroll(e) => e.window_id != window_id,
            Event::WindowCloseRequested(e) => e.window_id != window_id,
            Event::WindowClosed(e) => e.window_id != window_id,
            Event::WindowGeomChange(e) => e.window_id != window_id,
            _ => false,
        }
    }
}

} // verus!
