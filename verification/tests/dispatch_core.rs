use uicore::area::{Area, ViewArea};
use uicore::events::{FingerDownEvent, WindowEvent};
use uicore::geom::{Vec2I, RectI};
use uicore::cx::PlatformType;
use uicore::graph::{GraphNode, GraphNodePort, PortDirection};
use uicore::cx::Cx;
use uicore::dispatch::EventHandler;
use uicore::events::{Event, KeyEvent};

fn view(id: usize) -> Area {
    Area::View(ViewArea { view_id: id })
}

/// Records the names of the events it is handed, in order.
struct Recorder {
    log: Vec<String>,
    grab_focus: Option<Area>,
    register_frame: Option<Area>,
}

impl Recorder {
    fn new() -> Recorder {
        Recorder { log: Vec::new(), grab_focus: None, register_frame: None }
    }
}

impl EventHandler for Recorder {
    fn handle(&mut self, cx: &mut Cx, event: &Event) {
        match event {
            Event::Draw => self.log.push("draw".to_string()),
            Event::Animate(ae) => self.log.push(format!("animate@{}", ae.time)),
            Event::AnimateEnded(ae) => self.log.push(format!("ended@{}", ae.time)),
            Event::Frame(_) => {
                self.log.push("frame".to_string());
                if let Some(area) = self.register_frame.take() {
                    cx.next_frame(area);
                }
            },
            Event::Signal(se) => self.log.push(format!("signal{}:{}", se.signal_id, se.value)),
            Event::KeyUp(ke) => self.log.push(format!("keyup{}", ke.key_code)),
            Event::KeyFocus(kf) => {
                self.log.push(format!(
                    "focus {:?} -> {:?}",
                    kf.last, kf.focus
                ));
            },
            Event::Construct => {
                self.log.push("construct".to_string());
                if let Some(area) = self.grab_focus.take() {
                    cx.set_key_focus(area);
                }
            },
            _ => self.log.push("other".to_string()),
        }
    }
}

#[test]
fn focus_change_is_notified_within_the_same_dispatch() {
    let mut cx = Cx::default();
    let mut handler = Recorder::new();
    handler.grab_focus = Some(view(3));
    cx.call_event_handler(&mut handler, &Event::Construct);
    assert_eq!(handler.log.len(), 2);
    assert_eq!(handler.log[0], "construct");
    assert!(handler.log[1].starts_with("focus"));
    assert_eq!(cx.last_key_focus, view(3));
}

#[test]
fn no_focus_notification_without_a_change() {
    let mut cx = Cx::default();
    let mut handler = Recorder::new();
    cx.call_event_handler(&mut handler, &Event::Construct);
    assert_eq!(handler.log, vec!["construct".to_string()]);
}

#[test]
fn draw_event_swaps_dirty_buffers_and_clears_accumulation() {
    let mut cx = Cx::default();
    cx.redraw_child_area(view(1));
    cx.redraw_parent_area(view(2));
    let redraw_id_before = cx.redraw_id;
    let mut handler = Recorder::new();
    cx.call_draw_event(&mut handler);
    assert_eq!(handler.log, vec!["draw".to_string()]);
    assert_eq!(cx._redraw_child_areas, vec![view(1)]);
    assert_eq!(cx._redraw_parent_areas, vec![view(2)]);
    assert_eq!(cx.redraw_child_areas.len(), 0);
    assert_eq!(cx.redraw_parent_areas.len(), 0);
    assert_eq!(cx.redraw_id, redraw_id_before + 1);
    assert!(!cx.is_in_redraw_cycle);
}

#[test]
fn animate_always_precedes_animate_ended() {
    let mut cx = Cx::default();
    cx.playing_anim_areas = vec![uicore::cx::AnimArea {
        area: view(1),
        start_time: Some(0),
        total_time: 500,
    }];
    let mut handler = Recorder::new();
    cx.call_animation_event(&mut handler, 600);
    assert_eq!(handler.log, vec!["animate@600".to_string(), "ended@600".to_string()]);
    assert_eq!(cx.ended_anim_areas.len(), 1);
}

#[test]
fn no_ended_event_while_still_playing() {
    let mut cx = Cx::default();
    cx.playing_anim_areas = vec![uicore::cx::AnimArea {
        area: view(1),
        start_time: Some(0),
        total_time: 500,
    }];
    let mut handler = Recorder::new();
    cx.call_animation_event(&mut handler, 400);
    assert_eq!(handler.log, vec!["animate@400".to_string()]);
}

#[test]
fn frame_registrations_during_dispatch_wait_one_tick() {
    let mut cx = Cx::default();
    cx.next_frame(view(1));
    let mut handler = Recorder::new();
    handler.register_frame = Some(view(2));
    cx.call_frame_event(&mut handler, 0);
    // the snapshot held only the earlier registrant; the re-entrant one is
    // queued for the next tick
    assert_eq!(cx._frame_callbacks, vec![view(1)]);
    assert_eq!(cx.frame_callbacks, vec![view(2)]);
}

#[test]
fn all_keys_up_synthesizes_a_key_up_per_held_key() {
    let mut cx = Cx::default();
    cx.process_key_down(KeyEvent { key_code: 1, time: 0 });
    cx.process_key_down(KeyEvent { key_code: 2, time: 1 });
    let mut handler = Recorder::new();
    cx.call_all_keys_up(&mut handler);
    assert_eq!(handler.log, vec!["keyup1".to_string(), "keyup2".to_string()]);
    assert_eq!(cx.keys_down.len(), 0);
}

#[test]
fn queued_signals_deliver_in_enqueue_order() {
    let mut cx = Cx::default();
    let s1 = cx.new_signal();
    let s2 = cx.new_signal();
    cx.send_signal_before_draw(s1, 7);
    cx.send_signal_before_draw(s2, 8);
    let mut handler = Recorder::new();
    cx.call_signals_before_draw(&mut handler);
    assert_eq!(
        handler.log,
        vec![format!("signal{}:7", s1.signal_id), format!("signal{}:8", s2.signal_id)]
    );
    assert_eq!(cx.signals_before_draw.len(), 0);
    cx.send_signal_after_draw(s1, 9);
    cx.call_signals_after_draw(&mut handler);
    assert_eq!(handler.log.last().unwrap(), &format!("signal{}:9", s1.signal_id));
}

#[test]
fn event_window_targeting_is_by_window_id() {
    let finger = Event::FingerDown(FingerDownEvent {
        window_id: 2,
        digit: 0,
        abs: Vec2I { x: 0, y: 0 },
        time: 0,
    });
    assert!(finger.is_for_other_window(1));
    assert!(!finger.is_for_other_window(2));
    let closed = Event::WindowClosed(WindowEvent { window_id: 0 });
    assert!(closed.is_for_other_window(3));
    assert!(!Event::Draw.is_for_other_window(3));
}

#[test]
fn style_table_round_trips_and_replaces() {
    let mut cx = Cx::default();
    cx.set_color("bg", 0xff00ff00);
    cx.set_font("mono", "Fira Code");
    cx.set_size("pad", 12);
    assert_eq!(cx.color("bg"), 0xff00ff00);
    assert_eq!(cx.font("mono"), "Fira Code");
    assert_eq!(cx.size("pad"), 12);
    cx.set_color("bg", 0x11111111);
    assert_eq!(cx.color("bg"), 0x11111111);
    assert_eq!(cx.style_values.len(), 3);
}

#[test]
fn platform_kind_knows_what_is_desktop() {
    assert!(PlatformType::Windows.is_desktop());
    assert!(PlatformType::OSX.is_desktop());
    assert!(PlatformType::Linux.is_desktop());
    assert!(!PlatformType::WASM.is_desktop());
}

#[test]
fn graph_node_ports_address_and_resolve() {
    let mut node = GraphNode::new(RectI { x: 0, y: 0, w: 10, h: 10 });
    assert!(node.inputs.is_empty());
    node.inputs.push(GraphNodePort { id: 100 });
    node.inputs.push(GraphNodePort { id: 101 });
    node.outputs.push(GraphNodePort { id: 200 });
    let addr = node.get_port_address(PortDirection::Input, 1).unwrap();
    assert_eq!(addr.port, 101);
    assert_eq!(addr.node, node.id);
    assert!(node.get_port_address(PortDirection::Input, 2).is_none());
    assert!(node.get_port_address(PortDirection::Output, 1).is_none());
    let port = node.get_port_by_address(&addr).unwrap();
    assert_eq!(port.id, 101);
    let mut missing = addr;
    missing.port = 999;
    assert!(node.get_port_by_address(&missing).is_none());
}
