//! Core of an immediate-mode UI framework: stable logical addressing of
//! drawn elements, a redraw/repaint scheduler over a tree of views and a DAG
//! of render passes, the per-frame event and animation bookkeeping, and a
//! recursive dockable-panel layout engine.
//!
//! Geometry and time are carried as plain integers (fixed units chosen by the
//! caller); every algorithm here is verified against a mathematical model of
//! the context state.

pub mod geom;
pub mod area;
pub mod events;
pub mod viewpass;
pub mod desktop;
pub mod style;
pub mod cx;
pub mod sched;
pub mod dispatch;
pub mod dock;
pub mod dock_walk;
pub mod graph;
