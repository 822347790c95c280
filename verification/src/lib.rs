//! Capture-and-storage engine for a process-behavior monitor.
//!
//! A fixed-capacity arena backs an append-only graph of categorized
//! behavioral events; a capture session state machine owns the monitored
//! target and the tracing subscription; the engine exposes a polling
//! surface that reports progress through immutable view-state snapshots.

pub mod arena;
pub mod engine;
pub mod event;
pub mod graph;
pub mod monitor;
pub mod session;
pub mod view;

pub use arena::Arena;
pub use engine::{Engine, EventIter};
pub use event::{
    category_code, category_from_u8, status_code, status_from_u8, Category, Event, RawRecord,
    Status,
};
pub use graph::EventGraph;
pub use monitor::App;
pub use session::{CaptureSession, FailReason, SessionState, SessionView};
pub use view::ViewState;
