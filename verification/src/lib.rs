//! A thread-safe, shared, mutable named entity with an observer registration
//! slot and a pending-event buffer.
//!
//! The core value type is `Observable`: a name, a collection of listener
//! handles, a queue of pending events, and a shutdown flag. A
//! `SharedObservable` is a reference-counted, lock-protected handle to one
//! such entity; every holder of the handle sees the same mutable state.
//!
//! Event delivery and shutdown handling are deliberately absent: the entity
//! only stores listener handles and pending events, it never dispatches them.

mod entity;
mod laws;
mod render;
mod shared;

pub use entity::Event;
pub use entity::EventPayload;
pub use entity::ListenerHandle;
pub use entity::Observable;
pub use laws::lemma_fresh_snapshot_shows_name;
pub use laws::lemma_rename_then_snapshot;
pub use laws::lemma_snapshot_repeatable;
pub use laws::lemma_snapshot_shows_name;
pub use render::decimal;
pub use render::digit_char;
pub use render::format_u64;
pub use render::render_snapshot;
pub use render::snapshot_text;
pub use shared::QuiescentPred;
pub use shared::SharedObservable;
