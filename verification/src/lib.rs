//! An in-memory byte buffer that is written at its end and read from a moving
//! cursor, with extraction of complete terminator-delimited lines.
//!
//! [`BufferModel`] is the mathematical value of a buffer, [`BufferState`] the
//! single-owner buffer whose operations are proved against that model, and
//! [`IoBuffer`] a cloneable, thread-safe handle that runs those operations
//! under one lock.

pub mod laws;
pub mod lock;
pub mod model;
pub mod shared;
pub mod state;

pub use model::BufferModel;
pub use shared::IoBuffer;
pub use shared::Lines;
pub use state::BufferState;
