//! Caching state machine behind cloneable streams.
//!
//! A producer that yields items one at a time is wrapped once in an
//! [`InnerState`]; any number of [`Cursor`]s then read the same sequence from
//! the shared cache, each at its own pace, while the producer is asked for
//! each item at most once.

pub mod cursor;
pub mod laws;
pub mod state;

pub use cursor::Cursor;
pub use state::{CacheView, InnerState, Lookup};
