//! A minimal real-time audio synthesis and playback core.
//!
//! A graph of sample generators ([`source::Source`]) feeds a playback sink.
//! Control code tunes parameters through [`cell::AtomicF32`] cells while the
//! backend's callback pulls samples; the sink renders in bounded chunks and
//! keeps exact position bookkeeping.

pub mod cell;
pub mod offline;
pub mod sink;
pub mod source;
pub mod square;
