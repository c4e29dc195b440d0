//! Merging of two time-ordered market-data streams, quotes and trades, into
//! one stream of ticks in ascending order of local receipt time.
//!
//! - `tick`: the records of the two streams and the tick that carries them.
//! - `producer`: the producer of the merged stream, which holds one record of
//!   each stream ahead and is driven by the reader of the streams.
//! - `merge`: the merged stream as a mathematical sequence, and the merge of
//!   two streams that are held in memory.
//! - `laws`: what holds of every merged stream and of every producer.
//! - `time`: the calendar time of a timestamp.
//! - `window_type`: the kinds of time window over a tick stream.
//! - `text`: comparison of string slices.

pub mod laws;
pub mod merge;
pub mod producer;
pub mod text;
pub mod tick;
pub mod time;
pub mod window_type;
