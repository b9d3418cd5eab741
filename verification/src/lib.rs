//! Keyboard press-count collection: decoding raw input-event records,
//! tracking held modifier keys, aggregating press counts per key
//! combination, and durably snapshotting the aggregate.
//!
//! - [`event`]: fixed-size record decoding by explicit field extraction.
//! - [`tracker`]: the modifier-state machine and the combinations it emits.
//! - [`aggregate`]: the combination-to-count mapping and its `bump` model.
//! - [`collector`]: decoder → tracker → aggregator, with the snapshot
//!   threshold, as one step function for the blocking read loop.
//! - [`snapshot`]: descending sort and canonical line rendering.
//! - [`store`]: the write-temp-then-rename publish protocol and the
//!   startup rotation, proved over a model of the persistent state.
//! - [`keycodes`]: the static key-label table.
//! - [`numeral`]: decimal numerals and their round trip.
//! - [`laws`]: pipeline-wide laws over whole event sequences.

pub mod aggregate;
pub mod collector;
pub mod event;
pub mod keycodes;
pub mod laws;
pub mod numeral;
pub mod snapshot;
pub mod store;
pub mod tracker;

pub use aggregate::Aggregator;
pub use collector::Collector;
pub use event::DecodedEvent;
pub use event::EventKind;
pub use tracker::ModifierTracker;
pub use tracker::PressedCombination;
