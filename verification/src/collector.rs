//! The collection-loop core: one raw record in, decoder → tracker →
//! aggregator, and a snapshot copy out every fixed number of recorded
//! combinations.
//!
//! The caller owns the blocking read and the background write; this
//! state machine decides everything in between.

use vstd::prelude::*;
use crate::aggregate::Aggregator;
use crate::aggregate::bump;
use crate::aggregate::total_of;
use crate::event::EVENT_RECORD_LEN;
use crate::event::EventKind;
use crate::event::category_kind;
use crate::event::decode_event;
use crate::event::decoded_of;
use crate::event::kind_of_category;
use crate::tracker::ModifierTracker;
use crate::tracker::PressedCombination;
use crate::tracker::emitted;
use crate::tracker::initial_tracker;
use crate::tracker::next_state;

verus! {

/// Default number of recorded combinations between snapshots.
pub const DEFAULT_SNAPSHOT_THRESHOLD: u64 = 100;

/// The key event a raw record carries to the tracker, if any: the
/// record must have exactly the fixed size and be of the `Key`
/// category; every other record is dropped silently.
pub open spec fn key_event_of(b: Seq<u8>) -> Option<(u16, i32)> {
    if b.len() == EVENT_RECORD_LEN as int && kind_of_category(decoded_of(b).category)
        == EventKind::Key {
        Some((decoded_of(b).code, decoded_of(b).value))
    } else {
        None
    }
}

/// The collection state: tracker, live aggregate, and the countdown to
/// the next snapshot.
pub struct Collector {
    pub tracker: ModifierTracker,
    pub agg: Aggregator,
    pub counter: u64,
    pub threshold: u64,
}

impl Collector {
    /// The aggregate is well formed and the countdown stays below the
    /// positive threshold.
    pub open spec fn wf(self) -> bool {
        &&& self.agg.wf()
        &&& self.threshold >= 1
        &&& self.counter < self.threshold
    }

    /// A fresh collector: no modifier held, empty aggregate, countdown
    /// at the start.
    pub fn new(threshold: u64) -> (r: Collector)
        requires
            threshold >= 1,
        ensures
            r.wf(),
            r.tracker == initial_tracker(),
            r.agg@ == Seq::<(PressedCombination, int)>::empty(),
            r.counter == 0,
            r.threshold == threshold,
    {
        Collector {
            tracker: ModifierTracker::new(),
            agg: Aggregator::new(),
            counter: 0,
            threshold,
        }
    }

    /// Feed one raw record through the pipeline. A record that is not a
    /// well-sized `Key` record changes nothing. A key event advances
    /// the tracker; when it yields a combination the aggregate becomes
    /// exactly `bump` of the old one, and on every `threshold`-th
    /// recorded combination a deep copy of the aggregate is handed back
    /// for the snapshot writer.
    pub fn ingest(&mut self, buf: &[u8]) -> (snap: Option<Vec<(PressedCombination, u64)>>)
        requires
            old(self).wf(),
            total_of(old(self).agg@) < u64::MAX,
        ensures
            final(self).wf(),
            final(self).threshold == old(self).threshold,
            (match key_event_of(buf@) {
                None => *final(self) == *old(self) && snap is None,
                Some(ev) => {
                    &&& final(self).tracker == next_state(old(self).tracker, ev.0, ev.1)
                    &&& match emitted(old(self).tracker, ev.0, ev.1) {
                        None => {
                            &&& final(self).agg == old(self).agg
                            &&& final(self).counter == old(self).counter
                            &&& snap is None
                        },
                        Some(c) => {
                            &&& final(self).agg@ == bump(old(self).agg@, c)
                            &&& if old(self).counter + 1 == old(self).threshold {
                                &&& final(self).counter == 0
                                &&& (snap matches Some(v) && v@ == final(self).agg.entries@)
                            } else {
                                &&& final(self).counter == old(self).counter + 1
                                &&& snap is None
                            }
                        },
                    }
                },
            }),
    {
        let decoded = decode_event(buf);
        match decoded {
            None => None,
            Some(ev) => {
                match category_kind(ev.category) {
                    EventKind::Key => {
                        match self.tracker.handle_key(ev.code, ev.value) {
                            Some(c) => {
                                self.agg.record(c);
                                if self.counter + 1 == self.threshold {
                                    self.counter = 0;
                                    Some(self.agg.snapshot())
                                } else {
                                    self.counter = self.counter + 1;
                                    None
                                }
                            },
                            None => None,
                        }
                    },
                    _ => None,
                }
            },
        }
    }
}

} // verus!
