//! Per-timestamp accounting read by deadline start and end conditions.
use vstd::prelude::*;

use crate::message::Message;
use crate::timestamp::{Timestamp, TimestampModel};

verus! {

/// An entry of the accounting: a timestamp, its data count, its watermark count.
pub type CountModel = (TimestampModel, u64, u64);

/// The counts recorded for `t`; `(0, 0)` when none are. A later entry
/// hides an earlier one.
pub open spec fn lookup(entries: Seq<CountModel>, t: TimestampModel) -> (u64, u64)
    decreases entries.len(),
{
    if entries.len() == 0 {
        (0, 0)
    } else if entries.last().0 == t {
        (entries.last().1, entries.last().2)
    } else {
        lookup(entries.drop_last(), t)
    }
}

pub open spec fn keys_unique(entries: Seq<CountModel>) -> bool {
    forall|i: int, j: int| 0 <= i < entries.len() && 0 <= j < entries.len() && i != j
        ==> (#[trigger] entries[i]).0 != (#[trigger] entries[j]).0
}

/// `n + 1`, or `n` at the largest `u64`.
pub open spec fn bump(n: u64) -> u64 {
    if n < u64::MAX { (n + 1) as u64 } else { n }
}

struct CountEntry {
    timestamp: Timestamp,
    data: u64,
    watermarks: u64,
}

/// Counts of the data messages and watermarks seen (or sent) per timestamp.
pub struct ConditionContext {
    entries: Vec<CountEntry>,
}

impl ConditionContext {
    pub closed spec fn entries_spec(&self) -> Seq<CountModel> {
        self.entries@.map_values(|e: CountEntry| (e.timestamp@, e.data, e.watermarks))
    }

    pub open spec fn wf(&self) -> bool {
        keys_unique(self.entries_spec())
    }

    pub open spec fn data_count_spec(&self, t: TimestampModel) -> u64 {
        lookup(self.entries_spec(), t).0
    }

    pub open spec fn watermark_count_spec(&self, t: TimestampModel) -> u64 {
        lookup(self.entries_spec(), t).1
    }

    /// Nothing counted yet.
    pub fn new() -> (r: ConditionContext)
        ensures
            r.wf(),
            forall|t: TimestampModel| r.data_count_spec(t) == 0 && r.watermark_count_spec(t) == 0,
    {
        let r = ConditionContext { entries: Vec::new() };
        assert(r.entries_spec() =~= Seq::<CountModel>::empty());
        r
    }

    fn position(&self, t: &Timestamp) -> (r: Option<usize>)
        ensures
            match r {
                Some(i) => i < self.entries_spec().len() && self.entries_spec()[i as int].0 == t@,
                None => forall|j: int| 0 <= j < self.entries_spec().len() ==> self.entries_spec()[j].0 != t@,
            },
    {
        let mut i: usize = 0;
        while i < self.entries.len()
            invariant
                i <= self.entries@.len(),
                self.entries_spec().len() == self.entries@.len(),
                forall|j: int| 0 <= j < i ==> self.entries_spec()[j].0 != t@,
            decreases self.entries.len() - i,
        {
            assert(self.entries_spec()[i as int].0 == self.entries@[i as int].timestamp@);
            if self.entries[i].timestamp.same_as(t) {
                return Some(i);
            }
            i = i + 1;
        }
        None
    }

    pub fn data_count(&self, t: &Timestamp) -> (r: u64)
        requires
            self.wf(),
        ensures
            r == self.data_count_spec(t@),
    {
        match self.position(t) {
            Some(i) => {
                proof { lemma_lookup_unique(self.entries_spec(), i as int); }
                self.entries[i].data
            },
            None => {
                proof { lemma_lookup_absent(self.entries_spec(), t@); }
                0
            },
        }
    }

    pub fn watermark_count(&self, t: &Timestamp) -> (r: u64)
        requires
            self.wf(),
        ensures
            r == self.watermark_count_spec(t@),
    {
        match self.position(t) {
            Some(i) => {
                proof { lemma_lookup_unique(self.entries_spec(), i as int); }
                self.entries[i].watermarks
            },
            None => {
                proof { lemma_lookup_absent(self.entries_spec(), t@); }
                0
            },
        }
    }

    /// Counts `msg` at its timestamp: one more data message, or one more
    /// watermark (a count stays at the largest `u64` once there). Other
    /// timestamps keep their counts.
    pub fn record<T>(&mut self, msg: &Message<T>)
        requires
            old(self).wf(),
        ensures
            final(self).wf(),
            ({
                let t = msg.timestamp_spec();
                let (d, w) = lookup(old(self).entries_spec(), t);
                lookup(final(self).entries_spec(), t) == if msg.is_watermark_spec() {
                    (d, bump(w))
                } else {
                    (bump(d), w)
                }
            }),
            forall|u: TimestampModel| u != msg.timestamp_spec()
                ==> lookup(#[trigger] final(self).entries_spec(), u) == lookup(old(self).entries_spec(), u),
    {
        let t = msg.timestamp();
        let is_watermark = msg.is_watermark();
        let ghost old_entries = self.entries_spec();
        match self.position(t) {
            Some(i) => {
                proof { lemma_lookup_unique(old_entries, i as int); }
                let d = self.entries[i].data;
                let w = self.entries[i].watermarks;
                let (nd, nw) = if is_watermark {
                    (d, if w < u64::MAX { w + 1 } else { w })
                } else {
                    (if d < u64::MAX { d + 1 } else { d }, w)
                };
                let ts = self.entries[i].timestamp.duplicate();
                self.entries.set(i, CountEntry { timestamp: ts, data: nd, watermarks: nw });
                proof {
                    let new_entries = old_entries.update(i as int, (t@, nd, nw));
                    assert(self.entries_spec() =~= new_entries);
                    assert(keys_unique(new_entries)) by {
                        assert forall|a: int, b: int| 0 <= a < new_entries.len() && 0 <= b < new_entries.len() && a != b
                            implies (#[trigger] new_entries[a]).0 != (#[trigger] new_entries[b]).0 by {
                            assert(old_entries[a].0 != old_entries[b].0);
                        }
                    }
                    lemma_lookup_unique(new_entries, i as int);
                    assert forall|u: TimestampModel| u != t@ implies lookup(new_entries, u) == lookup(old_entries, u) by {
                        lemma_lookup_update_other(old_entries, i as int, (t@, nd, nw), u);
                    }
                }
            },
            None => {
                proof { lemma_lookup_absent(old_entries, t@); }
                let entry = if is_watermark {
                    CountEntry { timestamp: t.duplicate(), data: 0, watermarks: 1 }
                } else {
                    CountEntry { timestamp: t.duplicate(), data: 1, watermarks: 0 }
                };
                self.entries.push(entry);
                proof {
                    let new_entries = old_entries.push((t@, entry.data, entry.watermarks));
                    assert(self.entries_spec() =~= new_entries);
                    assert(new_entries.drop_last() =~= old_entries);
                    assert(keys_unique(new_entries)) by {
                        assert forall|a: int, b: int| 0 <= a < new_entries.len() && 0 <= b < new_entries.len() && a != b
                            implies (#[trigger] new_entries[a]).0 != (#[trigger] new_entries[b]).0 by {
                            if a < old_entries.len() && b < old_entries.len() {
                                assert(old_entries[a].0 != old_entries[b].0);
                            }
                        }
                    }
                }
            },
        }
    }
}

proof fn lemma_lookup_unique(entries: Seq<CountModel>, i: int)
    requires
        keys_unique(entries),
        0 <= i < entries.len(),
    ensures
        lookup(entries, entries[i].0) == (entries[i].1, entries[i].2),
    decreases entries.len(),
{
    if i < entries.len() - 1 {
        assert(entries.last().0 != entries[i].0);
        let init = entries.drop_last();
        assert(keys_unique(init)) by {
            assert forall|a: int, b: int| 0 <= a < init.len() && 0 <= b < init.len() && a != b
                implies (#[trigger] init[a]).0 != (#[trigger] init[b]).0 by {
                assert(entries[a].0 != entries[b].0);
            }
        }
        assert(init[i] == entries[i]);
        lemma_lookup_unique(init, i);
    }
}

proof fn lemma_lookup_absent(entries: Seq<CountModel>, t: TimestampModel)
    requires
        forall|j: int| 0 <= j < entries.len() ==> entries[j].0 != t,
    ensures
        lookup(entries, t) == (0u64, 0u64),
    decreases entries.len(),
{
    if entries.len() > 0 {
        let init = entries.drop_last();
        assert forall|j: int| 0 <= j < init.len() implies init[j].0 != t by {
            assert(init[j] == entries[j]);
        }
        lemma_lookup_absent(init, t);
    }
}

proof fn lemma_lookup_update_other(entries: Seq<CountModel>, i: int, e: CountModel, u: TimestampModel)
    requires
        0 <= i < entries.len(),
        e.0 == entries[i].0,
        u != e.0,
    ensures
        lookup(entries.update(i, e), u) == lookup(entries, u),
    decreases entries.len(),
{
    let updated = entries.update(i, e);
    if i < entries.len() - 1 {
        assert(updated.drop_last() =~= entries.drop_last().update(i, e));
        assert(updated.last() == entries.last());
        lemma_lookup_update_other(entries.drop_last(), i, e, u);
    } else {
        assert(updated.drop_last() =~= entries.drop_last());
    }
}

} // verus!
