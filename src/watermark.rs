//! Merging the watermarks of two input streams.
use vstd::prelude::*;

use crate::timestamp::{
    lemma_ts_lt_transitive, ts_lt, ts_min, Timestamp, TimestampModel,
};

verus! {

pub struct MergeModel {
    pub left: TimestampModel,
    pub right: TimestampModel,
    pub merged: TimestampModel,
}

pub open spec fn initial_merge() -> MergeModel {
    MergeModel {
        left: TimestampModel::Bottom,
        right: TimestampModel::Bottom,
        merged: TimestampModel::Bottom,
    }
}

/// One watermark `t` from the left (`from_left`) or right input: the side's
/// watermark becomes `t`; when the minimum of both sides exceeds the merged
/// watermark, the merged watermark advances to it and is emitted.
pub open spec fn merge_step(s: MergeModel, from_left: bool, t: TimestampModel) -> (MergeModel, Option<TimestampModel>) {
    let l = if from_left { t } else { s.left };
    let r = if from_left { s.right } else { t };
    let m = ts_min(l, r);
    if ts_lt(s.merged, m) {
        (MergeModel { left: l, right: r, merged: m }, Some(m))
    } else {
        (MergeModel { left: l, right: r, merged: s.merged }, None)
    }
}

/// The state after a sequence of watermarks, and the merged watermarks
/// emitted along the way, in order.
pub open spec fn merge_run(s: MergeModel, inputs: Seq<(bool, TimestampModel)>) -> (MergeModel, Seq<TimestampModel>)
    decreases inputs.len(),
{
    if inputs.len() == 0 {
        (s, seq![])
    } else {
        let (prev, out) = merge_run(s, inputs.drop_last());
        let (next, emitted) = merge_step(prev, inputs.last().0, inputs.last().1);
        match emitted {
            Some(m) => (next, out.push(m)),
            None => (next, out),
        }
    }
}

pub open spec fn option_view(o: Option<Timestamp>) -> Option<TimestampModel> {
    match o {
        Some(t) => Some(t@),
        None => None,
    }
}

/// The watermarks seen on two inputs and the merged watermark emitted so far.
pub struct WatermarkMerger {
    left: Timestamp,
    right: Timestamp,
    merged: Timestamp,
}

impl View for WatermarkMerger {
    type V = MergeModel;

    closed spec fn view(&self) -> MergeModel {
        MergeModel { left: self.left@, right: self.right@, merged: self.merged@ }
    }
}

impl WatermarkMerger {
    /// Both sides and the merged watermark at `Bottom`.
    pub fn new() -> (r: WatermarkMerger)
        ensures
            r@ == initial_merge(),
    {
        WatermarkMerger { left: Timestamp::Bottom, right: Timestamp::Bottom, merged: Timestamp::Bottom }
    }

    /// The merged watermark emitted last (`Bottom` before any).
    pub fn merged(&self) -> (r: Timestamp)
        ensures
            r@ == self@.merged,
    {
        self.merged.duplicate()
    }

    /// Takes a watermark from one side; returns the new merged watermark
    /// when it advances.
    pub fn on_watermark(&mut self, from_left: bool, timestamp: Timestamp) -> (r: Option<Timestamp>)
        ensures
            (final(self)@, option_view(r)) == merge_step(old(self)@, from_left, timestamp@),
    {
        if from_left {
            self.left = timestamp;
        } else {
            self.right = timestamp;
        }
        let m = Timestamp::min_of(&self.left, &self.right);
        if self.merged.less_than(&m) {
            self.merged = m.duplicate();
            Some(m)
        } else {
            None
        }
    }
}

/// Every merged watermark emitted exceeds the merged watermark the run
/// started from, and the emitted watermarks strictly increase.
pub proof fn lemma_merged_watermarks_increase(s: MergeModel, inputs: Seq<(bool, TimestampModel)>)
    ensures
        ({
            let (last, out) = merge_run(s, inputs);
            &&& forall|i: int| 0 <= i < out.len() ==> ts_lt(s.merged, #[trigger] out[i])
            &&& forall|i: int, j: int| 0 <= i < j < out.len() ==> ts_lt(#[trigger] out[i], #[trigger] out[j])
            &&& out.len() > 0 ==> last.merged == out.last()
            &&& out.len() == 0 ==> last.merged == s.merged
        }),
    decreases inputs.len(),
{
    if inputs.len() > 0 {
        lemma_merged_watermarks_increase(s, inputs.drop_last());
        let (prev, out) = merge_run(s, inputs.drop_last());
        let (next, emitted) = merge_step(prev, inputs.last().0, inputs.last().1);
        if let Some(m) = emitted {
            let out2 = out.push(m);
            assert forall|i: int| 0 <= i < out2.len() implies ts_lt(s.merged, #[trigger] out2[i]) by {
                if i == out.len() {
                    if out.len() > 0 {
                        lemma_ts_lt_transitive(s.merged, out.last(), m);
                    }
                }
            }
            assert forall|i: int, j: int| 0 <= i < j < out2.len() implies ts_lt(#[trigger] out2[i], #[trigger] out2[j]) by {
                if j == out.len() && i < j - 1 {
                    lemma_ts_lt_transitive(out[i], out.last(), m);
                }
            }
        }
    }
}

} // verus!
