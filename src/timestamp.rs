//! Totally ordered timestamps: `Bottom < Time(v) < Top`, with finite
//! coordinate vectors compared lexicographically.
use vstd::prelude::*;

use crate::event::copy_ids;

verus! {

/// A logical timestamp.
#[derive(Debug, Clone)]
pub enum Timestamp {
    Bottom,
    Time(Vec<u64>),
    Top,
}

/// The mathematical value of a [`Timestamp`].
pub enum TimestampModel {
    Bottom,
    Time(Seq<u64>),
    Top,
}

impl View for Timestamp {
    type V = TimestampModel;

    open spec fn view(&self) -> TimestampModel {
        match self {
            Timestamp::Bottom => TimestampModel::Bottom,
            Timestamp::Time(v) => TimestampModel::Time(v@),
            Timestamp::Top => TimestampModel::Top,
        }
    }
}

/// Strict lexicographic order on coordinate vectors (a proper prefix is smaller).
pub open spec fn seq_lt(a: Seq<u64>, b: Seq<u64>) -> bool
    decreases a.len(),
{
    if b.len() == 0 {
        false
    } else if a.len() == 0 {
        true
    } else if a[0] != b[0] {
        a[0] < b[0]
    } else {
        seq_lt(a.drop_first(), b.drop_first())
    }
}

/// Strict order on timestamps.
pub open spec fn ts_lt(a: TimestampModel, b: TimestampModel) -> bool {
    match (a, b) {
        (TimestampModel::Bottom, TimestampModel::Bottom) => false,
        (TimestampModel::Bottom, _) => true,
        (TimestampModel::Time(x), TimestampModel::Time(y)) => seq_lt(x, y),
        (TimestampModel::Time(_), TimestampModel::Top) => true,
        _ => false,
    }
}

pub open spec fn ts_le(a: TimestampModel, b: TimestampModel) -> bool {
    ts_lt(a, b) || a == b
}

/// The smaller of two timestamps.
pub open spec fn ts_min(a: TimestampModel, b: TimestampModel) -> TimestampModel {
    if ts_le(a, b) {
        a
    } else {
        b
    }
}

pub proof fn lemma_seq_lt_irreflexive(a: Seq<u64>)
    ensures
        !seq_lt(a, a),
    decreases a.len(),
{
    if a.len() > 0 {
        lemma_seq_lt_irreflexive(a.drop_first());
    }
}

pub proof fn lemma_seq_lt_transitive(a: Seq<u64>, b: Seq<u64>, c: Seq<u64>)
    requires
        seq_lt(a, b),
        seq_lt(b, c),
    ensures
        seq_lt(a, c),
    decreases a.len(),
{
    if a.len() > 0 && a[0] == b[0] && b[0] == c[0] {
        lemma_seq_lt_transitive(a.drop_first(), b.drop_first(), c.drop_first());
    }
}

pub proof fn lemma_seq_lt_total(a: Seq<u64>, b: Seq<u64>)
    ensures
        seq_lt(a, b) || seq_lt(b, a) || a == b,
    decreases a.len(),
{
    if a.len() > 0 && b.len() > 0 && a[0] == b[0] {
        lemma_seq_lt_total(a.drop_first(), b.drop_first());
        if a.drop_first() == b.drop_first() {
            assert(a =~= seq![a[0]] + a.drop_first());
            assert(b =~= seq![b[0]] + b.drop_first());
        }
    } else if a.len() == 0 && b.len() == 0 {
        assert(a =~= b);
    }
}

/// `ts_lt` is a strict total order.
pub proof fn lemma_ts_lt_irreflexive(a: TimestampModel)
    ensures
        !ts_lt(a, a),
{
    if let TimestampModel::Time(x) = a {
        lemma_seq_lt_irreflexive(x);
    }
}

pub proof fn lemma_ts_lt_transitive(a: TimestampModel, b: TimestampModel, c: TimestampModel)
    requires
        ts_lt(a, b),
        ts_lt(b, c),
    ensures
        ts_lt(a, c),
{
    if let (TimestampModel::Time(x), TimestampModel::Time(y), TimestampModel::Time(z)) = (a, b, c) {
        lemma_seq_lt_transitive(x, y, z);
    }
}

pub proof fn lemma_ts_lt_total(a: TimestampModel, b: TimestampModel)
    ensures
        ts_lt(a, b) || ts_lt(b, a) || a == b,
{
    if let (TimestampModel::Time(x), TimestampModel::Time(y)) = (a, b) {
        lemma_seq_lt_total(x, y);
    }
}

/// Lexicographic comparison of coordinate slices.
fn coords_lt(a: &Vec<u64>, b: &Vec<u64>) -> (r: bool)
    ensures
        r == seq_lt(a@, b@),
{
    let mut i: usize = 0;
    assert(a@.skip(0) =~= a@);
    assert(b@.skip(0) =~= b@);
    while i < a.len() && i < b.len() && a[i] == b[i]
        invariant
            i <= a@.len(),
            i <= b@.len(),
            forall|j: int| 0 <= j < i ==> a@[j] == b@[j],
            seq_lt(a@, b@) == seq_lt(a@.skip(i as int), b@.skip(i as int)),
        decreases a.len() - i,
    {
        proof {
            let sa = a@.skip(i as int);
            let sb = b@.skip(i as int);
            assert(sa.drop_first() =~= a@.skip(i + 1));
            assert(sb.drop_first() =~= b@.skip(i + 1));
        }
        i = i + 1;
    }
    if i == b.len() {
        false
    } else if i == a.len() {
        true
    } else {
        a[i] < b[i]
    }
}

impl Timestamp {
    /// A finite timestamp with the given coordinates.
    pub fn new(coordinates: Vec<u64>) -> (r: Timestamp)
        ensures
            r@ == TimestampModel::Time(coordinates@),
    {
        Timestamp::Time(coordinates)
    }

    /// A copy with the same value.
    pub fn duplicate(&self) -> (r: Timestamp)
        ensures
            r@ == self@,
    {
        match self {
            Timestamp::Bottom => Timestamp::Bottom,
            Timestamp::Time(v) => Timestamp::Time(copy_ids(v)),
            Timestamp::Top => Timestamp::Top,
        }
    }

    pub fn is_top(&self) -> (r: bool)
        ensures
            r == (self@ == TimestampModel::Top),
    {
        matches!(self, Timestamp::Top)
    }

    /// `self < other` in the timestamp order.
    pub fn less_than(&self, other: &Timestamp) -> (r: bool)
        ensures
            r == ts_lt(self@, other@),
    {
        match (self, other) {
            (Timestamp::Bottom, Timestamp::Bottom) => false,
            (Timestamp::Bottom, _) => true,
            (Timestamp::Time(x), Timestamp::Time(y)) => coords_lt(x, y),
            (Timestamp::Time(_), Timestamp::Top) => true,
            _ => false,
        }
    }

    /// Value equality.
    pub fn same_as(&self, other: &Timestamp) -> (r: bool)
        ensures
            r == (self@ == other@),
    {
        let lt = self.less_than(other);
        let gt = other.less_than(self);
        proof {
            lemma_ts_lt_total(self@, other@);
            lemma_ts_lt_irreflexive(self@);
        }
        !lt && !gt
    }

    /// The smaller of `a` and `b`.
    pub fn min_of(a: &Timestamp, b: &Timestamp) -> (r: Timestamp)
        ensures
            r@ == ts_min(a@, b@),
    {
        if b.less_than(a) {
            proof {
                lemma_ts_lt_irreflexive(a@);
                if a@ == b@ {
                } else if ts_lt(a@, b@) {
                    lemma_ts_lt_transitive(a@, b@, a@);
                }
            }
            b.duplicate()
        } else {
            proof {
                lemma_ts_lt_total(a@, b@);
            }
            a.duplicate()
        }
    }
}

} // verus!
