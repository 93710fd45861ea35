use vstd::prelude::*;
use crate::clock::{nanos_since_epoch, now};
use crate::error::CollectError;
use crate::model::{finite_bits, record_of, CryptoData, CryptoListing};
use crate::point::{complete, encode_decode_round_trip, fields_of, record_from, Point};
use crate::series::{lowercase_of, series_key};

verus! {

/// Whether `point` is the point of `entry` collected at `time`: it goes to
/// the series named by the lowercase symbol, carries the caller's time and
/// encodes the entry's record.
pub open spec fn point_of_entry(point: Point, entry: CryptoData, time: i128) -> bool {
    &&& point.series@ == lowercase_of(entry.symbol@)
    &&& point.time == time
    &&& point.fields@ == fields_of(record_of(entry, time))
}

/// Whether `points` are the points of a listing's assets collected at
/// `time`: one per asset, in the order of the assets.
pub open spec fn points_of_listing(points: Seq<Point>, data: Seq<CryptoData>, time: i128) -> bool {
    &&& points.len() == data.len()
    &&& forall|i: int|
        0 <= i < points.len() ==> point_of_entry(#[trigger] points[i], data[i], time)
}

/// The number of `true` entries of a sequence of outcomes.
pub open spec fn count_written(outcomes: Seq<bool>) -> nat
    decreases outcomes.len(),
{
    if outcomes.len() == 0 {
        0
    } else {
        count_written(outcomes.drop_last()) + if outcomes.last() {
            1nat
        } else {
            0nat
        }
    }
}

/// What a write yields for each answer of the store: a rejection or an
/// unreachable store is a write error carrying the store's reason.
pub open spec fn write_outcome(answer: Result<(), String>) -> Result<(), CollectError> {
    match answer {
        Ok(_) => Ok(()),
        Err(reason) => Err(CollectError::Write(reason)),
    }
}

/// The totals of one cycle.
#[derive(Debug, Clone, Copy, PartialEq, Eq, Structural)]
pub struct CycleSummary {
    pub attempted: usize,
    pub succeeded: usize,
    pub failed: usize,
}

/// The writes of one cycle: the points to write, in order, and the outcome
/// of each write made so far.
#[derive(Debug, Clone, PartialEq, Eq)]
pub struct WriteCycle {
    pub points: Vec<Point>,
    pub outcomes: Vec<bool>,
}

impl WriteCycle {
    /// No more outcomes are recorded than there are points.
    pub open spec fn wf(self) -> bool {
        self.outcomes@.len() <= self.points@.len()
    }

    /// Every point has its outcome.
    pub open spec fn done(self) -> bool {
        self.outcomes@.len() >= self.points@.len()
    }

    /// Starts a cycle over `points`, with no write made yet.
    pub fn new(points: Vec<Point>) -> (c: WriteCycle)
        ensures
            c.points == points,
            c.outcomes@ == Seq::<bool>::empty(),
            c.wf(),
    {
        WriteCycle { points, outcomes: Vec::new() }
    }

    /// Whether every point has its outcome.
    pub fn is_done(&self) -> (r: bool)
        ensures
            r == self.done(),
    {
        self.outcomes.len() >= self.points.len()
    }

    /// The point to write next: the first one without an outcome, so that
    /// writes are issued one at a time in the order of the assets. `None`
    /// once the cycle is done.
    pub fn next_point(&self) -> (r: Option<&Point>)
        ensures
            self.done() ==> r.is_none(),
            !self.done() ==> r == Some(&self.points@[self.outcomes@.len() as int]),
    {
        let at: usize = self.outcomes.len();
        if at < self.points.len() {
            Some(&self.points[at])
        } else {
            None
        }
    }

    /// Records the outcome of writing the point that `next_point` gave:
    /// `true` if the store took it, `false` if the write failed. Either way
    /// the cycle moves on to the following point; the points themselves
    /// never change. On a cycle that is done nothing changes.
    pub fn record_outcome(&mut self, written: bool)
        ensures
            old(self).wf() ==> final(self).wf(),
            final(self).points == old(self).points,
            old(self).done() ==> final(self).outcomes@ == old(self).outcomes@,
            !old(self).done() ==> final(self).outcomes@ == old(self).outcomes@.push(written),
    {
        if self.outcomes.len() < self.points.len() {
            self.outcomes.push(written);
        }
    }

    /// Records the store's answer to writing the point that `next_point`
    /// gave, and says what became of the write: a failure is returned as a
    /// write error for the caller to log, and costs this one point only.
    pub fn record_write(&mut self, answer: Result<(), String>) -> (r: Result<(), CollectError>)
        ensures
            r == write_outcome(answer),
            old(self).wf() ==> final(self).wf(),
            final(self).points == old(self).points,
            old(self).done() ==> final(self).outcomes@ == old(self).outcomes@,
            !old(self).done() ==> final(self).outcomes@ == old(self).outcomes@.push(answer is Ok),
    {
        match answer {
            Ok(_) => {
                self.record_outcome(true);
                Ok(())
            },
            Err(reason) => {
                self.record_outcome(false);
                Err(CollectError::Write(reason))
            },
        }
    }

    /// The totals so far: how many writes were attempted, how many of them
    /// the store took and how many failed.
    pub fn summary(&self) -> (s: CycleSummary)
        ensures
            s.attempted == self.outcomes@.len(),
            s.succeeded == count_written(self.outcomes@),
            s.failed == self.outcomes@.len() - count_written(self.outcomes@),
    {
        let n: usize = self.outcomes.len();
        let mut succeeded: usize = 0;
        let mut i: usize = 0;
        while i < n
            invariant
                n == self.outcomes@.len(),
                i <= n,
                succeeded == count_written(self.outcomes@.take(i as int)),
                succeeded <= i,
            decreases n - i,
        {
            proof {
                let next = self.outcomes@.take(i + 1);
                assert(next.drop_last() =~= self.outcomes@.take(i as int));
                assert(next.last() == self.outcomes@[i as int]);
            }
            if self.outcomes[i] {
                succeeded = succeeded + 1;
            }
            i = i + 1;
        }
        proof {
            assert(self.outcomes@.take(n as int) =~= self.outcomes@);
        }
        CycleSummary { attempted: n, succeeded, failed: n - succeeded }
    }
}

impl CryptoListing {
    /// Maps every asset of the listing to its point at the collection time
    /// `time` and starts the cycle of writes over them: exactly one point per
    /// asset, in the order of `data` (whatever `total_count` claims), each
    /// with the same time.
    pub fn plan_writes(&self, time: i128) -> (c: WriteCycle)
        ensures
            points_of_listing(c.points@, self.data@, time),
            c.outcomes@ == Seq::<bool>::empty(),
            c.wf(),
    {
        let mut points: Vec<Point> = Vec::new();
        let mut i: usize = 0;
        while i < self.data.len()
            invariant
                i <= self.data@.len(),
                points_of_listing(points@, self.data@.take(i as int), time),
            decreases self.data@.len() - i,
        {
            let entry = &self.data[i];
            let record = entry.to_record(time);
            let key = series_key(entry.symbol.as_str());
            let point = record.insert_to_db(key.as_str());
            proof {
                let before = points@;
                let after = points@.push(point);
                assert forall|k: int| 0 <= k < after.len() implies point_of_entry(
                    #[trigger] after[k],
                    self.data@.take(i + 1)[k],
                    time,
                ) by {
                    if k < before.len() {
                        assert(after[k] == before[k]);
                        assert(self.data@.take(i + 1)[k] == self.data@.take(i as int)[k]);
                    }
                }
            }
            points.push(point);
            i = i + 1;
        }
        proof {
            assert(self.data@.take(i as int) =~= self.data@);
        }
        WriteCycle::new(points)
    }

    /// Reads the clock once and starts the cycle of writes at that time:
    /// whatever the clock says, every point of the cycle carries the same
    /// time.
    pub fn persist_db(&self) -> (c: WriteCycle)
        ensures
            exists|time: i128| #[trigger] points_of_listing(c.points@, self.data@, time),
            c.outcomes@ == Seq::<bool>::empty(),
            c.wf(),
    {
        let (seconds, subsec_nanos) = now();
        self.plan_writes(nanos_since_epoch(seconds, subsec_nanos))
    }
}

/// A listing with N assets gives exactly N points, and every one of them
/// carries the caller's time and decodes to the record of its asset at that
/// time.
pub proof fn one_point_per_asset(points: Seq<Point>, data: Seq<CryptoData>, time: i128)
    requires
        points_of_listing(points, data, time),
    ensures
        points.len() == data.len(),
        forall|i: int| 0 <= i < points.len() ==> (#[trigger] points[i]).time == time,
        forall|i: int|
            0 <= i < points.len() ==> complete((#[trigger] points[i]).fields@) && record_from(
                points[i].time,
                points[i].fields@,
            ) == record_of(data[i], time),
{
    assert forall|i: int| 0 <= i < points.len() implies complete((#[trigger] points[i]).fields@)
        && record_from(points[i].time, points[i].fields@) == record_of(data[i], time) by {
        assert(point_of_entry(points[i], data[i], time));
        encode_decode_round_trip(record_of(data[i], time));
    }
}

/// Whether `lowered` is `data` with every symbol put into lowercase.
pub open spec fn symbols_lowered(data: Seq<CryptoData>, lowered: Seq<CryptoData>) -> bool {
    &&& lowered.len() == data.len()
    &&& forall|i: int|
        0 <= i < data.len() ==> (#[trigger] lowered[i]).symbol@ == lowercase_of(data[i].symbol@)
}

/// Whether putting the lowercase form of each symbol of `data` into
/// lowercase again changes nothing.
pub open spec fn lowercase_settles(data: Seq<CryptoData>) -> bool {
    forall|i: int|
        0 <= i < data.len() ==> lowercase_of(lowercase_of((#[trigger] data[i]).symbol@))
            == lowercase_of(data[i].symbol@)
}

/// Every point's series is the lowercase form of its asset's symbol. And
/// the series do not change when every symbol is put into lowercase first,
/// as far as lowercasing a lowercase symbol changes nothing: that is a
/// property of the lowercasing itself, and stands here as a premise, not as
/// a claim.
pub proof fn lowercase_symbols_keep_their_series(
    points: Seq<Point>,
    data: Seq<CryptoData>,
    lowered_points: Seq<Point>,
    lowered_data: Seq<CryptoData>,
    time: i128,
)
    requires
        points_of_listing(points, data, time),
        points_of_listing(lowered_points, lowered_data, time),
        symbols_lowered(data, lowered_data),
    ensures
        forall|i: int|
            0 <= i < points.len() ==> (#[trigger] points[i]).series@ == lowercase_of(
                data[i].symbol@,
            ),
        lowercase_settles(data) ==> (forall|i: int|
            0 <= i < points.len() ==> (#[trigger] lowered_points[i]).series@ == points[i].series@),
{
    assert forall|i: int| 0 <= i < points.len() implies (#[trigger] points[i]).series@
        == lowercase_of(data[i].symbol@) by {
        assert(point_of_entry(points[i], data[i], time));
    }
    if lowercase_settles(data) {
        assert forall|i: int| 0 <= i < points.len() implies (#[trigger] lowered_points[i]).series@
            == points[i].series@ by {
            assert(point_of_entry(points[i], data[i], time));
            assert(point_of_entry(lowered_points[i], lowered_data[i], time));
            assert(lowered_data[i].symbol@ == lowercase_of(data[i].symbol@));
            assert(lowercase_of(lowercase_of(data[i].symbol@)) == lowercase_of(data[i].symbol@));
        }
    }
}

/// The points of well-formed assets carry finite numbers only.
pub proof fn well_formed_assets_give_finite_points(
    points: Seq<Point>,
    data: Seq<CryptoData>,
    time: i128,
)
    requires
        points_of_listing(points, data, time),
        forall|i: int| 0 <= i < data.len() ==> (#[trigger] data[i]).wf(),
    ensures
        forall|i: int, k: int|
            0 <= i < points.len() && 0 <= k < 8 ==> finite_bits(
                (#[trigger] points[i].fields@[k]).bits,
            ),
{
    assert forall|i: int, k: int| 0 <= i < points.len() && 0 <= k < 8 implies finite_bits(
        (#[trigger] points[i].fields@[k]).bits,
    ) by {
        assert(point_of_entry(points[i], data[i], time));
        assert(data[i].wf());
    }
}

/// A listing without assets gives no point: its cycle is done before any
/// write, with nothing attempted.
pub proof fn empty_listing_writes_nothing(cycle: WriteCycle, time: i128)
    requires
        points_of_listing(cycle.points@, Seq::<CryptoData>::empty(), time),
        cycle.outcomes@ == Seq::<bool>::empty(),
    ensures
        cycle.points@.len() == 0,
        cycle.done(),
        count_written(cycle.outcomes@) == 0,
{
}

/// Recording an outcome adds one attempt, and one success exactly when the
/// write succeeded: a failed write costs its own record and nothing else.
pub proof fn outcome_counts(outcomes: Seq<bool>, written: bool)
    ensures
        count_written(outcomes.push(written)) == count_written(outcomes) + if written {
            1nat
        } else {
            0nat
        },
        count_written(outcomes) <= outcomes.len(),
    decreases outcomes.len(),
{
    assert(outcomes.push(written).drop_last() =~= outcomes);
    if outcomes.len() > 0 {
        outcome_counts(outcomes.drop_last(), outcomes.last());
        assert(outcomes.drop_last().push(outcomes.last()) =~= outcomes);
    }
}

/// A failed write is skipped and the cycle moves on: the points stay as
/// they were, the next point offered is the one after the failed one, and
/// what was written before still counts.
pub proof fn failed_write_moves_on(before: WriteCycle, after: WriteCycle)
    requires
        before.wf(),
        !before.done(),
        after.points == before.points,
        after.outcomes@ == before.outcomes@.push(false),
    ensures
        after.wf(),
        after.outcomes@.len() == before.outcomes@.len() + 1,
        count_written(after.outcomes@) == count_written(before.outcomes@),
        forall|i: int|
            0 <= i < before.outcomes@.len() ==> after.outcomes@[i] == before.outcomes@[i],
{
    outcome_counts(before.outcomes@, false);
}

} // verus!
