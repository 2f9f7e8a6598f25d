use vstd::prelude::*;

verus! {

/// The length of the time window that one row of a periodic attack counter covers.
#[derive(Clone, Copy, Debug, PartialEq, Eq)]
pub enum BucketPeriod {
    Hourly,
    Daily,
    Weekly,
    Yearly,
}

/// One row of a periodic counter: the moment its window opened (milliseconds
/// since the Unix epoch) and the number of attempts counted in it.
#[derive(Clone, Copy, Debug, PartialEq, Eq)]
pub struct TimeBucket {
    pub timestamp: i64,
    pub amount: i32,
}

/// What a periodic counter writes for one new attempt.
#[derive(Clone, Copy, Debug, PartialEq, Eq)]
pub enum BucketWrite {
    /// A fresh row is inserted.
    Insert(TimeBucket),
    /// The latest row is rewritten with this content (same timestamp).
    Update(TimeBucket),
}

/// Window length of each period, in milliseconds.
pub open spec fn spec_window(period: BucketPeriod) -> int {
    match period {
        BucketPeriod::Hourly => 3_600_000,
        BucketPeriod::Daily => 86_400_000,
        BucketPeriod::Weekly => 604_800_000,
        BucketPeriod::Yearly => 31_556_800_000,
    }
}

/// The row that a write leaves in the table.
pub open spec fn written(w: BucketWrite) -> TimeBucket {
    match w {
        BucketWrite::Insert(b) => b,
        BucketWrite::Update(b) => b,
    }
}

/// Whether the latest row still covers the moment `now`.
pub open spec fn covers(period: BucketPeriod, latest: TimeBucket, now: int) -> bool {
    now - latest.timestamp <= spec_window(period)
}

/// The write that records one attempt at `now`, given the latest row.
pub open spec fn spec_next_write(period: BucketPeriod, latest: Option<TimeBucket>, now: i64) -> BucketWrite {
    match latest {
        Some(b) => if covers(period, b, now as int) {
            BucketWrite::Update(TimeBucket { timestamp: b.timestamp, amount: (b.amount + 1) as i32 })
        } else {
            BucketWrite::Insert(TimeBucket { timestamp: now, amount: 1 })
        },
        None => BucketWrite::Insert(TimeBucket { timestamp: now, amount: 1 }),
    }
}

/// The inputs on which recording one attempt is defined: the elapsed time fits
/// in an `i64`, and a row that is reused has room for one more attempt.
pub open spec fn next_write_defined(period: BucketPeriod, latest: Option<TimeBucket>, now: i64) -> bool {
    match latest {
        Some(b) => {
            &&& i64::MIN <= now - b.timestamp <= i64::MAX
            &&& covers(period, b, now as int) ==> b.amount < i32::MAX
        },
        None => true,
    }
}

impl BucketPeriod {
    /// Window length in milliseconds.
    pub fn window_millis(&self) -> (w: i64)
        ensures
            w == spec_window(*self),
    {
        match self {
            BucketPeriod::Hourly => 3_600_000,
            BucketPeriod::Daily => 86_400_000,
            BucketPeriod::Weekly => 604_800_000,
            BucketPeriod::Yearly => 31_556_800_000,
        }
    }

    /// Records one attempt at `now`: the latest row is counted up when its
    /// window still covers `now`, else a new row opens at `now` with one attempt.
    pub fn next_write(&self, latest: Option<TimeBucket>, now: i64) -> (w: BucketWrite)
        requires
            next_write_defined(*self, latest, now),
        ensures
            w == spec_next_write(*self, latest, now),
    {
        match latest {
            Some(b) => {
                let elapsed = now - b.timestamp;
                if elapsed > self.window_millis() {
                    BucketWrite::Insert(TimeBucket { timestamp: now, amount: 1 })
                } else {
                    BucketWrite::Update(TimeBucket { timestamp: b.timestamp, amount: b.amount + 1 })
                }
            },
            None => BucketWrite::Insert(TimeBucket { timestamp: now, amount: 1 }),
        }
    }
}

/// The statement that fetches a periodic counter's latest row.
pub open spec fn spec_latest_statement(period: BucketPeriod) -> Seq<char> {
    match period {
        BucketPeriod::Hourly => "SELECT * FROM top_hourly ORDER BY timestamp DESC LIMIT 1;"@,
        BucketPeriod::Daily => "SELECT * FROM top_daily ORDER BY timestamp DESC LIMIT 1;"@,
        BucketPeriod::Weekly => "SELECT * FROM top_weekly ORDER BY timestamp DESC LIMIT 1;"@,
        BucketPeriod::Yearly => "SELECT * FROM top_yearly ORDER BY timestamp DESC LIMIT 1;"@,
    }
}

/// The statement that performs a write: an insert binds the new row's
/// timestamp (its count is one), an update binds the count, then the row's
/// timestamp.
pub open spec fn spec_write_statement(period: BucketPeriod, w: BucketWrite) -> Seq<char> {
    match w {
        BucketWrite::Insert(_) => match period {
            BucketPeriod::Hourly => "INSERT INTO top_hourly (timestamp, amount) VALUES ($1, 1);"@,
            BucketPeriod::Daily => "INSERT INTO top_daily (timestamp, amount) VALUES ($1, 1);"@,
            BucketPeriod::Weekly => "INSERT INTO top_weekly (timestamp, amount) VALUES ($1, 1);"@,
            BucketPeriod::Yearly => "INSERT INTO top_yearly (timestamp, amount) VALUES ($1, 1);"@,
        },
        BucketWrite::Update(_) => match period {
            BucketPeriod::Hourly => "UPDATE top_hourly SET amount = $1 WHERE timestamp = $2;"@,
            BucketPeriod::Daily => "UPDATE top_daily SET amount = $1 WHERE timestamp = $2;"@,
            BucketPeriod::Weekly => "UPDATE top_weekly SET amount = $1 WHERE timestamp = $2;"@,
            BucketPeriod::Yearly => "UPDATE top_yearly SET amount = $1 WHERE timestamp = $2;"@,
        },
    }
}

impl BucketPeriod {
    /// The statement that fetches this counter's latest row.
    pub fn latest_statement(&self) -> (q: &'static str)
        ensures
            q@ == spec_latest_statement(*self),
    {
        match self {
            BucketPeriod::Hourly => "SELECT * FROM top_hourly ORDER BY timestamp DESC LIMIT 1;",
            BucketPeriod::Daily => "SELECT * FROM top_daily ORDER BY timestamp DESC LIMIT 1;",
            BucketPeriod::Weekly => "SELECT * FROM top_weekly ORDER BY timestamp DESC LIMIT 1;",
            BucketPeriod::Yearly => "SELECT * FROM top_yearly ORDER BY timestamp DESC LIMIT 1;",
        }
    }

    /// The statement that performs the write `w` on this counter.
    pub fn write_statement(&self, w: &BucketWrite) -> (q: &'static str)
        ensures
            q@ == spec_write_statement(*self, *w),
    {
        match w {
            BucketWrite::Insert(_) => match self {
                BucketPeriod::Hourly => "INSERT INTO top_hourly (timestamp, amount) VALUES ($1, 1);",
                BucketPeriod::Daily => "INSERT INTO top_daily (timestamp, amount) VALUES ($1, 1);",
                BucketPeriod::Weekly => "INSERT INTO top_weekly (timestamp, amount) VALUES ($1, 1);",
                BucketPeriod::Yearly => "INSERT INTO top_yearly (timestamp, amount) VALUES ($1, 1);",
            },
            BucketWrite::Update(_) => match self {
                BucketPeriod::Hourly => "UPDATE top_hourly SET amount = $1 WHERE timestamp = $2;",
                BucketPeriod::Daily => "UPDATE top_daily SET amount = $1 WHERE timestamp = $2;",
                BucketPeriod::Weekly => "UPDATE top_weekly SET amount = $1 WHERE timestamp = $2;",
                BucketPeriod::Yearly => "UPDATE top_yearly SET amount = $1 WHERE timestamp = $2;",
            },
        }
    }
}

/// The table of each periodic counter.
pub open spec fn bucket_table(period: BucketPeriod) -> Seq<char> {
    match period {
        BucketPeriod::Hourly => "top_hourly"@,
        BucketPeriod::Daily => "top_daily"@,
        BucketPeriod::Weekly => "top_weekly"@,
        BucketPeriod::Yearly => "top_yearly"@,
    }
}

/// Each periodic counter reads and writes its own table only: the latest row
/// is the row of that table with the greatest timestamp (newest first, one
/// row); an insert adds a row with the given timestamp and a count of one; an
/// update sets the count of the row with the given timestamp.
pub proof fn lemma_counter_statements(period: BucketPeriod, w: BucketWrite)
    ensures
        spec_latest_statement(period) == "SELECT * FROM "@ + bucket_table(period) + " ORDER BY timestamp DESC LIMIT 1;"@,
        w is Insert ==> spec_write_statement(period, w) == "INSERT INTO "@ + bucket_table(period)
            + " (timestamp, amount) VALUES ($1, 1);"@,
        w is Update ==> spec_write_statement(period, w) == "UPDATE "@ + bucket_table(period)
            + " SET amount = $1 WHERE timestamp = $2;"@,
        forall|q: BucketPeriod| q != period ==> bucket_table(q) != bucket_table(period),
{
    reveal_strlit("SELECT * FROM ");
    reveal_strlit(" ORDER BY timestamp DESC LIMIT 1;");
    reveal_strlit("INSERT INTO ");
    reveal_strlit(" (timestamp, amount) VALUES ($1, 1);");
    reveal_strlit("UPDATE ");
    reveal_strlit(" SET amount = $1 WHERE timestamp = $2;");
    reveal_strlit("top_hourly");
    reveal_strlit("top_daily");
    reveal_strlit("top_weekly");
    reveal_strlit("top_yearly");
    match period {
        BucketPeriod::Hourly => {
            reveal_strlit("top_hourly");
            reveal_strlit("SELECT * FROM top_hourly ORDER BY timestamp DESC LIMIT 1;");
            reveal_strlit("INSERT INTO top_hourly (timestamp, amount) VALUES ($1, 1);");
            reveal_strlit("UPDATE top_hourly SET amount = $1 WHERE timestamp = $2;");
        },
        BucketPeriod::Daily => {
            reveal_strlit("top_daily");
            reveal_strlit("SELECT * FROM top_daily ORDER BY timestamp DESC LIMIT 1;");
            reveal_strlit("INSERT INTO top_daily (timestamp, amount) VALUES ($1, 1);");
            reveal_strlit("UPDATE top_daily SET amount = $1 WHERE timestamp = $2;");
        },
        BucketPeriod::Weekly => {
            reveal_strlit("top_weekly");
            reveal_strlit("SELECT * FROM top_weekly ORDER BY timestamp DESC LIMIT 1;");
            reveal_strlit("INSERT INTO top_weekly (timestamp, amount) VALUES ($1, 1);");
            reveal_strlit("UPDATE top_weekly SET amount = $1 WHERE timestamp = $2;");
        },
        BucketPeriod::Yearly => {
            reveal_strlit("top_yearly");
            reveal_strlit("SELECT * FROM top_yearly ORDER BY timestamp DESC LIMIT 1;");
            reveal_strlit("INSERT INTO top_yearly (timestamp, amount) VALUES ($1, 1);");
            reveal_strlit("UPDATE top_yearly SET amount = $1 WHERE timestamp = $2;");
        },
    }
    assert(spec_latest_statement(period) =~= "SELECT * FROM "@ + bucket_table(period) + " ORDER BY timestamp DESC LIMIT 1;"@);
    assert(spec_write_statement(period, BucketWrite::Insert(TimeBucket { timestamp: 0, amount: 0 })) =~= "INSERT INTO "@
        + bucket_table(period) + " (timestamp, amount) VALUES ($1, 1);"@);
    assert(spec_write_statement(period, BucketWrite::Update(TimeBucket { timestamp: 0, amount: 0 })) =~= "UPDATE "@
        + bucket_table(period) + " SET amount = $1 WHERE timestamp = $2;"@);
    assert forall|q: BucketPeriod| q != period implies bucket_table(q) != bucket_table(period) by {
        assert(bucket_table(q)[4] != bucket_table(period)[4]);
    }
}

/// The row left by recording the attempts at `times`, one after another,
/// starting from the latest row `latest`.
pub open spec fn replay(period: BucketPeriod, latest: Option<TimeBucket>, times: Seq<i64>) -> Option<TimeBucket>
    decreases times.len(),
{
    if times.len() == 0 {
        latest
    } else {
        Some(written(spec_next_write(period, replay(period, latest, times.drop_last()), times.last())))
    }
}

/// The row written for an attempt always covers that attempt and holds at
/// least one attempt; a reused row keeps its opening moment and gains exactly
/// one attempt, and a new row opens at the attempt with a count of one.
pub proof fn lemma_write_covers_attempt(period: BucketPeriod, latest: Option<TimeBucket>, now: i64)
    requires
        next_write_defined(period, latest, now),
        latest matches Some(b) ==> b.amount >= 0,
    ensures
        covers(period, written(spec_next_write(period, latest, now)), now as int),
        written(spec_next_write(period, latest, now)).amount >= 1,
        spec_next_write(period, latest, now) matches BucketWrite::Update(b) ==> (latest matches Some(
            l,
        ) && b.timestamp == l.timestamp && b.amount == l.amount + 1),
        spec_next_write(period, latest, now) matches BucketWrite::Insert(b) ==> (b.timestamp == now
            && b.amount == 1),
{
}

/// Every attempt that falls in the window opened by the first one is counted
/// in that same row: recording `n` attempts, starting from an empty table, at
/// moments no earlier than the first and at most one window after it, leaves
/// one row that opened at the first moment and counts `n`.
pub proof fn lemma_one_window_counts_all(period: BucketPeriod, times: Seq<i64>)
    requires
        0 < times.len() <= i32::MAX,
        forall|i: int|
            0 <= i < times.len() ==> times[0] <= #[trigger] times[i] <= times[0] + spec_window(period),
    ensures
        replay(period, None, times) == Some(TimeBucket { timestamp: times[0], amount: times.len() as i32 }),
    decreases times.len(),
{
    if times.len() == 1 {
        assert(times.drop_last().len() == 0);
    } else {
        let prefix = times.drop_last();
        assert forall|i: int| 0 <= i < prefix.len() implies prefix[0] <= #[trigger] prefix[i] <= prefix[0]
            + spec_window(period) by {
            assert(prefix[i] == times[i]);
        }
        lemma_one_window_counts_all(period, prefix);
        assert(times[times.len() - 1] == times.last());
    }
}

/// A periodic counter table, ordered by timestamp, after one write: an insert
/// appends the new row; an update rewrites the latest row (the row with that
/// timestamp, timestamps being distinct in a table this library writes).
pub open spec fn apply_write(table: Seq<TimeBucket>, w: BucketWrite) -> Seq<TimeBucket> {
    match w {
        BucketWrite::Insert(b) => table.push(b),
        BucketWrite::Update(b) => table.drop_last().push(b),
    }
}

/// The latest row of a counter table ordered by timestamp.
pub open spec fn latest_row(table: Seq<TimeBucket>) -> Option<TimeBucket> {
    if table.len() == 0 {
        None
    } else {
        Some(table.last())
    }
}

/// The counter table left by recording the attempts at `times`, one after
/// another, starting from an empty table, each from the table's latest row.
pub open spec fn replay_table(period: BucketPeriod, times: Seq<i64>) -> Seq<TimeBucket>
    decreases times.len(),
{
    if times.len() == 0 {
        Seq::empty()
    } else {
        let before = replay_table(period, times.drop_last());
        apply_write(before, spec_next_write(period, latest_row(before), times.last()))
    }
}

/// The attempts counted over all rows of a table.
pub open spec fn total_amount(table: Seq<TimeBucket>) -> int
    decreases table.len(),
{
    if table.len() == 0 {
        0
    } else {
        total_amount(table.drop_last()) + table.last().amount
    }
}

/// The shape of a counter table after `k` recorded attempts at moments
/// between `first` and `last`.
pub open spec fn table_shape(period: BucketPeriod, table: Seq<TimeBucket>, k: int, first: i64, last: i64) -> bool {
    &&& table.len() >= 1
    &&& forall|i: int| 0 <= i < table.len() ==> 1 <= #[trigger] table[i].amount <= k
    &&& forall|i: int| 0 <= i < table.len() ==> first <= #[trigger] table[i].timestamp <= last
    &&& forall|i: int|
        0 <= i < table.len() - 1 ==> #[trigger] table[i + 1].timestamp - table[i].timestamp > spec_window(period)
    &&& total_amount(table) == k
}

proof fn lemma_replay_shape(period: BucketPeriod, times: Seq<i64>)
    requires
        0 < times.len() <= i32::MAX,
        forall|i: int, j: int| 0 <= i <= j < times.len() ==> times[i] <= times[j],
        times.last() - times[0] <= i64::MAX,
    ensures
        table_shape(period, replay_table(period, times), times.len() as int, times[0], times.last()),
    decreases times.len(),
{
    let k = times.len() as int;
    let now = times.last();
    let prefix = times.drop_last();
    let before = replay_table(period, prefix);
    let table = replay_table(period, times);
    if k == 1 {
        assert(before =~= Seq::<TimeBucket>::empty());
        assert(table == seq![TimeBucket { timestamp: now, amount: 1 }]);
        assert(table.drop_last() =~= Seq::<TimeBucket>::empty());
        assert(total_amount(Seq::<TimeBucket>::empty()) == 0);
        assert(total_amount(table) == 1);
        assert(times[0] == now);
    } else {
        assert forall|i: int, j: int| 0 <= i <= j < prefix.len() implies prefix[i] <= prefix[j] by {
            assert(prefix[i] == times[i] && prefix[j] == times[j]);
        }
        assert(prefix[0] == times[0]);
        assert(prefix.last() == times[k - 2]);
        assert(times[k - 2] <= now);
        lemma_replay_shape(period, prefix);
        let b = before.last();
        assert(times[0] <= b.timestamp <= times[k - 2]);
        assert(before.len() >= 1);
        if covers(period, b, now as int) {
            let nb = TimeBucket { timestamp: b.timestamp, amount: (b.amount + 1) as i32 };
            assert(table == before.drop_last().push(nb));
            assert(table.drop_last() =~= before.drop_last());
            assert forall|i: int| 0 <= i < table.len() implies 1 <= #[trigger] table[i].amount <= k by {
                if i < table.len() - 1 {
                    assert(table[i] == before[i]);
                }
            }
            assert forall|i: int| 0 <= i < table.len() implies times[0] <= #[trigger] table[i].timestamp
                <= now by {
                if i < table.len() - 1 {
                    assert(table[i] == before[i]);
                }
            }
            assert forall|i: int| 0 <= i < table.len() - 1 implies #[trigger] table[i + 1].timestamp
                - table[i].timestamp > spec_window(period) by {
                assert(table[i] == before[i]);
                assert(table[i + 1].timestamp == before[i + 1].timestamp);
            }
            assert(total_amount(before) == total_amount(before.drop_last()) + b.amount);
            assert(total_amount(table) == total_amount(table.drop_last()) + nb.amount);
            assert(total_amount(table) == k);
        } else {
            let nb = TimeBucket { timestamp: now, amount: 1 };
            assert(table == before.push(nb));
            assert(table.drop_last() =~= before);
            assert(total_amount(table) == total_amount(before) + 1);
            assert forall|i: int| 0 <= i < table.len() implies 1 <= #[trigger] table[i].amount <= k by {
                if i < table.len() - 1 {
                    assert(table[i] == before[i]);
                }
            }
            assert forall|i: int| 0 <= i < table.len() implies times[0] <= #[trigger] table[i].timestamp
                <= now by {
                if i < table.len() - 1 {
                    assert(table[i] == before[i]);
                }
            }
            assert forall|i: int| 0 <= i < table.len() - 1 implies #[trigger] table[i + 1].timestamp
                - table[i].timestamp > spec_window(period) by {
                assert(table[i] == before[i]);
                if i + 1 < table.len() - 1 {
                    assert(table[i + 1] == before[i + 1]);
                }
            }
        }
    }
}

/// Recording attempts one at a time with a clock that never goes back,
/// starting from an empty counter table, is always defined (no elapsed time
/// overflows, no count overflows) and leaves a table ordered by timestamp
/// whose consecutive rows open more than one window apart, where every row
/// counts at least one attempt and the counts add up to the number of
/// attempts recorded.
pub proof fn lemma_counter_table_invariant(period: BucketPeriod, times: Seq<i64>)
    requires
        0 < times.len() <= i32::MAX,
        forall|i: int, j: int| 0 <= i <= j < times.len() ==> times[i] <= times[j],
        times.last() - times[0] <= i64::MAX,
    ensures
        next_write_defined(period, latest_row(replay_table(period, times.drop_last())), times.last()),
        ({
            let table = replay_table(period, times);
            &&& table.len() >= 1
            &&& forall|i: int, j: int|
                0 <= i < j < table.len() ==> #[trigger] table[i].timestamp < #[trigger] table[j].timestamp
            &&& forall|i: int|
                0 <= i < table.len() - 1 ==> #[trigger] table[i + 1].timestamp - table[i].timestamp > spec_window(
                    period,
                )
            &&& forall|i: int| 0 <= i < table.len() ==> #[trigger] table[i].amount >= 1
            &&& total_amount(table) == times.len()
        }),
{
    lemma_replay_shape(period, times);
    let k = times.len() as int;
    let table = replay_table(period, times);
    if k > 1 {
        let prefix = times.drop_last();
        assert forall|i: int, j: int| 0 <= i <= j < prefix.len() implies prefix[i] <= prefix[j] by {
            assert(prefix[i] == times[i] && prefix[j] == times[j]);
        }
        assert(prefix[0] == times[0]);
        assert(prefix.last() == times[k - 2]);
        assert(times[k - 2] <= times.last());
        lemma_replay_shape(period, prefix);
    } else {
        assert(times.drop_last() =~= Seq::<i64>::empty());
    }
    assert forall|i: int, j: int| 0 <= i < j < table.len() implies #[trigger] table[i].timestamp
        < #[trigger] table[j].timestamp by {
        lemma_table_ordered(period, table, i, j);
    }
}

proof fn lemma_table_ordered(period: BucketPeriod, table: Seq<TimeBucket>, i: int, j: int)
    requires
        0 <= i < j < table.len(),
        forall|m: int|
            0 <= m < table.len() - 1 ==> #[trigger] table[m + 1].timestamp - table[m].timestamp > spec_window(period),
    ensures
        table[i].timestamp < table[j].timestamp,
    decreases j - i,
{
    assert(table[i + 1].timestamp - table[i].timestamp > spec_window(period));
    if j > i + 1 {
        lemma_table_ordered(period, table, i + 1, j);
    }
}

/// A counter table of `n` recorded attempts as this library leaves it: rows
/// open more than one window after the previous one, each counts at least one
/// attempt, and the counts add up to `n`.
pub open spec fn counter_table_ok(period: BucketPeriod, table: Seq<TimeBucket>, n: int) -> bool {
    &&& forall|i: int|
        0 <= i < table.len() - 1 ==> #[trigger] table[i + 1].timestamp - table[i].timestamp > spec_window(period)
    &&& forall|i: int| 0 <= i < table.len() ==> #[trigger] table[i].amount >= 1
    &&& total_amount(table) == n
}

/// Recording one attempt keeps a counter table in shape: given a table of `n`
/// attempts whose latest row opened no later than `now`, and an attempt
/// whose recording is defined (its elapsed time fits in an `i64`, and a
/// reused row has room for one more), the written table holds `n + 1`
/// attempts, rows still more than one window apart and each counting at
/// least one, and its latest row opened no later than `now`.
pub proof fn lemma_counter_write_preserves(period: BucketPeriod, table: Seq<TimeBucket>, n: int, now: i64)
    requires
        counter_table_ok(period, table, n),
        table.len() > 0 ==> table.last().timestamp <= now,
        next_write_defined(period, latest_row(table), now),
    ensures
        ({
            let after = apply_write(table, spec_next_write(period, latest_row(table), now));
            &&& counter_table_ok(period, after, n + 1)
            &&& after.len() >= 1
            &&& after.last().timestamp <= now
        }),
{
    let after = apply_write(table, spec_next_write(period, latest_row(table), now));
    if table.len() == 0 {
        assert(after == seq![TimeBucket { timestamp: now, amount: 1 }]);
        assert(after.drop_last() =~= Seq::<TimeBucket>::empty());
        assert(total_amount(Seq::<TimeBucket>::empty()) == 0);
        assert(total_amount(table) == 0);
    } else {
        let b = table.last();
        assert(total_amount(table) == total_amount(table.drop_last()) + b.amount);
        if covers(period, b, now as int) {
            let nb = TimeBucket { timestamp: b.timestamp, amount: (b.amount + 1) as i32 };
            assert(after == table.drop_last().push(nb));
            assert(after.drop_last() =~= table.drop_last());
            assert(total_amount(after) == total_amount(after.drop_last()) + nb.amount);
            assert forall|i: int| 0 <= i < after.len() implies #[trigger] after[i].amount >= 1 by {
                if i < after.len() - 1 {
                    assert(after[i] == table[i]);
                }
            }
            assert forall|i: int| 0 <= i < after.len() - 1 implies #[trigger] after[i + 1].timestamp
                - after[i].timestamp > spec_window(period) by {
                assert(after[i] == table[i]);
                assert(after[i + 1].timestamp == table[i + 1].timestamp);
            }
        } else {
            let nb = TimeBucket { timestamp: now, amount: 1 };
            assert(after == table.push(nb));
            assert(after.drop_last() =~= table);
            assert(total_amount(after) == total_amount(table) + 1);
            assert forall|i: int| 0 <= i < after.len() implies #[trigger] after[i].amount >= 1 by {
                if i < after.len() - 1 {
                    assert(after[i] == table[i]);
                }
            }
            assert forall|i: int| 0 <= i < after.len() - 1 implies #[trigger] after[i + 1].timestamp
                - after[i].timestamp > spec_window(period) by {
                assert(after[i] == table[i]);
                if i + 1 < after.len() - 1 {
                    assert(after[i + 1] == table[i + 1]);
                }
            }
        }
    }
}

/// Whether recording each attempt of `times`, one after another from an
/// empty table, is defined: no elapsed time overflows and no reused row
/// overflows its count.
pub open spec fn replay_defined(period: BucketPeriod, times: Seq<i64>) -> bool {
    forall|k: int|
        0 <= k < times.len() ==> #[trigger] next_write_defined(
            period,
            latest_row(replay_table(period, times.take(k))),
            times[k],
        )
}

/// Every run of a counter in which no row overflows keeps the table in
/// shape: recording attempts one at a time with a clock that never goes back,
/// starting from an empty table, leaves rows ordered by timestamp and more
/// than one window apart, each counting at least one attempt, with counts
/// adding up to the number of attempts recorded.
pub proof fn lemma_counter_runs_keep_shape(period: BucketPeriod, times: Seq<i64>)
    requires
        forall|i: int, j: int| 0 <= i <= j < times.len() ==> times[i] <= times[j],
        replay_defined(period, times),
    ensures
        counter_table_ok(period, replay_table(period, times), times.len() as int),
        forall|i: int, j: int|
            0 <= i < j < replay_table(period, times).len() ==> #[trigger] replay_table(period, times)[i].timestamp
                < #[trigger] replay_table(period, times)[j].timestamp,
{
    lemma_counter_prefix(period, times, times.len() as int);
    assert(times.take(times.len() as int) =~= times);
    let table = replay_table(period, times);
    assert forall|i: int, j: int| 0 <= i < j < table.len() implies #[trigger] table[i].timestamp
        < #[trigger] table[j].timestamp by {
        lemma_table_ordered(period, table, i, j);
    }
}

proof fn lemma_counter_prefix(period: BucketPeriod, times: Seq<i64>, k: int)
    requires
        0 <= k <= times.len(),
        forall|i: int, j: int| 0 <= i <= j < times.len() ==> times[i] <= times[j],
        replay_defined(period, times),
    ensures
        counter_table_ok(period, replay_table(period, times.take(k)), k),
        k > 0 ==> replay_table(period, times.take(k)).len() >= 1 && replay_table(period, times.take(k)).last().timestamp
            <= times[k - 1],
    decreases k,
{
    if k == 0 {
        assert(times.take(0) =~= Seq::<i64>::empty());
        assert(replay_table(period, Seq::<i64>::empty()) =~= Seq::<TimeBucket>::empty());
        assert(total_amount(Seq::<TimeBucket>::empty()) == 0);
    } else {
        lemma_counter_prefix(period, times, k - 1);
        let before = replay_table(period, times.take(k - 1));
        assert(times.take(k).drop_last() =~= times.take(k - 1));
        assert(times.take(k).last() == times[k - 1]);
        assert(next_write_defined(period, latest_row(before), times[k - 1]));
        if k > 1 {
            assert(times[k - 2] <= times[k - 1]);
        }
        lemma_counter_write_preserves(period, before, k - 1, times[k - 1]);
    }
}

/// A window that has run out is never extended: an attempt later than one
/// window after the opening of the latest row opens a new row counting one,
/// whatever the latest row had counted.
pub proof fn lemma_expired_window_restarts(period: BucketPeriod, latest: TimeBucket, now: i64)
    requires
        now - latest.timestamp > spec_window(period),
    ensures
        spec_next_write(period, Some(latest), now) == BucketWrite::Insert(TimeBucket { timestamp: now, amount: 1 }),
{
}

/// The windows grow strictly from hourly to daily to weekly to yearly: an
/// hour is 3,600,000 ms, a day 24 hours, a week 7 days, and a year
/// 31,556,800,000 ms (about 365.24 days).
pub proof fn lemma_windows_increase()
    ensures
        0 < spec_window(BucketPeriod::Hourly) < spec_window(BucketPeriod::Daily) < spec_window(
            BucketPeriod::Weekly,
        ) < spec_window(BucketPeriod::Yearly),
        spec_window(BucketPeriod::Hourly) == 60 * 60 * 1000,
        spec_window(BucketPeriod::Daily) == 24 * spec_window(BucketPeriod::Hourly),
        spec_window(BucketPeriod::Weekly) == 7 * spec_window(BucketPeriod::Daily),
        spec_window(BucketPeriod::Yearly) == 31_556_800_000,
{
}

} // verus!
