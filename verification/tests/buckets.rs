use brute_http::buckets::{BucketPeriod, BucketWrite, TimeBucket};

const HOUR: i64 = 3_600_000;

#[test]
fn window_lengths() {
    assert_eq!(BucketPeriod::Hourly.window_millis(), 3_600_000);
    assert_eq!(BucketPeriod::Daily.window_millis(), 86_400_000);
    assert_eq!(BucketPeriod::Weekly.window_millis(), 604_800_000);
    assert_eq!(BucketPeriod::Yearly.window_millis(), 31_556_800_000);
}

#[test]
fn empty_table_opens_a_row() {
    let w = BucketPeriod::Hourly.next_write(None, 1_000);
    assert_eq!(w, BucketWrite::Insert(TimeBucket { timestamp: 1_000, amount: 1 }));
}

#[test]
fn attempt_inside_window_counts_up() {
    let latest = TimeBucket { timestamp: 10_000, amount: 7 };
    let w = BucketPeriod::Hourly.next_write(Some(latest), 10_000 + 60_000);
    assert_eq!(w, BucketWrite::Update(TimeBucket { timestamp: 10_000, amount: 8 }));
}

#[test]
fn window_edge_is_still_inside() {
    let latest = TimeBucket { timestamp: 0, amount: 3 };
    let w = BucketPeriod::Hourly.next_write(Some(latest), HOUR);
    assert_eq!(w, BucketWrite::Update(TimeBucket { timestamp: 0, amount: 4 }));
}

#[test]
fn one_past_the_window_restarts() {
    let latest = TimeBucket { timestamp: 0, amount: 3 };
    let w = BucketPeriod::Hourly.next_write(Some(latest), HOUR + 1);
    assert_eq!(w, BucketWrite::Insert(TimeBucket { timestamp: HOUR + 1, amount: 1 }));
}

#[test]
fn same_elapsed_time_depends_on_period() {
    let latest = TimeBucket { timestamp: 0, amount: 5 };
    let two_hours = 2 * HOUR;
    assert_eq!(
        BucketPeriod::Hourly.next_write(Some(latest), two_hours),
        BucketWrite::Insert(TimeBucket { timestamp: two_hours, amount: 1 })
    );
    assert_eq!(
        BucketPeriod::Daily.next_write(Some(latest), two_hours),
        BucketWrite::Update(TimeBucket { timestamp: 0, amount: 6 })
    );
    let eight_days = 8 * 86_400_000;
    assert_eq!(
        BucketPeriod::Weekly.next_write(Some(latest), eight_days),
        BucketWrite::Insert(TimeBucket { timestamp: eight_days, amount: 1 })
    );
    assert_eq!(
        BucketPeriod::Yearly.next_write(Some(latest), eight_days),
        BucketWrite::Update(TimeBucket { timestamp: 0, amount: 6 })
    );
}

#[test]
fn attempts_in_one_window_share_a_row() {
    let mut latest: Option<TimeBucket> = None;
    for t in [5_000i64, 5_001, 1_000_000, 5_000 + HOUR] {
        let w = BucketPeriod::Hourly.next_write(latest, t);
        latest = Some(match w {
            BucketWrite::Insert(b) => b,
            BucketWrite::Update(b) => b,
        });
    }
    assert_eq!(latest, Some(TimeBucket { timestamp: 5_000, amount: 4 }));
}

#[test]
fn bucket_statements() {
    assert_eq!(BucketPeriod::Hourly.latest_statement(), "SELECT * FROM top_hourly ORDER BY timestamp DESC LIMIT 1;");
    assert_eq!(BucketPeriod::Yearly.latest_statement(), "SELECT * FROM top_yearly ORDER BY timestamp DESC LIMIT 1;");
    let ins = BucketWrite::Insert(TimeBucket { timestamp: 1, amount: 1 });
    let upd = BucketWrite::Update(TimeBucket { timestamp: 1, amount: 2 });
    assert_eq!(BucketPeriod::Daily.write_statement(&ins), "INSERT INTO top_daily (timestamp, amount) VALUES ($1, 1);");
    assert_eq!(BucketPeriod::Weekly.write_statement(&upd), "UPDATE top_weekly SET amount = $1 WHERE timestamp = $2;");
}

#[test]
fn counter_table_over_several_windows() {
    let mut table: Vec<TimeBucket> = Vec::new();
    let times = [0i64, 10, HOUR + 11, HOUR + 20, 3 * HOUR, 3 * HOUR];
    for t in times {
        match BucketPeriod::Hourly.next_write(table.last().copied(), t) {
            BucketWrite::Insert(b) => table.push(b),
            BucketWrite::Update(b) => {
                table.pop();
                table.push(b);
            }
        }
    }
    assert_eq!(
        table,
        vec![
            TimeBucket { timestamp: 0, amount: 2 },
            TimeBucket { timestamp: HOUR + 11, amount: 2 },
            TimeBucket { timestamp: 3 * HOUR, amount: 2 },
        ]
    );
    assert!(table.windows(2).all(|w| w[1].timestamp - w[0].timestamp > HOUR));
    assert_eq!(table.iter().map(|b| b.amount as usize).sum::<usize>(), times.len());
}
