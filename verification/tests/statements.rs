use serverless_cost::statements::{
    summarize, writes, MySQLStatementSummary, StatementObservation, TiDBStatementSummary,
    WindowTotals,
};
use serverless_cost::statistics::{MySQLStatementsSummary, TiDBStatementsSummary, Timestamp};

const NOW: Timestamp = Timestamp { seconds: 1_700_000_000, nanoseconds: 500 };
const WEEK: i64 = 604_800;

fn second(seconds: i64) -> Timestamp {
    Timestamp { seconds, nanoseconds: 0 }
}

fn digest(sql: &str, count: u64) -> MySQLStatementSummary {
    MySQLStatementSummary {
        sql: sql.to_string(),
        count,
        affected_rows: 0,
        sent_rows: 0,
        read_rows: 0,
        first_seen: NOW,
        last_seen: NOW,
    }
}

fn observation(is_write: bool, count: u64) -> StatementObservation {
    StatementObservation {
        is_write,
        count,
        read_rows: 0,
        sent_rows: 0,
        written: 0,
        first_seen: NOW,
        last_seen: NOW,
    }
}

#[test]
fn no_statements_span_the_last_seven_days() {
    assert_eq!(
        summarize(&vec![], NOW),
        Some(WindowTotals {
            read_queries: 0,
            read_rows: 0,
            sent_rows: 0,
            write_queries: 0,
            written: 0,
            start_time: Timestamp { seconds: 1_700_000_000 - WEEK, nanoseconds: 500 },
            end_time: NOW,
        })
    );
    assert_eq!(
        MySQLStatementsSummary::from_statements(&vec![], NOW),
        Ok(Some(MySQLStatementsSummary {
            read_queries: 0,
            read_rows: 0,
            sent_rows: 0,
            write_queries: 0,
            write_rows: 0,
            start_time: Timestamp { seconds: 1_700_000_000 - WEEK, nanoseconds: 500 },
            end_time: NOW,
        }))
    );
    assert_eq!(
        TiDBStatementsSummary::from_statements(&vec![], NOW),
        Some(TiDBStatementsSummary {
            read_queries: 0,
            read_rows: 0,
            sent_rows: 0,
            write_queries: 0,
            write_bytes: 0,
            start_time: Timestamp { seconds: 1_700_000_000 - WEEK, nanoseconds: 500 },
            end_time: NOW,
        })
    );
}

#[test]
fn observations_are_summed_by_kind() {
    let observations = vec![
        StatementObservation {
            is_write: false,
            count: 10,
            read_rows: 100,
            sent_rows: 50,
            written: 0,
            first_seen: second(1_699_900_000),
            last_seen: second(1_699_990_000),
        },
        StatementObservation {
            is_write: true,
            count: 3,
            read_rows: 7,
            sent_rows: 0,
            written: 30,
            first_seen: second(1_699_800_000),
            last_seen: second(1_699_950_000),
        },
        StatementObservation {
            is_write: false,
            count: 1,
            read_rows: 1,
            sent_rows: 1,
            written: 1,
            first_seen: second(1_699_850_000),
            last_seen: second(1_699_999_000),
        },
    ];
    assert_eq!(
        summarize(&observations, NOW),
        Some(WindowTotals {
            read_queries: 11,
            read_rows: 108,
            sent_rows: 51,
            write_queries: 3,
            written: 31,
            start_time: second(1_699_800_000),
            end_time: second(1_699_999_000),
        })
    );
}

#[test]
fn window_starts_no_later_than_now_and_ends_no_earlier_than_a_week_ago() {
    let mut late = observation(false, 1);
    late.first_seen = second(1_800_000_000);
    late.last_seen = second(1_600_000_000);
    let totals = summarize(&vec![late], NOW).unwrap();
    assert_eq!(totals.start_time, NOW);
    assert_eq!(totals.end_time, Timestamp { seconds: 1_700_000_000 - WEEK, nanoseconds: 500 });
}

#[test]
fn window_bounds_compare_nanoseconds() {
    let mut early = observation(false, 1);
    early.first_seen = Timestamp { seconds: 1_700_000_000, nanoseconds: 499 };
    early.last_seen = Timestamp { seconds: 1_700_000_000, nanoseconds: 501 };
    let totals = summarize(&vec![early], NOW).unwrap();
    assert_eq!(totals.start_time, Timestamp { seconds: 1_700_000_000, nanoseconds: 499 });
    assert_eq!(totals.end_time, Timestamp { seconds: 1_700_000_000, nanoseconds: 501 });
}

#[test]
fn sum_beyond_64_bits_is_not_returned() {
    assert_eq!(summarize(&vec![observation(true, u64::MAX), observation(true, 1)], NOW), None);
    assert_eq!(summarize(&vec![observation(false, u64::MAX), observation(false, 1)], NOW), None);
    let both = summarize(&vec![observation(true, u64::MAX), observation(false, 1)], NOW).unwrap();
    assert_eq!(both.write_queries, u64::MAX);
    assert_eq!(both.read_queries, 1);
    let mut rows = observation(false, 0);
    rows.read_rows = u64::MAX;
    assert_eq!(summarize(&vec![rows, rows], NOW), None);
    let mut sent = observation(false, 0);
    sent.sent_rows = 1 << 63;
    assert_eq!(summarize(&vec![sent, sent], NOW), None);
    let mut written = observation(true, 0);
    written.written = 1 << 63;
    assert_eq!(summarize(&vec![written, written], NOW), None);
}

#[test]
fn mysql_statements_write_when_they_begin_with_insert_delete_or_update() {
    let kind = |sql: &str| digest(sql, 1).observed().unwrap().is_write;
    assert!(kind("INSERT INTO `t` VALUES (...)"));
    assert!(kind("DELETE FROM `t` WHERE `id` = ?"));
    assert!(kind("UPDATE `t` SET `a` = ?"));
    assert!(!kind("SELECT * FROM `t`"));
    assert!(!kind("REPLACE INTO `t` VALUES (...)"));
    assert!(!kind("insert into t values (1)"));
    assert!(!kind(" INSERT INTO `t` VALUES (...)"));
    assert!(!kind("SELECT 1 ; INSERT INTO `t` VALUES (...)"));
    assert!(!kind("SELECT 1\nUPDATE `t` SET `a` = ?"));
    assert!(!kind("UPDATE"));
    assert!(!kind("INSERT"));
    assert!(!kind(""));
}

#[test]
fn mysql_rows_are_summed() {
    let rows = vec![
        MySQLStatementSummary {
            sql: "SELECT * FROM `orders` WHERE `id` = ?".to_string(),
            count: 100,
            affected_rows: 0,
            sent_rows: 90,
            read_rows: 5000,
            first_seen: second(1_699_900_000),
            last_seen: second(1_699_999_999),
        },
        MySQLStatementSummary {
            sql: "INSERT INTO `orders` VALUES (...)".to_string(),
            count: 7,
            affected_rows: 7,
            sent_rows: 0,
            read_rows: 0,
            first_seen: second(1_699_700_000),
            last_seen: second(1_699_900_000),
        },
        MySQLStatementSummary {
            sql: "UPDATE `orders` SET `paid` = ? WHERE `id` = ?".to_string(),
            count: 4,
            affected_rows: 3,
            sent_rows: 0,
            read_rows: 4,
            first_seen: second(1_699_800_000),
            last_seen: second(1_699_950_000),
        },
        MySQLStatementSummary {
            sql: "SHOW TABLES".to_string(),
            count: 2,
            affected_rows: 1,
            sent_rows: 20,
            read_rows: 20,
            first_seen: second(1_699_990_000),
            last_seen: second(1_699_990_001),
        },
    ];
    assert_eq!(
        MySQLStatementsSummary::from_statements(&rows, NOW),
        Ok(Some(MySQLStatementsSummary {
            read_queries: 102,
            read_rows: 5024,
            sent_rows: 110,
            write_queries: 11,
            write_rows: 11,
            start_time: second(1_699_700_000),
            end_time: second(1_699_999_999),
        }))
    );
}

#[test]
fn mysql_sum_beyond_64_bits_is_not_returned() {
    let rows = vec![digest("SELECT 1", u64::MAX), digest("SELECT 2", 1)];
    assert_eq!(MySQLStatementsSummary::from_statements(&rows, NOW), Ok(None));
}

#[test]
fn mysql_summary_takes_over_the_totals() {
    let totals = WindowTotals {
        read_queries: 1,
        read_rows: 2,
        sent_rows: 3,
        write_queries: 4,
        written: 5,
        start_time: second(6),
        end_time: second(7),
    };
    assert_eq!(
        MySQLStatementsSummary::from_totals(totals),
        MySQLStatementsSummary {
            read_queries: 1,
            read_rows: 2,
            sent_rows: 3,
            write_queries: 4,
            write_rows: 5,
            start_time: second(6),
            end_time: second(7),
        }
    );
    assert_eq!(
        TiDBStatementsSummary::from_totals(totals),
        TiDBStatementsSummary {
            read_queries: 1,
            read_rows: 2,
            sent_rows: 3,
            write_queries: 4,
            write_bytes: 5,
            start_time: second(6),
            end_time: second(7),
        }
    );
}

#[test]
fn tidb_statement_types_that_write() {
    assert!(writes("Delete"));
    assert!(writes("Update"));
    assert!(writes("Insert"));
    assert!(writes("Replace"));
    assert!(!writes("Select"));
    assert!(!writes("Show"));
    assert!(!writes("insert"));
    assert!(!writes("Insert "));
    assert!(!writes(""));
}

#[test]
fn tidb_rows_are_summed_as_averages_times_runs() {
    let rows = vec![
        TiDBStatementSummary {
            statement_type: "Select".to_string(),
            count: 100,
            avg_result_rows: 3,
            avg_processed_keys: 40,
            avg_write_bytes: 0,
            first_seen: second(1_699_900_000),
            last_seen: second(1_699_999_999),
        },
        TiDBStatementSummary {
            statement_type: "Insert".to_string(),
            count: 10,
            avg_result_rows: 0,
            avg_processed_keys: 1,
            avg_write_bytes: 256,
            first_seen: second(1_699_600_000),
            last_seen: second(1_699_900_000),
        },
        TiDBStatementSummary {
            statement_type: "Replace".to_string(),
            count: 2,
            avg_result_rows: 0,
            avg_processed_keys: 2,
            avg_write_bytes: 100,
            first_seen: second(1_699_800_000),
            last_seen: second(1_699_950_000),
        },
    ];
    assert_eq!(
        TiDBStatementsSummary::from_statements(&rows, NOW),
        Some(TiDBStatementsSummary {
            read_queries: 100,
            read_rows: 4014,
            sent_rows: 300,
            write_queries: 12,
            write_bytes: 2760,
            start_time: second(1_699_600_000),
            end_time: second(1_699_999_999),
        })
    );
}

#[test]
fn tidb_product_beyond_64_bits_is_not_returned() {
    let row = |keys: u64, rows: u64, bytes: u64, count: u64| TiDBStatementSummary {
        statement_type: "Select".to_string(),
        count,
        avg_result_rows: rows,
        avg_processed_keys: keys,
        avg_write_bytes: bytes,
        first_seen: NOW,
        last_seen: NOW,
    };
    assert_eq!(row(1 << 32, 0, 0, 1 << 32).observed(), None);
    assert_eq!(row(0, 1 << 32, 0, 1 << 32).observed(), None);
    assert_eq!(row(0, 0, 1 << 32, 1 << 32).observed(), None);
    assert_eq!(row(1 << 31, 1 << 31, 1 << 31, 1 << 32).observed().unwrap().read_rows, 1 << 63);
    assert_eq!(TiDBStatementsSummary::from_statements(&vec![row(1 << 32, 0, 0, 1 << 32)], NOW), None);
    let half = row(1 << 31, 0, 0, 1 << 32);
    let twice = vec![half, row(1 << 31, 0, 0, 1 << 32)];
    assert_eq!(TiDBStatementsSummary::from_statements(&twice, NOW), None);
}

#[test]
fn write_pattern_compiles_for_every_statement() {
    for sql in ["", "SELECT 1", "INSERT INTO t VALUES (1)", "\u{1F600}", "(", "[", "\\"] {
        assert!(digest(sql, 1).observed().is_ok());
        assert!(MySQLStatementsSummary::from_statements(&vec![digest(sql, 1)], NOW).is_ok());
    }
}
