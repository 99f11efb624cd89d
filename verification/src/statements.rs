//! Summing the statistics of single statements over a window.

use vstd::prelude::*;

use crate::pattern::{matches_pattern, pattern_compiles, pattern_found, PatternError};
use crate::statistics::{MySQLStatementsSummary, TiDBStatementsSummary, Timestamp};
use crate::text::same_text;

verus! {

/// Statements that write begin with one of these three words.
pub const WRITE_STATEMENT: &'static str = "^INSERT |^DELETE |^UPDATE ";

/// What one kind of statement did since it was first seen.
#[derive(Clone, Copy, Debug, PartialEq, Eq)]
pub struct StatementObservation {
    /// Whether the statement writes.
    pub is_write: bool,
    /// How often it ran.
    pub count: u64,
    /// Rows that it examined, over all runs.
    pub read_rows: u64,
    /// Rows that it sent to clients, over all runs.
    pub sent_rows: u64,
    /// What it wrote, over all runs: rows or bytes, as the server counts.
    pub written: u64,
    pub first_seen: Timestamp,
    pub last_seen: Timestamp,
}

/// What one kind of statement adds to the sums of a window, as numbers
/// without bound.
pub struct Shares {
    pub is_write: bool,
    pub count: nat,
    pub read_rows: nat,
    pub sent_rows: nat,
    pub written: nat,
    pub first_seen: Timestamp,
    pub last_seen: Timestamp,
}

impl StatementObservation {
    /// What this observation adds to the sums.
    pub open spec fn shares(self) -> Shares {
        Shares {
            is_write: self.is_write,
            count: self.count as nat,
            read_rows: self.read_rows as nat,
            sent_rows: self.sent_rows as nat,
            written: self.written as nat,
            first_seen: self.first_seen,
            last_seen: self.last_seen,
        }
    }
}

/// What each of `observations` adds to the sums, in order.
pub open spec fn shares_of(observations: Seq<StatementObservation>) -> Seq<Shares> {
    Seq::new(observations.len(), |i: int| observations[i].shares())
}

/// The sums over the statements of a window, and the window.
#[derive(Clone, Copy, Debug, PartialEq, Eq)]
pub struct WindowTotals {
    pub read_queries: u64,
    pub read_rows: u64,
    pub sent_rows: u64,
    pub write_queries: u64,
    pub written: u64,
    pub start_time: Timestamp,
    pub end_time: Timestamp,
}

/// The five sums that are kept.
pub enum Tally {
    ReadQueries,
    ReadRows,
    SentRows,
    WriteQueries,
    Written,
}

/// What one observation adds to a sum: its runs to the queries of its kind,
/// its rows and what it wrote to the others.
pub open spec fn share(observation: Shares, tally: Tally) -> nat {
    match tally {
        Tally::ReadQueries => if observation.is_write {
            0
        } else {
            observation.count
        },
        Tally::WriteQueries => if observation.is_write {
            observation.count
        } else {
            0
        },
        Tally::ReadRows => observation.read_rows,
        Tally::SentRows => observation.sent_rows,
        Tally::Written => observation.written,
    }
}

/// The sum over the first `n` observations.
pub open spec fn tally_of_first(observations: Seq<Shares>, tally: Tally, n: nat) -> nat
    decreases n,
{
    if n == 0 {
        0
    } else {
        tally_of_first(observations, tally, (n - 1) as nat) + share(observations[n - 1], tally)
    }
}

/// The sum over all observations.
pub open spec fn tally_of(observations: Seq<Shares>, tally: Tally) -> nat {
    tally_of_first(observations, tally, observations.len())
}

/// The earliest of `start` and the instants at which the first `n`
/// observations were first seen.
pub open spec fn earliest_of_first(
    observations: Seq<Shares>,
    start: Timestamp,
    n: nat,
) -> Timestamp
    decreases n,
{
    if n == 0 {
        start
    } else {
        earliest_of_first(observations, start, (n - 1) as nat).earlier_of(
            observations[n - 1].first_seen,
        )
    }
}

/// The latest of `end` and the instants at which the first `n` observations
/// were last seen.
pub open spec fn latest_of_first(
    observations: Seq<Shares>,
    end: Timestamp,
    n: nat,
) -> Timestamp
    decreases n,
{
    if n == 0 {
        end
    } else {
        latest_of_first(observations, end, (n - 1) as nat).later_of(observations[n - 1].last_seen)
    }
}

/// Whether all five sums fit in 64 bits.
pub open spec fn totals_fit(observations: Seq<Shares>) -> bool {
    &&& tally_of(observations, Tally::ReadQueries) <= u64::MAX
    &&& tally_of(observations, Tally::ReadRows) <= u64::MAX
    &&& tally_of(observations, Tally::SentRows) <= u64::MAX
    &&& tally_of(observations, Tally::WriteQueries) <= u64::MAX
    &&& tally_of(observations, Tally::Written) <= u64::MAX
}

/// The window that the observations span at the instant `now`.
///
/// Without observations it is the seven days before `now`. With observations
/// it starts with the first that was seen, though not after `now`, and ends
/// with the last that was seen, though not more than seven days ago.
pub open spec fn window_of(observations: Seq<Shares>, now: Timestamp) -> (
    Timestamp,
    Timestamp,
) {
    if observations.len() == 0 {
        (now.week_before(), now)
    } else {
        (
            earliest_of_first(observations, now, observations.len()),
            latest_of_first(observations, now.week_before(), observations.len()),
        )
    }
}

/// The sums over `observations` and their window at the instant `now`.
pub open spec fn totals_of(observations: Seq<Shares>, now: Timestamp) -> WindowTotals {
    WindowTotals {
        read_queries: tally_of(observations, Tally::ReadQueries) as u64,
        read_rows: tally_of(observations, Tally::ReadRows) as u64,
        sent_rows: tally_of(observations, Tally::SentRows) as u64,
        write_queries: tally_of(observations, Tally::WriteQueries) as u64,
        written: tally_of(observations, Tally::Written) as u64,
        start_time: window_of(observations, now).0,
        end_time: window_of(observations, now).1,
    }
}

/// What [`summarize`] returns: the totals where they fit, and nothing where
/// one of them does not.
pub open spec fn summary_of(observations: Seq<Shares>, now: Timestamp) -> Option<
    WindowTotals,
> {
    if totals_fit(observations) {
        Some(totals_of(observations, now))
    } else {
        None
    }
}

/// A sum over fewer observations is no larger.
pub proof fn lemma_tally_grows(
    observations: Seq<Shares>,
    tally: Tally,
    fewer: nat,
    more: nat,
)
    requires
        fewer <= more,
    ensures
        tally_of_first(observations, tally, fewer) <= tally_of_first(observations, tally, more),
    decreases more,
{
    if fewer < more {
        lemma_tally_grows(observations, tally, fewer, (more - 1) as nat);
    }
}

/// Sums the observations of a window taken at the instant `now`.
///
/// Returns nothing exactly when one of the five sums does not fit in 64 bits.
pub fn summarize(observations: &Vec<StatementObservation>, now: Timestamp) -> (totals: Option<
    WindowTotals,
>)
    requires
        now.has_week_before(),
    ensures
        totals == summary_of(shares_of(observations@), now),
{
    let ghost all_shares = shares_of(observations@);
    let week_ago: Timestamp = now.a_week_before();
    if observations.len() == 0 {
        return Some(
            WindowTotals {
                read_queries: 0,
                read_rows: 0,
                sent_rows: 0,
                write_queries: 0,
                written: 0,
                start_time: week_ago,
                end_time: now,
            },
        );
    }
    let mut read_queries: u64 = 0;
    let mut read_rows: u64 = 0;
    let mut sent_rows: u64 = 0;
    let mut write_queries: u64 = 0;
    let mut written: u64 = 0;
    let mut start_time: Timestamp = now;
    let mut end_time: Timestamp = week_ago;
    let mut i: usize = 0;
    while i < observations.len()
        invariant
            i <= observations@.len(),
            week_ago == now.week_before(),
            all_shares == shares_of(observations@),
            read_queries == tally_of_first(all_shares, Tally::ReadQueries, i as nat),
            read_rows == tally_of_first(all_shares, Tally::ReadRows, i as nat),
            sent_rows == tally_of_first(all_shares, Tally::SentRows, i as nat),
            write_queries == tally_of_first(all_shares, Tally::WriteQueries, i as nat),
            written == tally_of_first(all_shares, Tally::Written, i as nat),
            start_time == earliest_of_first(all_shares, now, i as nat),
            end_time == latest_of_first(all_shares, week_ago, i as nat),
        decreases observations@.len() - i,
    {
        let observation: StatementObservation = observations[i];
        proof {
            let all = all_shares.len();
            assert(all_shares[i as int] == observation.shares());
            lemma_tally_grows(all_shares, Tally::ReadQueries, (i + 1) as nat, all);
            lemma_tally_grows(all_shares, Tally::ReadRows, (i + 1) as nat, all);
            lemma_tally_grows(all_shares, Tally::SentRows, (i + 1) as nat, all);
            lemma_tally_grows(all_shares, Tally::WriteQueries, (i + 1) as nat, all);
            lemma_tally_grows(all_shares, Tally::Written, (i + 1) as nat, all);
        }
        let queries: u64 = if observation.is_write {
            write_queries
        } else {
            read_queries
        };
        let more_queries: u64 = match queries.checked_add(observation.count) {
            Some(total) => total,
            None => {
                return None;
            },
        };
        let more_read_rows: u64 = match read_rows.checked_add(observation.read_rows) {
            Some(total) => total,
            None => {
                return None;
            },
        };
        let more_sent_rows: u64 = match sent_rows.checked_add(observation.sent_rows) {
            Some(total) => total,
            None => {
                return None;
            },
        };
        let more_written: u64 = match written.checked_add(observation.written) {
            Some(total) => total,
            None => {
                return None;
            },
        };
        if observation.is_write {
            write_queries = more_queries;
        } else {
            read_queries = more_queries;
        }
        read_rows = more_read_rows;
        sent_rows = more_sent_rows;
        written = more_written;
        start_time = start_time.earlier(observation.first_seen);
        end_time = end_time.later(observation.last_seen);
        i += 1;
    }
    Some(
        WindowTotals {
            read_queries,
            read_rows,
            sent_rows,
            write_queries,
            written,
            start_time,
            end_time,
        },
    )
}

/// A sum is at least each share that went into it.
pub proof fn lemma_tally_holds_share(observations: Seq<Shares>, tally: Tally, index: int)
    requires
        0 <= index < observations.len(),
    ensures
        share(observations[index], tally) <= tally_of(observations, tally),
{
    lemma_tally_grows(observations, tally, (index + 1) as nat, observations.len());
}

// ----------------------------------------------------------------------------
// MySQL and MariaDB
// ----------------------------------------------------------------------------

/// One row of the statement digest summary of the performance schema.
#[derive(Debug, PartialEq, Eq)]
pub struct MySQLStatementSummary {
    /// The normalised text of the statement.
    pub sql: String,
    /// How often it ran.
    pub count: u64,
    pub affected_rows: u64,
    pub sent_rows: u64,
    pub read_rows: u64,
    pub first_seen: Timestamp,
    pub last_seen: Timestamp,
}

impl MySQLStatementSummary {
    /// What the row adds to the sums, for a statement known to write or not.
    pub open spec fn shares_as(self, is_write: bool) -> Shares {
        Shares {
            is_write,
            count: self.count as nat,
            read_rows: self.read_rows as nat,
            sent_rows: self.sent_rows as nat,
            written: self.affected_rows as nat,
            first_seen: self.first_seen,
            last_seen: self.last_seen,
        }
    }

    /// What the row adds to the sums. A statement writes where its text
    /// matches [`WRITE_STATEMENT`].
    pub open spec fn shares(self) -> Shares {
        self.shares_as(pattern_found(WRITE_STATEMENT@, self.sql@))
    }

    /// The row as an observation of a statement that writes, or does not.
    pub fn observed_as(&self, is_write: bool) -> (observation: StatementObservation)
        ensures
            observation.shares() == self.shares_as(is_write),
    {
        StatementObservation {
            is_write,
            count: self.count,
            read_rows: self.read_rows,
            sent_rows: self.sent_rows,
            written: self.affected_rows,
            first_seen: self.first_seen,
            last_seen: self.last_seen,
        }
    }

    /// The row as an observation; fails exactly when [`WRITE_STATEMENT`]
    /// cannot be compiled.
    pub fn observed(&self) -> (observation: Result<StatementObservation, PatternError>)
        ensures
            observation is Ok <==> pattern_compiles(WRITE_STATEMENT@),
            observation matches Ok(found) ==> found.shares() == self.shares(),
    {
        match matches_pattern(WRITE_STATEMENT, self.sql.as_str()) {
            Ok(is_write) => Ok(self.observed_as(is_write)),
            Err(error) => Err(error),
        }
    }
}

/// What each row adds to the sums, in order.
pub open spec fn mysql_shares(rows: Seq<MySQLStatementSummary>) -> Seq<Shares> {
    Seq::new(rows.len(), |i: int| rows[i].shares())
}

impl MySQLStatementsSummary {
    /// The summary that holds `totals`, what was written counted in rows.
    pub open spec fn of_totals(totals: WindowTotals) -> MySQLStatementsSummary {
        MySQLStatementsSummary {
            read_queries: totals.read_queries,
            read_rows: totals.read_rows,
            sent_rows: totals.sent_rows,
            write_queries: totals.write_queries,
            write_rows: totals.written,
            start_time: totals.start_time,
            end_time: totals.end_time,
        }
    }

    /// The summary of `rows` at the instant `now`, where its sums fit in 64 bits.
    pub open spec fn of_statements(rows: Seq<MySQLStatementSummary>, now: Timestamp) -> Option<
        MySQLStatementsSummary,
    > {
        match summary_of(mysql_shares(rows), now) {
            Some(totals) => Some(Self::of_totals(totals)),
            None => None,
        }
    }

    /// Computes [`MySQLStatementsSummary::of_totals`].
    pub fn from_totals(totals: WindowTotals) -> (summary: MySQLStatementsSummary)
        ensures
            summary == Self::of_totals(totals),
    {
        MySQLStatementsSummary {
            read_queries: totals.read_queries,
            read_rows: totals.read_rows,
            sent_rows: totals.sent_rows,
            write_queries: totals.write_queries,
            write_rows: totals.written,
            start_time: totals.start_time,
            end_time: totals.end_time,
        }
    }

    /// Sums the rows of the statement digest summary, read at the instant `now`.
    ///
    /// Fails exactly when there are rows and [`WRITE_STATEMENT`] cannot be
    /// compiled; the summary is absent exactly when a sum does not fit in 64
    /// bits.
    pub fn from_statements(rows: &Vec<MySQLStatementSummary>, now: Timestamp) -> (summary: Result<
        Option<MySQLStatementsSummary>,
        PatternError,
    >)
        requires
            now.has_week_before(),
        ensures
            summary is Ok <==> rows@.len() == 0 || pattern_compiles(WRITE_STATEMENT@),
            summary matches Ok(found) ==> found == Self::of_statements(rows@, now),
    {
        let mut observations: Vec<StatementObservation> = Vec::new();
        let mut i: usize = 0;
        while i < rows.len()
            invariant
                i <= rows@.len(),
                observations@.len() == i,
                i > 0 ==> pattern_compiles(WRITE_STATEMENT@),
                forall|k: int| 0 <= k < i ==> observations@[k].shares() == rows@[k].shares(),
            decreases rows@.len() - i,
        {
            match rows[i].observed() {
                Ok(observation) => {
                    observations.push(observation);
                },
                Err(error) => {
                    return Err(error);
                },
            }
            i += 1;
        }
        assert(shares_of(observations@) =~= mysql_shares(rows@));
        match summarize(&observations, now) {
            Some(totals) => Ok(Some(Self::from_totals(totals))),
            None => Ok(None),
        }
    }
}

// ----------------------------------------------------------------------------
// TiDB
// ----------------------------------------------------------------------------

/// One row of the statement summary of a TiDB cluster; rows and bytes are
/// averages over the runs of the statement.
#[derive(Debug, PartialEq, Eq)]
pub struct TiDBStatementSummary {
    /// The kind of statement, such as `Select` or `Insert`.
    pub statement_type: String,
    /// How often it ran.
    pub count: u64,
    pub avg_result_rows: u64,
    pub avg_processed_keys: u64,
    pub avg_write_bytes: u64,
    pub first_seen: Timestamp,
    pub last_seen: Timestamp,
}

/// The four kinds of statement that write.
pub open spec fn is_write_type(statement_type: Seq<char>) -> bool {
    ||| statement_type == "Delete"@
    ||| statement_type == "Update"@
    ||| statement_type == "Insert"@
    ||| statement_type == "Replace"@
}

/// Computes [`is_write_type`].
pub fn writes(statement_type: &str) -> (answer: bool)
    ensures
        answer == is_write_type(statement_type@),
{
    same_text(statement_type, "Delete") || same_text(statement_type, "Update") || same_text(
        statement_type,
        "Insert",
    ) || same_text(statement_type, "Replace")
}

impl TiDBStatementSummary {
    /// What the row adds to the sums: each average times the number of runs.
    pub open spec fn shares(self) -> Shares {
        Shares {
            is_write: is_write_type(self.statement_type@),
            count: self.count as nat,
            read_rows: (self.avg_processed_keys * self.count) as nat,
            sent_rows: (self.avg_result_rows * self.count) as nat,
            written: (self.avg_write_bytes * self.count) as nat,
            first_seen: self.first_seen,
            last_seen: self.last_seen,
        }
    }

    /// Whether what the row adds can be written down in 64 bits.
    pub open spec fn fits(self) -> bool {
        &&& self.avg_processed_keys * self.count <= u64::MAX
        &&& self.avg_result_rows * self.count <= u64::MAX
        &&& self.avg_write_bytes * self.count <= u64::MAX
    }

    /// The row as an observation, or nothing where a product does not fit in
    /// 64 bits.
    pub fn observed(&self) -> (observation: Option<StatementObservation>)
        ensures
            observation is Some <==> self.fits(),
            observation matches Some(found) ==> found.shares() == self.shares(),
    {
        let read_rows: u64 = match self.avg_processed_keys.checked_mul(self.count) {
            Some(product) => product,
            None => {
                return None;
            },
        };
        let sent_rows: u64 = match self.avg_result_rows.checked_mul(self.count) {
            Some(product) => product,
            None => {
                return None;
            },
        };
        let written: u64 = match self.avg_write_bytes.checked_mul(self.count) {
            Some(product) => product,
            None => {
                return None;
            },
        };
        Some(
            StatementObservation {
                is_write: writes(self.statement_type.as_str()),
                count: self.count,
                read_rows,
                sent_rows,
                written,
                first_seen: self.first_seen,
                last_seen: self.last_seen,
            },
        )
    }
}

/// What each row adds to the sums, in order.
pub open spec fn tidb_shares(rows: Seq<TiDBStatementSummary>) -> Seq<Shares> {
    Seq::new(rows.len(), |i: int| rows[i].shares())
}

/// A row whose products do not fit leaves one of the sums beyond 64 bits.
pub proof fn lemma_large_row_breaks_totals(rows: Seq<TiDBStatementSummary>, index: int)
    requires
        0 <= index < rows.len(),
        !rows[index].fits(),
    ensures
        !totals_fit(tidb_shares(rows)),
{
    let shares = tidb_shares(rows);
    assert(shares[index] == rows[index].shares());
    lemma_tally_holds_share(shares, Tally::ReadRows, index);
    lemma_tally_holds_share(shares, Tally::SentRows, index);
    lemma_tally_holds_share(shares, Tally::Written, index);
}

impl TiDBStatementsSummary {
    /// The summary that holds `totals`, what was written counted in bytes.
    pub open spec fn of_totals(totals: WindowTotals) -> TiDBStatementsSummary {
        TiDBStatementsSummary {
            read_queries: totals.read_queries,
            read_rows: totals.read_rows,
            sent_rows: totals.sent_rows,
            write_queries: totals.write_queries,
            write_bytes: totals.written,
            start_time: totals.start_time,
            end_time: totals.end_time,
        }
    }

    /// The summary of `rows` at the instant `now`, where its sums fit in 64 bits.
    pub open spec fn of_statements(rows: Seq<TiDBStatementSummary>, now: Timestamp) -> Option<
        TiDBStatementsSummary,
    > {
        match summary_of(tidb_shares(rows), now) {
            Some(totals) => Some(Self::of_totals(totals)),
            None => None,
        }
    }

    /// Computes [`TiDBStatementsSummary::of_totals`].
    pub fn from_totals(totals: WindowTotals) -> (summary: TiDBStatementsSummary)
        ensures
            summary == Self::of_totals(totals),
    {
        TiDBStatementsSummary {
            read_queries: totals.read_queries,
            read_rows: totals.read_rows,
            sent_rows: totals.sent_rows,
            write_queries: totals.write_queries,
            write_bytes: totals.written,
            start_time: totals.start_time,
            end_time: totals.end_time,
        }
    }

    /// Sums the rows of the statement summary, read at the instant `now`.
    ///
    /// The summary is absent exactly when a sum does not fit in 64 bits.
    pub fn from_statements(rows: &Vec<TiDBStatementSummary>, now: Timestamp) -> (summary: Option<
        TiDBStatementsSummary,
    >)
        requires
            now.has_week_before(),
        ensures
            summary == Self::of_statements(rows@, now),
    {
        let mut observations: Vec<StatementObservation> = Vec::new();
        let mut i: usize = 0;
        while i < rows.len()
            invariant
                i <= rows@.len(),
                observations@.len() == i,
                forall|k: int| 0 <= k < i ==> observations@[k].shares() == rows@[k].shares(),
            decreases rows@.len() - i,
        {
            match rows[i].observed() {
                Some(observation) => {
                    observations.push(observation);
                },
                None => {
                    proof {
                        lemma_large_row_breaks_totals(rows@, i as int);
                    }
                    return None;
                },
            }
            i += 1;
        }
        assert(shares_of(observations@) =~= tidb_shares(rows@));
        match summarize(&observations, now) {
            Some(totals) => Some(Self::from_totals(totals)),
            None => None,
        }
    }
}

} // verus!
