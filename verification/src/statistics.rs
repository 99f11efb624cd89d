//! Raw statistics as they are read from a server, before normalisation.

use vstd::prelude::*;

verus! {

/// Nanoseconds in one second.
pub const NANOSECONDS_PER_SECOND: i128 = 1_000_000_000;

/// Nanoseconds in one minute.
pub const NANOSECONDS_PER_MINUTE: i128 = 60_000_000_000;

/// Seconds in seven days, the longest window that statistics are read for.
pub const SECONDS_PER_WEEK: i64 = 604_800;

/// An instant: seconds since the Unix epoch and the nanoseconds past them.
#[derive(Clone, Copy, Debug, PartialEq, Eq)]
pub struct Timestamp {
    pub seconds: i64,
    pub nanoseconds: u32,
}

impl Timestamp {
    /// Nanoseconds since the Unix epoch.
    pub open spec fn nanos(self) -> int {
        self.seconds * 1_000_000_000 + self.nanoseconds
    }

    /// Nanoseconds since the Unix epoch.
    pub fn as_nanos(&self) -> (nanos: i128)
        ensures
            nanos == self.nanos(),
    {
        (self.seconds as i128) * NANOSECONDS_PER_SECOND + (self.nanoseconds as i128)
    }

    /// The instant seven days before this one.
    pub open spec fn week_before(self) -> Timestamp {
        Timestamp { seconds: (self.seconds - 604_800) as i64, nanoseconds: self.nanoseconds }
    }

    /// The earlier of two instants, and this one where they are the same.
    pub open spec fn earlier_of(self, other: Timestamp) -> Timestamp {
        if other.nanos() < self.nanos() {
            other
        } else {
            self
        }
    }

    /// The later of two instants, and this one where they are the same.
    pub open spec fn later_of(self, other: Timestamp) -> Timestamp {
        if other.nanos() > self.nanos() {
            other
        } else {
            self
        }
    }

    /// Whether an instant seven days before this one can be written down.
    pub open spec fn has_week_before(self) -> bool {
        self.seconds >= i64::MIN + 604_800
    }

    /// Computes [`Timestamp::has_week_before`].
    pub fn can_go_back_a_week(&self) -> (possible: bool)
        ensures
            possible == self.has_week_before(),
    {
        self.seconds >= i64::MIN + SECONDS_PER_WEEK
    }

    /// The instant seven days before this one.
    pub fn a_week_before(&self) -> (instant: Timestamp)
        requires
            self.has_week_before(),
        ensures
            instant == self.week_before(),
    {
        Timestamp { seconds: self.seconds - SECONDS_PER_WEEK, nanoseconds: self.nanoseconds }
    }

    /// The earlier of two instants.
    pub fn earlier(self, other: Timestamp) -> (instant: Timestamp)
        ensures
            instant == self.earlier_of(other),
    {
        if other.as_nanos() < self.as_nanos() {
            other
        } else {
            self
        }
    }

    /// The later of two instants.
    pub fn later(self, other: Timestamp) -> (instant: Timestamp)
        ensures
            instant == self.later_of(other),
    {
        if other.as_nanos() > self.as_nanos() {
            other
        } else {
            self
        }
    }
}

/// The whole minutes from `start` to `end`; none where `end` is not after `start`.
pub open spec fn whole_minutes_between(start: Timestamp, end: Timestamp) -> nat {
    let elapsed = end.nanos() - start.nanos();
    if elapsed <= 0 {
        0
    } else {
        (elapsed / 60_000_000_000) as nat
    }
}

/// The length in minutes of the window from `start` to `end`, by which rates
/// are divided: its whole minutes, and one minute where it has none.
pub open spec fn window_minutes(start: Timestamp, end: Timestamp) -> nat {
    at_least_one(whole_minutes_between(start, end))
}

/// A window is never shorter than one minute and its length fits in 64 bits.
pub proof fn lemma_window_minutes_bounds(start: Timestamp, end: Timestamp)
    ensures
        1 <= window_minutes(start, end) < 0x1000_0000_0000_0000,
{
    let elapsed = end.nanos() - start.nanos();
    assert(elapsed < 0x1_0000_0000_0000_0000 * 1_000_000_000 + 0x1_0000_0000);
    if elapsed > 0 {
        assert(elapsed / 60_000_000_000 < 0x1000_0000_0000_0000);
    }
}

/// Computes [`window_minutes`].
pub fn duration_in_minutes(start: &Timestamp, end: &Timestamp) -> (minutes: u64)
    ensures
        minutes == window_minutes(*start, *end),
        minutes >= 1,
{
    proof {
        lemma_window_minutes_bounds(*start, *end);
    }
    let elapsed: i128 = end.as_nanos() - start.as_nanos();
    if elapsed < 2 * NANOSECONDS_PER_MINUTE {
        assert(elapsed > 0 ==> elapsed / 60_000_000_000 <= 1);
        1
    } else {
        (elapsed / NANOSECONDS_PER_MINUTE) as u64
    }
}

/// Totals over the tables of one database; a total that the server did not
/// report is absent and counts as zero.
#[derive(Clone, Copy, Debug, PartialEq, Eq)]
pub struct TablesInformation {
    pub total_rows: Option<u64>,
    pub total_data_in_bytes: Option<u64>,
    pub total_index_in_bytes: Option<u64>,
}

/// A number that may be absent, an absent one counting as zero.
pub open spec fn or_zero(value: Option<u64>) -> nat {
    match value {
        Some(n) => n as nat,
        None => 0,
    }
}

/// `n`, and one where `n` is zero.
pub open spec fn at_least_one(n: nat) -> nat {
    if n < 1 {
        1
    } else {
        n
    }
}

impl TablesInformation {
    /// Data and indexes together, and one byte where there are none, so that
    /// the total can divide.
    pub open spec fn total_storage_in_bytes(self) -> nat {
        at_least_one(or_zero(self.total_data_in_bytes) + or_zero(self.total_index_in_bytes))
    }

    /// The storage that one row takes on average.
    pub open spec fn average_row_size_in_bytes(self) -> nat {
        self.total_storage_in_bytes() / at_least_one(or_zero(self.total_rows))
    }

    /// How many storage regions of 256 MiB the tables fill.
    pub open spec fn estimated_number_of_regions(self) -> nat {
        self.total_storage_in_bytes() / 268435456
    }
}

/// Statement statistics of a MySQL or MariaDB server, summed over a window.
#[derive(Clone, Copy, Debug, PartialEq, Eq)]
pub struct MySQLStatementsSummary {
    pub read_queries: u64,
    pub read_rows: u64,
    pub sent_rows: u64,
    pub write_queries: u64,
    pub write_rows: u64,
    pub start_time: Timestamp,
    pub end_time: Timestamp,
}

/// Statement statistics of a TiDB server, summed over a window.
#[derive(Clone, Copy, Debug, PartialEq, Eq)]
pub struct TiDBStatementsSummary {
    pub read_queries: u64,
    pub read_rows: u64,
    pub sent_rows: u64,
    pub write_queries: u64,
    pub write_bytes: u64,
    pub start_time: Timestamp,
    pub end_time: Timestamp,
}

/// Throughput of a TiDB cluster as its own metrics give it, per hour.
#[derive(Clone, Copy, Debug, PartialEq, Eq)]
pub struct TiDBSystemMetrics {
    pub write_bytes_per_hour: u64,
    pub write_requests_per_hour: u64,
    pub read_bytes_per_hour: u64,
    pub read_requests_per_hour: u64,
}

} // verus!
