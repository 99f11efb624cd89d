//! System metrics of a TiDB cluster, from their sums over a number of days.

use vstd::prelude::*;

use crate::statistics::{or_zero, TiDBSystemMetrics};
use crate::text::same_text;

verus! {

/// The number of days that the metrics are first asked for.
pub const LONGEST_INTERVAL_IN_DAYS: u64 = 7;

/// Hours in one day.
pub const HOURS_PER_DAY: u64 = 24;

/// The sum of one metric over the interval; an absent sum counts as zero.
#[derive(Debug, PartialEq, Eq)]
pub struct MetricTotal {
    /// `write_bytes`, `write_requests`, `read_bytes` or `read_requests`.
    pub name: String,
    pub value: Option<u64>,
}

/// The interval to ask for once the metrics of `days` days could not be
/// read: one day less, and none once a single day has failed.
pub open spec fn interval_after(days: u64) -> Option<u64> {
    if days <= 1 {
        None
    } else {
        Some((days - 1) as u64)
    }
}

/// Computes [`interval_after`].
pub fn shorter_interval(days: u64) -> (next: Option<u64>)
    ensures
        next == interval_after(days),
{
    if days <= 1 {
        None
    } else {
        Some(days - 1)
    }
}

impl TiDBSystemMetrics {
    /// Metrics of a cluster that does nothing.
    pub open spec fn idle() -> TiDBSystemMetrics {
        TiDBSystemMetrics {
            write_bytes_per_hour: 0,
            write_requests_per_hour: 0,
            read_bytes_per_hour: 0,
            read_requests_per_hour: 0,
        }
    }

    /// These metrics with the rate of `total` over `hours` hours in the place
    /// that its name says; a total of another name changes nothing.
    pub open spec fn with_total(self, total: MetricTotal, hours: nat) -> TiDBSystemMetrics {
        let rate = (or_zero(total.value) / hours) as u64;
        if total.name@ == "write_bytes"@ {
            TiDBSystemMetrics { write_bytes_per_hour: rate, ..self }
        } else if total.name@ == "write_requests"@ {
            TiDBSystemMetrics { write_requests_per_hour: rate, ..self }
        } else if total.name@ == "read_bytes"@ {
            TiDBSystemMetrics { read_bytes_per_hour: rate, ..self }
        } else if total.name@ == "read_requests"@ {
            TiDBSystemMetrics { read_requests_per_hour: rate, ..self }
        } else {
            self
        }
    }

    /// The metrics that the first `n` totals give; of two totals of one name
    /// the later counts.
    pub open spec fn of_first(totals: Seq<MetricTotal>, hours: nat, n: nat) -> TiDBSystemMetrics
        decreases n,
    {
        if n == 0 {
            Self::idle()
        } else {
            Self::of_first(totals, hours, (n - 1) as nat).with_total(totals[n - 1], hours)
        }
    }

    /// The metrics that `totals`, summed over `days` days, give per hour.
    pub open spec fn of_totals(totals: Seq<MetricTotal>, days: u64) -> TiDBSystemMetrics {
        Self::of_first(totals, (days * 24) as nat, totals.len())
    }

    /// Divides the sums of the metrics over `days` days down to an hour.
    pub fn from_totals(totals: &Vec<MetricTotal>, days: u64) -> (metrics: TiDBSystemMetrics)
        requires
            days >= 1,
            days * 24 <= u64::MAX,
        ensures
            metrics == Self::of_totals(totals@, days),
    {
        let hours: u64 = days * HOURS_PER_DAY;
        let mut metrics: TiDBSystemMetrics = TiDBSystemMetrics {
            write_bytes_per_hour: 0,
            write_requests_per_hour: 0,
            read_bytes_per_hour: 0,
            read_requests_per_hour: 0,
        };
        let mut i: usize = 0;
        while i < totals.len()
            invariant
                i <= totals@.len(),
                hours == days * 24,
                hours >= 1,
                metrics == Self::of_first(totals@, hours as nat, i as nat),
            decreases totals@.len() - i,
        {
            let value: u64 = match totals[i].value {
                Some(n) => n,
                None => 0,
            };
            let rate: u64 = value / hours;
            let name: &str = totals[i].name.as_str();
            if same_text(name, "write_bytes") {
                metrics.write_bytes_per_hour = rate;
            } else if same_text(name, "write_requests") {
                metrics.write_requests_per_hour = rate;
            } else if same_text(name, "read_bytes") {
                metrics.read_bytes_per_hour = rate;
            } else if same_text(name, "read_requests") {
                metrics.read_requests_per_hour = rate;
            }
            i += 1;
        }
        metrics
    }
}

} // verus!
