//! Remarks on the quality of an estimate, returned as data.

use vstd::prelude::*;

use crate::text::{decimal, decimal_text};

verus! {

/// How much weight a remark carries.
#[derive(Clone, Copy, Debug, PartialEq, Eq)]
pub enum Severity {
    /// The estimate is likely to be wrong.
    Error,
    /// The estimate may be off.
    Warning,
}

/// A remark that accompanies a normalised workload. None of them stops the
/// estimation.
#[derive(Clone, Copy, Debug, PartialEq, Eq)]
pub enum Advisory {
    /// The statement summary covers less than an hour.
    LessThanAnHour { minutes: u64 },
    /// The statement summary covers at least an hour and less than a day.
    LessThanADay { hours: u64 },
    /// The cluster keeps no statement summary, so that written bytes come
    /// from the system metrics and egress is not known.
    StatementSummaryDisabled,
    /// Where to read how statement summaries are switched on.
    StatementSummaryInstructions,
}

impl Advisory {
    /// A window of less than an hour is an error; every other remark is a warning.
    pub open spec fn spec_severity(self) -> Severity {
        match self {
            Advisory::LessThanAnHour { .. } => Severity::Error,
            _ => Severity::Warning,
        }
    }

    /// The remark in words, numbers in decimal.
    pub open spec fn message_text(self) -> Seq<char> {
        match self {
            Advisory::LessThanAnHour { minutes } => "The statement summary, covering only "@
                + decimal_text(minutes as nat)
                + " minute(s), is less than an hour's workload. It is highly recommended to collect at least a day's worth of data before running the estimation to prevent distortion."@,
            Advisory::LessThanADay { hours } => "The statement summary, covering only "@
                + decimal_text(hours as nat)
                + " hour(s), is less than a full day's workload and may not reflect the full business. Consider running the tool after collecting data for a longer period to ensure accuracy."@,
            Advisory::StatementSummaryDisabled => "The 'Statement Summary Tables' are disabled; when they are available, estimations can be more accurate."@,
            Advisory::StatementSummaryInstructions => "For detailed instruction, visit https://docs.pingcap.com/tidb/stable/statement-summary-tables#parameter-configuration"@,
        }
    }

    /// The remark as a sentence for the user.
    pub fn message(&self) -> (text: String)
        ensures
            text@ == self.message_text(),
    {
        match self {
            Advisory::LessThanAnHour { minutes } => {
                let mut text: String = "The statement summary, covering only ".to_owned();
                text.append(decimal(*minutes).as_str());
                text.append(
                    " minute(s), is less than an hour's workload. It is highly recommended to collect at least a day's worth of data before running the estimation to prevent distortion.",
                );
                text
            },
            Advisory::LessThanADay { hours } => {
                let mut text: String = "The statement summary, covering only ".to_owned();
                text.append(decimal(*hours).as_str());
                text.append(
                    " hour(s), is less than a full day's workload and may not reflect the full business. Consider running the tool after collecting data for a longer period to ensure accuracy.",
                );
                text
            },
            Advisory::StatementSummaryDisabled => "The 'Statement Summary Tables' are disabled; when they are available, estimations can be more accurate.".to_owned(),
            Advisory::StatementSummaryInstructions => "For detailed instruction, visit https://docs.pingcap.com/tidb/stable/statement-summary-tables#parameter-configuration".to_owned(),
        }
    }

    /// How much weight the remark carries.
    pub fn severity(&self) -> (severity: Severity)
        ensures
            severity == self.spec_severity(),
    {
        match self {
            Advisory::LessThanAnHour { .. } => Severity::Error,
            _ => Severity::Warning,
        }
    }
}

} // verus!
