//! What holds of every normalisation.

use vstd::prelude::*;

use crate::source::{
    regions_per_statement, statement_bytes_per_hour, statements_per_hour, Normalization,
    RequestDescription, StorageDescription, WorkloadDescription,
};
use crate::statistics::{
    or_zero, window_minutes, MySQLStatementsSummary, TablesInformation, TiDBStatementsSummary,
    TiDBSystemMetrics,
};

verus! {

/// Tables of which every total is zero or absent.
pub open spec fn tables_are_empty(tables: TablesInformation) -> bool {
    &&& or_zero(tables.total_rows) == 0
    &&& or_zero(tables.total_data_in_bytes) == 0
    &&& or_zero(tables.total_index_in_bytes) == 0
}

/// Normalising the same statement statistics twice gives the same outcome:
/// both fail or both give the same workload and the same remarks.
pub proof fn lemma_mysql_is_repeatable(
    tables: TablesInformation,
    summary: MySQLStatementsSummary,
    first: Option<Normalization>,
    second: Option<Normalization>,
)
    requires
        WorkloadDescription::is_mysql_result(tables, summary, first),
        WorkloadDescription::is_mysql_result(tables, summary, second),
    ensures
        first is Some <==> second is Some,
        first is Some ==> first->0.workload == second->0.workload && first->0.advisories@
            == second->0.advisories@,
{
}

/// Normalising the same system metrics twice gives the same outcome: both
/// fail or both give the same workload and the same remarks.
pub proof fn lemma_tidb_is_repeatable(
    tables: TablesInformation,
    summary: Option<TiDBStatementsSummary>,
    metrics: TiDBSystemMetrics,
    first: Option<Normalization>,
    second: Option<Normalization>,
)
    requires
        WorkloadDescription::is_tidb_result(tables, summary, metrics, first),
        WorkloadDescription::is_tidb_result(tables, summary, metrics, second),
    ensures
        first is Some <==> second is Some,
        first is Some ==> first->0.workload == second->0.workload && first->0.advisories@
            == second->0.advisories@,
{
}

/// Statement statistics that are all zero or absent, over any window, even an
/// empty or a reversed one, are normalised without failure: to no bytes, one
/// read and one write request per hour, and no storage.
pub proof fn lemma_mysql_without_statistics(
    tables: TablesInformation,
    summary: MySQLStatementsSummary,
)
    requires
        tables_are_empty(tables),
        summary.read_queries == 0,
        summary.read_rows == 0,
        summary.sent_rows == 0,
        summary.write_queries == 0,
        summary.write_rows == 0,
    ensures
        WorkloadDescription::mysql_fits(tables, summary),
        WorkloadDescription::from_mysql(tables, summary) == (WorkloadDescription {
            read: RequestDescription { requests_per_hour: Some(1), bytes_per_hour: 0 },
            write: RequestDescription { requests_per_hour: Some(1), bytes_per_hour: 0 },
            egress: RequestDescription { requests_per_hour: None, bytes_per_hour: 0 },
            storage: StorageDescription { data_in_bytes: 0, index_in_bytes: 0 },
        }),
{
    let minutes = window_minutes(summary.start_time, summary.end_time);
    assert(tables.total_storage_in_bytes() == 1);
    assert(tables.average_row_size_in_bytes() == 1);
    assert(tables.estimated_number_of_regions() == 0);
    assert(statement_bytes_per_hour(tables, 0, minutes) == 0);
    assert(statements_per_hour(0, minutes) == 1);
    assert(regions_per_statement(tables, 0, 1) == 1);
}

/// System metrics and statement statistics that are all zero or absent are
/// normalised without failure, with or without a statement summary: to a
/// workload of no requests, no bytes and no storage.
pub proof fn lemma_tidb_without_statistics(
    tables: TablesInformation,
    summary: Option<TiDBStatementsSummary>,
    metrics: TiDBSystemMetrics,
)
    requires
        tables_are_empty(tables),
        summary matches Some(statements) ==> statements.write_bytes == 0 && statements.sent_rows
            == 0,
        metrics.read_requests_per_hour == 0,
        metrics.read_bytes_per_hour == 0,
        metrics.write_requests_per_hour == 0,
        metrics.write_bytes_per_hour == 0,
    ensures
        WorkloadDescription::tidb_fits(tables, summary),
        WorkloadDescription::from_tidb(tables, summary, metrics) == (WorkloadDescription {
            read: RequestDescription { requests_per_hour: Some(0), bytes_per_hour: 0 },
            write: RequestDescription { requests_per_hour: Some(0), bytes_per_hour: 0 },
            egress: RequestDescription { requests_per_hour: None, bytes_per_hour: 0 },
            storage: StorageDescription { data_in_bytes: 0, index_in_bytes: 0 },
        }),
{
    assert(tables.total_storage_in_bytes() == 1);
    assert(tables.average_row_size_in_bytes() == 1);
}

} // verus!
