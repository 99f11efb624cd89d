//! What kind of server a version string announces, and where its statistics
//! are read from.

use vstd::prelude::*;

use crate::pattern::{matches_pattern, pattern_compiles, pattern_found, PatternError};
use crate::text::same_text;

verus! {

/// Version strings of TiDB: three numbers, then `-TiDB-` in any case.
pub const TIDB_SIGNATURE: &'static str = "^\\d+\\.\\d+\\.\\d+-(?i)TiDB(?-i)-.*";

/// Version strings of TiDB Serverless: those of TiDB whose own version is
/// followed by `-serverless` in any case.
pub const TIDB_SERVERLESS_SIGNATURE: &'static str =
    "^\\d+\\.\\d+\\.\\d+-(?i)TiDB(?-i)-v\\d+\\.\\d+\\.\\d+-(?i)serverless(?-i).*";

/// Version strings of MariaDB: three numbers, then `-MariaDB-` in any case.
pub const MARIADB_SIGNATURE: &'static str = "^\\d+\\.\\d+\\.\\d+-(?i)MariaDB(?-i)-.*";

/// Where the statistics of a server come from, or why there are none.
#[derive(Clone, Copy, Debug, PartialEq, Eq)]
pub enum StatisticsSource {
    /// The server is TiDB Serverless already: there is nothing to estimate.
    AlreadyServerless,
    /// System metrics of a TiDB cluster, with its statement summary if it keeps one.
    TiDB,
    /// The statement summary of the performance schema.
    PerformanceSchema,
    /// A MariaDB server whose performance schema is switched off.
    MariaDBWithoutPerformanceSchema,
    /// A MySQL server whose performance schema is switched off.
    MySQLWithoutPerformanceSchema,
}

impl StatisticsSource {
    /// Why the statistics cannot be read, for the two sources that are no
    /// source: the advice to switch the performance schema on.
    pub open spec fn obstacle_text(self) -> Option<Seq<char>> {
        match self {
            StatisticsSource::MariaDBWithoutPerformanceSchema => Some(
                "Please enable the 'Performance Schema' on your MariaDB server and keep it active for at least a full business day to ensure comprehensive workload coverage. For instructions, see this guide: https://mariadb.com/kb/en/performance-schema-overview/#activating-the-performance-schema"@,
            ),
            StatisticsSource::MySQLWithoutPerformanceSchema => Some(
                "Please enable the 'Performance Schema' on your MySQL server and keep it active for at least a full business day to ensure comprehensive workload coverage. For instructions, see this guide: https://dev.mysql.com/doc/refman/5.7/en/performance-schema-startup-configuration.html"@,
            ),
            _ => None,
        }
    }

    /// What stands in the way of reading statistics from this source, in
    /// words for the user; nothing for a source that can be read and for a
    /// server that is serverless already.
    pub fn obstacle(&self) -> (text: Option<String>)
        ensures
            text is Some <==> self.obstacle_text() is Some,
            text matches Some(found) ==> found@ == self.obstacle_text()->0,
    {
        match self {
            StatisticsSource::MariaDBWithoutPerformanceSchema => Some(
                "Please enable the 'Performance Schema' on your MariaDB server and keep it active for at least a full business day to ensure comprehensive workload coverage. For instructions, see this guide: https://mariadb.com/kb/en/performance-schema-overview/#activating-the-performance-schema".to_owned(),
            ),
            StatisticsSource::MySQLWithoutPerformanceSchema => Some(
                "Please enable the 'Performance Schema' on your MySQL server and keep it active for at least a full business day to ensure comprehensive workload coverage. For instructions, see this guide: https://dev.mysql.com/doc/refman/5.7/en/performance-schema-startup-configuration.html".to_owned(),
            ),
            _ => None,
        }
    }
}

/// The source for a server of which it is known whether its version string
/// is one of TiDB, of TiDB Serverless and of MariaDB, and whether its
/// performance schema is on.
///
/// TiDB is asked first, and a TiDB server has no performance schema to ask
/// for; of the others, one with a performance schema is read through it
/// whatever it is called.
pub open spec fn source_for(
    tidb: bool,
    serverless: bool,
    performance_schema: bool,
    mariadb: bool,
) -> StatisticsSource {
    if tidb {
        if serverless {
            StatisticsSource::AlreadyServerless
        } else {
            StatisticsSource::TiDB
        }
    } else if performance_schema {
        StatisticsSource::PerformanceSchema
    } else if mariadb {
        StatisticsSource::MariaDBWithoutPerformanceSchema
    } else {
        StatisticsSource::MySQLWithoutPerformanceSchema
    }
}

/// The source for a server with the version string `version`.
pub open spec fn source_of(version: Seq<char>, performance_schema: bool) -> StatisticsSource {
    source_for(
        pattern_found(TIDB_SIGNATURE@, version),
        pattern_found(TIDB_SERVERLESS_SIGNATURE@, version),
        performance_schema,
        pattern_found(MARIADB_SIGNATURE@, version),
    )
}

/// Computes [`source_for`].
pub fn choose_source(tidb: bool, serverless: bool, performance_schema: bool, mariadb: bool) -> (source:
    StatisticsSource)
    ensures
        source == source_for(tidb, serverless, performance_schema, mariadb),
{
    if tidb {
        if serverless {
            StatisticsSource::AlreadyServerless
        } else {
            StatisticsSource::TiDB
        }
    } else if performance_schema {
        StatisticsSource::PerformanceSchema
    } else if mariadb {
        StatisticsSource::MariaDBWithoutPerformanceSchema
    } else {
        StatisticsSource::MySQLWithoutPerformanceSchema
    }
}

/// Whether the regular expression `pattern` matches the version string.
///
/// Fails exactly when the pattern cannot be compiled.
pub fn check_version_signature(version: &str, pattern: &str) -> (found: Result<bool, PatternError>)
    ensures
        found is Ok <==> pattern_compiles(pattern@),
        found matches Ok(answer) ==> answer == pattern_found(pattern@, version@),
{
    matches_pattern(pattern, version)
}

/// Whether `version` is the version string of a TiDB server.
///
/// Fails exactly when [`TIDB_SIGNATURE`] cannot be compiled.
pub fn is_tidb(version: &str) -> (found: Result<bool, PatternError>)
    ensures
        found is Ok <==> pattern_compiles(TIDB_SIGNATURE@),
        found matches Ok(answer) ==> answer == pattern_found(TIDB_SIGNATURE@, version@),
{
    check_version_signature(version, TIDB_SIGNATURE)
}

/// Whether `version` is the version string of TiDB Serverless.
///
/// Fails exactly when [`TIDB_SERVERLESS_SIGNATURE`] cannot be compiled.
pub fn is_tidb_serverless(version: &str) -> (found: Result<bool, PatternError>)
    ensures
        found is Ok <==> pattern_compiles(TIDB_SERVERLESS_SIGNATURE@),
        found matches Ok(answer) ==> answer == pattern_found(
            TIDB_SERVERLESS_SIGNATURE@,
            version@,
        ),
{
    check_version_signature(version, TIDB_SERVERLESS_SIGNATURE)
}

/// Whether `version` is the version string of a MariaDB server.
///
/// Fails exactly when [`MARIADB_SIGNATURE`] cannot be compiled.
pub fn is_mariadb(version: &str) -> (found: Result<bool, PatternError>)
    ensures
        found is Ok <==> pattern_compiles(MARIADB_SIGNATURE@),
        found matches Ok(answer) ==> answer == pattern_found(MARIADB_SIGNATURE@, version@),
{
    check_version_signature(version, MARIADB_SIGNATURE)
}

/// Whether the signatures that [`statistics_source`] asks for a server
/// compile: that of TiDB always, that of TiDB Serverless for a TiDB server,
/// and that of MariaDB for another server without a performance schema.
pub open spec fn signatures_compile(version: Seq<char>, performance_schema: bool) -> bool {
    &&& pattern_compiles(TIDB_SIGNATURE@)
    &&& pattern_found(TIDB_SIGNATURE@, version) ==> pattern_compiles(TIDB_SERVERLESS_SIGNATURE@)
    &&& !pattern_found(TIDB_SIGNATURE@, version) && !performance_schema ==> pattern_compiles(
        MARIADB_SIGNATURE@,
    )
}

/// Whether a variable of the server, as it was read, has the value
/// `expected`; a variable that the server does not know has none.
pub fn variable_has_value(found: Option<&str>, expected: &str) -> (answer: bool)
    ensures
        answer == (found matches Some(value) && value@ == expected@),
{
    match found {
        Some(value) => same_text(value, expected),
        None => false,
    }
}

/// Whether a server is asked for its performance schema: every server but
/// TiDB, which has none.
///
/// Fails exactly when [`TIDB_SIGNATURE`] cannot be compiled.
pub fn asks_performance_schema(version: &str) -> (asked: Result<bool, PatternError>)
    ensures
        asked is Ok <==> pattern_compiles(TIDB_SIGNATURE@),
        asked matches Ok(answer) ==> answer == !pattern_found(TIDB_SIGNATURE@, version@),
{
    match is_tidb(version) {
        Ok(tidb) => Ok(!tidb),
        Err(error) => Err(error),
    }
}

/// Decides where the statistics of a server are read from, by its version
/// string and by whether its performance schema is on.
///
/// Fails exactly when a signature that is asked cannot be compiled.
pub fn statistics_source(version: &str, performance_schema: bool) -> (source: Result<
    StatisticsSource,
    PatternError,
>)
    ensures
        source is Ok <==> signatures_compile(version@, performance_schema),
        source matches Ok(found) ==> found == source_of(version@, performance_schema),
{
    let tidb: bool = match is_tidb(version) {
        Ok(answer) => answer,
        Err(error) => {
            return Err(error);
        },
    };
    if tidb {
        let serverless: bool = match is_tidb_serverless(version) {
            Ok(answer) => answer,
            Err(error) => {
                return Err(error);
            },
        };
        Ok(choose_source(true, serverless, performance_schema, false))
    } else if performance_schema {
        Ok(choose_source(false, false, true, false))
    } else {
        let mariadb: bool = match is_mariadb(version) {
            Ok(answer) => answer,
            Err(error) => {
                return Err(error);
            },
        };
        Ok(choose_source(false, false, false, mariadb))
    }
}

} // verus!
