//! What the store of results needs decided: where the database lies, and
//! how a result reads as a row. The store itself is kept by the boundary.

use crate::fixed::Fixed;
use crate::models::TestResult;
use crate::text::{strip_prefix, stripped, text_is};
use vstd::prelude::*;

verus! {

/// Where the database lies.
#[derive(Debug, Clone)]
pub enum DatabaseLocation {
    /// In memory only.
    Memory,
    /// In the file of the given path.
    File(String),
}

/// The path of a database address: the address without `sqlite://` or
/// `sqlite:` in front.
pub open spec fn path_of(address: Seq<char>) -> Seq<char> {
    match stripped(address, "sqlite://"@) {
        Some(rest) => rest,
        None => match stripped(address, "sqlite:"@) {
            Some(rest) => rest,
            None => address,
        },
    }
}

/// Where the database of the given address lies: in memory where the path of
/// the address is `:memory:`, in the file of that path otherwise.
pub fn locate(database_path: &str) -> (location: DatabaseLocation)
    ensures
        match location {
            DatabaseLocation::Memory => path_of(database_path@) == ":memory:"@,
            DatabaseLocation::File(path) => path@ == path_of(database_path@) && path@
                != ":memory:"@,
        },
{
    let path: &str = match strip_prefix(database_path, "sqlite://") {
        Some(rest) => rest,
        None => match strip_prefix(database_path, "sqlite:") {
            Some(rest) => rest,
            None => database_path,
        },
    };
    let owned = String::from_str(path);
    if text_is(&owned, ":memory:") {
        DatabaseLocation::Memory
    } else {
        DatabaseLocation::File(owned)
    }
}

/// The RFC 3339 text of the moment `millis` milliseconds after the start of
/// 1970, UTC; nothing where the calendar does not reach that far.
pub uninterp spec fn rfc3339_of(millis: int) -> Option<Seq<char>>;

/// The moment that the RFC 3339 text writes, in milliseconds after the start
/// of 1970, UTC; nothing where the text is not of that form.
pub uninterp spec fn millis_of(text: Seq<char>) -> Option<int>;

/// The RFC 3339 text of a moment. Calls
/// `chrono::DateTime::from_timestamp_millis` and, where that gives a moment,
/// its `to_rfc3339`. The result depends on `millis` alone and is named, not
/// spelled out.
#[verifier::external_body]
fn rfc3339(millis: i64) -> (r: Option<String>)
    ensures
        match r {
            Some(text) => rfc3339_of(millis as int) == Some(text@),
            None => rfc3339_of(millis as int) is None,
        },
{
    match chrono::DateTime::from_timestamp_millis(millis) {
        Some(moment) => Some(moment.to_rfc3339()),
        None => None,
    }
}

/// The moment that an RFC 3339 text writes. Calls
/// `chrono::DateTime::parse_from_rfc3339` and takes the `timestamp_millis`
/// of what it gives. The result depends on `text` alone and is named, not
/// spelled out.
#[verifier::external_body]
fn parse_rfc3339(text: &str) -> (r: Option<i64>)
    ensures
        match r {
            Some(millis) => millis_of(text@) == Some(millis as int),
            None => millis_of(text@) is None,
        },
{
    match chrono::DateTime::parse_from_rfc3339(text) {
        Ok(moment) => Some(moment.timestamp_millis()),
        Err(_) => None,
    }
}

/// A result as the store holds it.
#[derive(Debug, Clone)]
pub struct StoredResult {
    pub id: String,
    pub server_id: String,
    /// The moment of the test as RFC 3339 text.
    pub timestamp: String,
    pub download_mbps: Fixed,
    pub upload_mbps: Fixed,
    pub latency_ms: Fixed,
    pub jitter_ms: Fixed,
    pub protocol: String,
    pub client_ip: String,
    pub test_duration_ms: i64,
}

/// Why a row gives no result.
#[derive(Debug, Clone, Copy, PartialEq, Eq, Structural)]
pub enum DatabaseError {
    /// The moment of the test is not written as RFC 3339.
    Timestamp,
}

/// How many results a history holds at most.
pub const HISTORY_LIMIT: i32 = 20;

impl StoredResult {
    /// This row holds `result`, its moment written as `timestamp`.
    pub open spec fn holds(self, result: TestResult, timestamp: Seq<char>) -> bool {
        &&& self.id == result.id
        &&& self.server_id == result.server_id
        &&& self.timestamp@ == timestamp
        &&& self.download_mbps == result.download_mbps
        &&& self.upload_mbps == result.upload_mbps
        &&& self.latency_ms == result.latency_ms
        &&& self.jitter_ms == result.jitter_ms
        &&& self.protocol == result.protocol
        &&& self.client_ip == result.client_ip
        &&& self.test_duration_ms == result.test_duration_ms as i64
    }

    /// The row that holds `result`; none where the calendar does not reach
    /// the moment of the test.
    pub fn of(result: &TestResult) -> (row: Option<StoredResult>)
        ensures
            match row {
                Some(r) => rfc3339_of(result.timestamp as int) is Some && r.holds(
                    *result,
                    rfc3339_of(result.timestamp as int)->Some_0,
                ),
                None => rfc3339_of(result.timestamp as int) is None,
            },
    {
        match rfc3339(result.timestamp) {
            Some(timestamp) => Some(Self::with_timestamp(result, timestamp)),
            None => None,
        }
    }

    /// The row that holds `result` with its moment written as `timestamp`.
    pub fn with_timestamp(result: &TestResult, timestamp: String) -> (row: StoredResult)
        ensures
            row.holds(*result, timestamp@),
    {
        StoredResult {
            id: result.id.clone(),
            server_id: result.server_id.clone(),
            timestamp,
            download_mbps: result.download_mbps,
            upload_mbps: result.upload_mbps,
            latency_ms: result.latency_ms,
            jitter_ms: result.jitter_ms,
            protocol: result.protocol.clone(),
            client_ip: result.client_ip.clone(),
            #[verifier::truncate]
            test_duration_ms: result.test_duration_ms as i64,
        }
    }

    /// The result that the row holds; an error where its moment is not
    /// written as RFC 3339.
    pub fn restore(self) -> (r: Result<TestResult, DatabaseError>)
        ensures
            match r {
                Ok(result) => millis_of(self.timestamp@) == Some(result.timestamp as int)
                    && result == self.restored(result.timestamp),
                Err(e) => millis_of(self.timestamp@) is None && e == DatabaseError::Timestamp,
            },
    {
        match parse_rfc3339(self.timestamp.as_str()) {
            Some(millis) => Ok(self.restore_at(millis)),
            None => Err(DatabaseError::Timestamp),
        }
    }

    /// The result that the row holds, taken at the given moment.
    pub open spec fn restored(self, timestamp: i64) -> TestResult {
        TestResult {
            id: self.id,
            server_id: self.server_id,
            timestamp,
            download_mbps: self.download_mbps,
            upload_mbps: self.upload_mbps,
            latency_ms: self.latency_ms,
            jitter_ms: self.jitter_ms,
            protocol: self.protocol,
            client_ip: self.client_ip,
            test_duration_ms: self.test_duration_ms as u64,
        }
    }

    /// The result that the row holds, taken at the given moment.
    pub fn restore_at(self, timestamp: i64) -> (result: TestResult)
        ensures
            result == self.restored(timestamp),
    {
        TestResult {
            id: self.id,
            server_id: self.server_id,
            timestamp,
            download_mbps: self.download_mbps,
            upload_mbps: self.upload_mbps,
            latency_ms: self.latency_ms,
            jitter_ms: self.jitter_ms,
            protocol: self.protocol,
            client_ip: self.client_ip,
            #[verifier::truncate]
            test_duration_ms: self.test_duration_ms as u64,
        }
    }
}

} // verus!
