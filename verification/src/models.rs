//! The plain records that a session produces and that its boundary encodes.

use crate::fixed::Fixed;
use crate::services::ai_insights::AIInsights;
use crate::services::aim_scoring::AIMScores;
use crate::services::loaded_latency::LoadedLatencyResult;
use vstd::prelude::*;

verus! {

#[derive(Debug, Clone)]
pub struct ServerInfo {
    pub id: String,
    pub name: String,
    pub location: Location,
    pub available: bool,
    pub load: Fixed,
}

/// A place on the globe, in degrees.
#[derive(Debug, Clone, Copy, PartialEq, Eq, Structural)]
pub struct Location {
    pub lat: Fixed,
    pub lon: Fixed,
}

#[derive(Debug, Clone)]
pub struct TestConfig {
    pub duration_ms: u64,
    pub protocol: String,
}

/// The basic result of one session. `timestamp` counts milliseconds since
/// the start of 1970, UTC.
#[derive(Debug, Clone)]
pub struct TestResult {
    pub id: String,
    pub server_id: String,
    pub timestamp: i64,
    pub download_mbps: Fixed,
    pub upload_mbps: Fixed,
    pub latency_ms: Fixed,
    pub jitter_ms: Fixed,
    pub protocol: String,
    pub client_ip: String,
    pub test_duration_ms: u64,
}

/// The basic result of a session with what the advanced stages add to it.
#[derive(Debug, Clone)]
pub struct EnhancedTestResult {
    pub basic: TestResult,
    pub loaded_latency: Option<LoadedLatencyResult>,
    pub aim_scores: Option<AIMScores>,
    /// Filled in on request only.
    pub ai_insights: Option<AIInsights>,
}

/// One progress event of a session. `progress` runs from 0 to 1.
#[derive(Debug, Clone)]
pub struct TestProgress {
    pub stage: String,
    pub progress: Fixed,
    pub current_speed_mbps: Option<Fixed>,
    pub current_latency_ms: Option<Fixed>,
    pub message: String,
}

/// A [`TestProgress`] as mathematical values.
pub struct ProgressView {
    pub stage: Seq<char>,
    pub progress: int,
    pub speed: Option<Fixed>,
    pub latency: Option<Fixed>,
    pub message: Seq<char>,
}

impl View for TestProgress {
    type V = ProgressView;

    open spec fn view(&self) -> ProgressView {
        ProgressView {
            stage: self.stage@,
            progress: self.progress@,
            speed: self.current_speed_mbps,
            latency: self.current_latency_ms,
            message: self.message@,
        }
    }
}

#[derive(Debug, Clone)]
pub struct HealthStatus {
    pub status: String,
    pub version: String,
    pub uptime_seconds: u64,
    pub active_tests: usize,
}

#[derive(Debug, Clone)]
pub struct StartTestRequest {
    pub duration_ms: Option<u64>,
    pub protocol: Option<String>,
}

#[derive(Debug, Clone)]
pub struct StartTestResponse {
    pub test_id: String,
    pub server_id: String,
    pub websocket_url: String,
}

/// A fresh random identifier. Calls `uuid::Uuid::new_v4` and takes its
/// `to_string`: the hyphenated form, which is 36 characters long. Which
/// identifier comes back is left open. The call ends the program where the
/// system gives no random numbers.
#[verifier::external_body]
pub(crate) fn fresh_id() -> (id: String)
    ensures
        id@.len() == 36,
{
    uuid::Uuid::new_v4().to_string()
}

/// The present time in milliseconds since the start of 1970, UTC. Calls
/// `chrono::Utc::now` and takes its `timestamp_millis`; nothing is claimed
/// of the value. The call ends the program where the clock of the machine
/// reads a time before 1970.
#[verifier::external_body]
pub(crate) fn now_millis() -> i64 {
    chrono::Utc::now().timestamp_millis()
}

impl TestResult {
    /// This is the result of a session of the given server and client that
    /// has measured nothing yet.
    pub open spec fn is_blank(self, server_id: String, client_ip: String) -> bool {
        &&& self.server_id == server_id
        &&& self.client_ip == client_ip
        &&& self.download_mbps@ == 0
        &&& self.upload_mbps@ == 0
        &&& self.latency_ms@ == 0
        &&& self.jitter_ms@ == 0
        &&& self.protocol@ == "TCP"@
        &&& self.test_duration_ms == 0
    }

    /// The result of a session that has measured nothing yet: a fresh
    /// identifier of 36 characters, the present time, zero metrics.
    pub fn new(server_id: String, client_ip: String) -> (r: TestResult)
        ensures
            r.id@.len() == 36,
            r.is_blank(server_id, client_ip),
    {
        TestResult {
            id: fresh_id(),
            server_id,
            timestamp: now_millis(),
            download_mbps: Fixed::zero(),
            upload_mbps: Fixed::zero(),
            latency_ms: Fixed::zero(),
            jitter_ms: Fixed::zero(),
            protocol: String::from_str("TCP"),
            client_ip,
            test_duration_ms: 0,
        }
    }

    /// A copy of the result.
    pub fn duplicate(&self) -> (r: TestResult)
        ensures
            r == *self,
    {
        TestResult {
            id: self.id.clone(),
            server_id: self.server_id.clone(),
            timestamp: self.timestamp,
            download_mbps: self.download_mbps,
            upload_mbps: self.upload_mbps,
            latency_ms: self.latency_ms,
            jitter_ms: self.jitter_ms,
            protocol: self.protocol.clone(),
            client_ip: self.client_ip.clone(),
            test_duration_ms: self.test_duration_ms,
        }
    }
}

impl TestProgress {
    pub fn new(stage: &str, progress: Fixed, message: &str) -> (p: TestProgress)
        ensures
            p@ == (ProgressView {
                stage: stage@,
                progress: progress@,
                speed: None,
                latency: None,
                message: message@,
            }),
    {
        TestProgress {
            stage: String::from_str(stage),
            progress,
            current_speed_mbps: None,
            current_latency_ms: None,
            message: String::from_str(message),
        }
    }

    pub fn with_speed(self, speed: Fixed) -> (p: TestProgress)
        ensures
            p@ == (ProgressView { speed: Some(speed), ..self@ }),
    {
        let mut p = self;
        p.current_speed_mbps = Some(speed);
        p
    }

    pub fn with_latency(self, latency: Fixed) -> (p: TestProgress)
        ensures
            p@ == (ProgressView { latency: Some(latency), ..self@ }),
    {
        let mut p = self;
        p.current_latency_ms = Some(latency);
        p
    }
}

} // verus!
