//! The engine that simulates transfer: the same stages as the real engine,
//! with fewer pings and a report with every tenth measured chunk.

use crate::config::AppConfig;
use crate::fixed::Fixed;
use crate::models::TestProgress;
use crate::services::real_measurement::{
    jitter, jitter_of, plain_report, Cadence, Direction, EngineKind, PingStage, RunStage, TestRun,
    ThroughputStage,
};
use vstd::prelude::*;

verus! {

/// How long one direction of transfer lasts, in milliseconds.
pub const TEST_DURATION_MS: u64 = 5000;

/// Bytes in one chunk.
pub const CHUNK_SIZE: usize = 65536;

/// Time given to a ping to come back, in milliseconds.
pub const PING_SETTLE_MS: u64 = 1;

/// Pause between two chunks, in milliseconds.
pub const CHUNK_PACE_MS: u64 = 10;

pub struct MeasurementEngine {
    pub config: AppConfig,
}

impl MeasurementEngine {
    pub fn new(config: AppConfig) -> (e: MeasurementEngine)
        ensures
            e.config == config,
    {
        MeasurementEngine { config }
    }

    /// Begins a full test: the run at its first stage, with the report that
    /// opens it. The address of the client is not known to this engine.
    pub fn run_full_test(&self, test_id: &str) -> (r: (TestRun, TestProgress))
        ensures
            r.0.kind == EngineKind::Simulated,
            r.0.stage == RunStage::Latency,
            r.0.failed_in is None,
            r.0.result.id@ == test_id@,
            r.0.result.client_ip@ == "unknown"@,
            r.0.result.is_blank(self.config.server_id, r.0.result.client_ip),
            r.1@ == plain_report("latency"@, 0, "Measuring latency..."@),
    {
        TestRun::begin(
            EngineKind::Simulated,
            self.config.server_id.clone(),
            String::from_str("unknown"),
            test_id,
        )
    }

    /// Jitter of the samples in the order they were taken.
    pub fn calculate_jitter(&self, latencies: &[Fixed]) -> (r: Fixed)
        ensures
            r@ == jitter_of(latencies@),
    {
        jitter(latencies)
    }

    /// A latency stage that has taken no ping yet: ten pings, a report with
    /// every third, each report with the latency of its ping.
    pub fn begin_latency(&self) -> (stage: PingStage)
        ensures
            stage.count == 10,
            stage.report_every == 3,
            stage.attach_latency,
            stage.latencies@ == Seq::<Fixed>::empty(),
    {
        PingStage { count: 10, report_every: 3, attach_latency: true, latencies: Vec::new() }
    }

    /// A stage of the given direction that has transferred nothing yet; it
    /// reports with every tenth chunk that took measurable time.
    pub fn begin_transfer(&self, direction: Direction) -> (stage: ThroughputStage)
        ensures
            stage.kind == EngineKind::Simulated,
            stage.direction == direction,
            stage.cadence == Cadence::EveryMeasurements(10),
            stage.chunk_size == CHUNK_SIZE,
            stage.duration_ms == TEST_DURATION_MS,
            stage.total_bytes == 0,
            stage.chunk_count == 0,
            stage.measurements@ == Seq::<Fixed>::empty(),
            stage.last_update_ns == 0,
    {
        ThroughputStage {
            kind: EngineKind::Simulated,
            direction,
            chunk_size: CHUNK_SIZE as u64,
            duration_ms: TEST_DURATION_MS,
            cadence: Cadence::EveryMeasurements(10),
            total_bytes: 0,
            chunk_count: 0,
            measurements: Vec::new(),
            last_update_ns: 0,
        }
    }
}

} // verus!
