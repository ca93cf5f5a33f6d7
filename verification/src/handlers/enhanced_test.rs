//! The enhanced test: its start, and the steps of progress that it shows.

use crate::config::AppConfig;
use crate::handlers::test::{get_result, socket_url, status_of, websocket_url, Lookup, LookupReply};
use crate::models::{fresh_id, StartTestResponse};
use crate::services::binary_protocol::TestStage;
use vstd::prelude::*;

verus! {

#[derive(Debug, Clone, Copy, PartialEq, Eq, Structural)]
pub struct EnhancedTestRequest {
    pub include_ai_insights: Option<bool>,
    pub use_binary_protocol: Option<bool>,
    pub duration_ms: Option<u64>,
}

#[derive(Debug, Clone, Copy, PartialEq, Eq, Structural)]
pub struct EnhancedResultQuery {
    pub include_ai: Option<bool>,
}

/// How many latency probes a loaded stage takes.
pub const LOADED_PROBES: u8 = 10;

/// A point of an enhanced test at which progress is shown.
#[derive(Debug, Clone, Copy, PartialEq, Eq, Structural)]
pub enum Step {
    Initializing,
    IdleLatency,
    Download,
    /// After the probe of the given number during download, counted from
    /// zero.
    DownloadProbe(u8),
    Upload,
    /// After the probe of the given number during upload, counted from zero.
    UploadProbe(u8),
    Finalizing,
    Complete,
}

/// The percentage shown at a step.
pub open spec fn percent_at(step: Step) -> int {
    match step {
        Step::Initializing => 0,
        Step::IdleLatency => 10,
        Step::Download => 30,
        Step::DownloadProbe(i) => if i < 10 {
            30 + 3 * i
        } else {
            57
        },
        Step::Upload => 60,
        Step::UploadProbe(i) => if i < 10 {
            60 + 3 * i
        } else {
            87
        },
        Step::Finalizing => 90,
        Step::Complete => 100,
    }
}

/// The stage named at a step.
pub open spec fn stage_at(step: Step) -> TestStage {
    match step {
        Step::Initializing => TestStage::Initializing,
        Step::IdleLatency => TestStage::IdleLatency,
        Step::Download => TestStage::Download,
        Step::DownloadProbe(_) => TestStage::Download,
        Step::Upload => TestStage::Upload,
        Step::UploadProbe(_) => TestStage::Upload,
        Step::Finalizing => TestStage::Finalizing,
        Step::Complete => TestStage::Complete,
    }
}

/// Position of a step in the order of a test.
pub open spec fn step_rank(step: Step) -> int {
    match step {
        Step::Initializing => 0,
        Step::IdleLatency => 1,
        Step::Download => 2,
        Step::DownloadProbe(i) => 3 + i,
        Step::Upload => 300,
        Step::UploadProbe(i) => 301 + i,
        Step::Finalizing => 600,
        Step::Complete => 601,
    }
}

/// A later step never shows a lower percentage, and none shows more than a
/// hundred.
pub proof fn lemma_percent_ascends(earlier: Step, later: Step)
    requires
        step_rank(earlier) <= step_rank(later),
    ensures
        0 <= percent_at(earlier) <= percent_at(later) <= 100,
{
}

/// The step after the probe of the given number in the given direction;
/// probes beyond the last one count as the last.
pub fn probe_step(download: bool, number: u8) -> (step: Step)
    ensures
        step == if download {
            Step::DownloadProbe(if number < LOADED_PROBES { number } else { 9 })
        } else {
            Step::UploadProbe(if number < LOADED_PROBES { number } else { 9 })
        },
{
    let counted: u8 = if number < LOADED_PROBES {
        number
    } else {
        LOADED_PROBES - 1
    };
    if download {
        Step::DownloadProbe(counted)
    } else {
        Step::UploadProbe(counted)
    }
}

/// The percentage shown at a step.
pub fn step_percent(step: Step) -> (percent: u8)
    ensures
        percent == percent_at(step),
{
    match step {
        Step::Initializing => 0,
        Step::IdleLatency => 10,
        Step::Download => 30,
        Step::DownloadProbe(i) => if i < 10 {
            30 + 3 * i
        } else {
            57
        },
        Step::Upload => 60,
        Step::UploadProbe(i) => if i < 10 {
            60 + 3 * i
        } else {
            87
        },
        Step::Finalizing => 90,
        Step::Complete => 100,
    }
}

/// The stage named at a step.
pub fn step_stage(step: Step) -> (stage: TestStage)
    ensures
        stage == stage_at(step),
{
    match step {
        Step::Initializing => TestStage::Initializing,
        Step::IdleLatency => TestStage::IdleLatency,
        Step::Download => TestStage::Download,
        Step::DownloadProbe(_) => TestStage::Download,
        Step::Upload => TestStage::Upload,
        Step::UploadProbe(_) => TestStage::Upload,
        Step::Finalizing => TestStage::Finalizing,
        Step::Complete => TestStage::Complete,
    }
}

/// The response to the start of an enhanced test: a fresh identifier of 36
/// characters, and the address of the socket of the test.
pub fn start_enhanced_test(config: &AppConfig) -> (response: StartTestResponse)
    ensures
        response.test_id@.len() == 36,
        response.server_id == config.server_id,
        response.websocket_url@ == socket_url(*config, "/ws/enhanced/"@, response.test_id@),
{
    let test_id = fresh_id();
    let websocket_url = websocket_url(config, "/ws/enhanced/", test_id.as_str());
    StartTestResponse { test_id, server_id: config.server_id.clone(), websocket_url }
}

/// The reply to the lookup of one enhanced result.
pub fn get_enhanced_result(lookup: Lookup) -> (reply: LookupReply)
    ensures
        reply.status == status_of(lookup),
        lookup == Lookup::Found <==> reply.error is None,
{
    get_result(lookup)
}

} // verus!
