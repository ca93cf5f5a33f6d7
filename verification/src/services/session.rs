//! One measurement session: three stages in strict order, the latency
//! samples of each, and the one result at the end. The session moves no data
//! and reads no clock: its caller probes and transfers, and tells the
//! session what happened.

use crate::fixed::{mean, Fixed};
use crate::models::{EnhancedTestResult, TestResult};
use crate::services::aim_scoring::AIMCalculator;
use crate::services::binary_protocol::{BinaryMessage, TestStage};
use crate::services::loaded_latency::{LoadedLatencyTester, ProbeError};
use crate::services::real_measurement::{jitter, jitter_of};
use vstd::prelude::*;

verus! {

/// How many idle probes open a session.
pub const IDLE_SAMPLES: usize = 20;

/// Pause between two idle probes, in milliseconds.
pub const IDLE_DELAY_MS: u64 = 100;

/// Time between two probes while a transfer runs, in milliseconds.
pub const PROBE_INTERVAL_MS: u64 = 500;

/// Longest time that one probe may take, in milliseconds.
pub const PROBE_TIMEOUT_MS: u64 = 5000;

/// Whether a probe is due while a transfer runs: the time between two probes
/// has passed since the last one.
pub fn probe_due(since_last_ms: u64) -> (due: bool)
    ensures
        due == (since_last_ms >= PROBE_INTERVAL_MS),
{
    since_last_ms >= PROBE_INTERVAL_MS
}

/// Where a session stands. The first three stages follow one another in this
/// order and end in `Finalized`; a session that was aborted stays aborted.
#[derive(Debug, Clone, Copy, PartialEq, Eq, Structural)]
pub enum SessionStage {
    Idle,
    DownloadLoaded,
    UploadLoaded,
    Finalized,
    Aborted,
}

/// Why a session gives no result.
#[derive(Debug, Clone, Copy, PartialEq, Eq, Structural)]
pub enum SessionError {
    /// A probe of the idle stage failed: the baseline cannot be trusted.
    IdleProbe(ProbeError),
    /// A send or a receive failed in the middle of the given stage.
    Transfer(SessionStage),
    /// The session had ended before.
    Closed,
}

/// What can happen to a session.
pub enum SessionOp {
    Probe(Result<Fixed, ProbeError>),
    BeginDownload,
    BeginUpload,
    Finalize,
    TransferFailed,
    Cancel,
    Progress,
}

/// The stage that follows `stage` when `op` happens.
pub open spec fn stage_after(stage: SessionStage, op: SessionOp) -> SessionStage {
    match stage {
        SessionStage::Finalized => SessionStage::Finalized,
        SessionStage::Aborted => SessionStage::Aborted,
        SessionStage::Idle => match op {
            SessionOp::Probe(Err(_)) => SessionStage::Aborted,
            SessionOp::BeginDownload => SessionStage::DownloadLoaded,
            SessionOp::TransferFailed => SessionStage::Aborted,
            SessionOp::Cancel => SessionStage::Aborted,
            _ => SessionStage::Idle,
        },
        SessionStage::DownloadLoaded => match op {
            SessionOp::BeginUpload => SessionStage::UploadLoaded,
            SessionOp::TransferFailed => SessionStage::Aborted,
            SessionOp::Cancel => SessionStage::Aborted,
            _ => SessionStage::DownloadLoaded,
        },
        SessionStage::UploadLoaded => match op {
            SessionOp::Finalize => SessionStage::Finalized,
            SessionOp::TransferFailed => SessionStage::Aborted,
            SessionOp::Cancel => SessionStage::Aborted,
            _ => SessionStage::UploadLoaded,
        },
    }
}

/// The stage that a session reaches from `stage` when `ops` happen in order.
pub open spec fn stage_after_all(stage: SessionStage, ops: Seq<SessionOp>) -> SessionStage
    decreases ops.len(),
{
    if ops.len() == 0 {
        stage
    } else {
        stage_after(stage_after_all(stage, ops.drop_last()), ops.last())
    }
}

/// Position of a stage in the order of a session.
pub open spec fn stage_rank(stage: SessionStage) -> int {
    match stage {
        SessionStage::Idle => 0,
        SessionStage::DownloadLoaded => 1,
        SessionStage::UploadLoaded => 2,
        SessionStage::Finalized => 3,
        SessionStage::Aborted => 4,
    }
}

/// The percentage that a report shows when `asked` is asked for after `last`
/// was shown: `asked`, but at most 100 and never less than `last`.
pub open spec fn shown_percent(last: int, asked: int) -> int {
    let capped = if asked > 100 {
        100
    } else {
        asked
    };
    if capped < last {
        last
    } else {
        capped
    }
}

/// Stages are passed in order: no step goes back, no step on the way to the
/// result skips a stage, and the result comes only after the upload stage.
pub proof fn lemma_stages_in_order(stage: SessionStage, op: SessionOp)
    ensures
        stage_rank(stage_after(stage, op)) >= stage_rank(stage),
        stage_after(stage, op) != SessionStage::Aborted ==> stage_rank(stage_after(stage, op))
            <= stage_rank(stage) + 1,
        stage_after(stage, op) == SessionStage::Finalized ==> stage == SessionStage::UploadLoaded
            || stage == SessionStage::Finalized,
{
}

/// A session that was torn down or that failed gives no result, whatever
/// happens to it afterwards.
pub proof fn lemma_aborted_never_finalizes(ops: Seq<SessionOp>)
    ensures
        stage_after_all(SessionStage::Aborted, ops) == SessionStage::Aborted,
    decreases ops.len(),
{
    if ops.len() > 0 {
        lemma_aborted_never_finalizes(ops.drop_last());
    }
}

/// A session that is torn down before its result was made gives none,
/// whatever happened before and whatever happens afterwards.
pub proof fn lemma_cancelled_never_finalizes(
    stage: SessionStage,
    before: Seq<SessionOp>,
    after: Seq<SessionOp>,
)
    requires
        stage_after_all(stage, before) != SessionStage::Finalized,
    ensures
        stage_after_all(stage, before.push(SessionOp::Cancel) + after) == SessionStage::Aborted,
    decreases after.len(),
{
    let cancelled = before.push(SessionOp::Cancel);
    if after.len() == 0 {
        assert(cancelled + after =~= cancelled);
        assert(cancelled.drop_last() =~= before);
    } else {
        lemma_cancelled_never_finalizes(stage, before, after.drop_last());
        assert((cancelled + after).drop_last() =~= cancelled + after.drop_last());
    }
}

/// A finished session went through every stage: from the idle stage the
/// result is reached only by a sequence that holds the start of the
/// download, the start of the upload and the finalization.
pub proof fn lemma_finalized_passed_all_stages(ops: Seq<SessionOp>)
    requires
        stage_after_all(SessionStage::Idle, ops) == SessionStage::Finalized,
    ensures
        exists|i: int, j: int, k: int|
            0 <= i < j < k < ops.len() && ops[i] is BeginDownload && ops[j] is BeginUpload
                && ops[k] is Finalize,
{
    lemma_reached(ops);
}

/// What a sequence of happenings must hold for a session to reach each
/// stage from the idle stage.
proof fn lemma_reached(ops: Seq<SessionOp>)
    ensures
        stage_after_all(SessionStage::Idle, ops) == SessionStage::DownloadLoaded ==> exists|
            i: int,
        |
            0 <= i < ops.len() && ops[i] is BeginDownload,
        stage_after_all(SessionStage::Idle, ops) == SessionStage::UploadLoaded ==> exists|
            i: int,
            j: int,
        |
            0 <= i < j < ops.len() && ops[i] is BeginDownload && ops[j] is BeginUpload,
        stage_after_all(SessionStage::Idle, ops) == SessionStage::Finalized ==> exists|
            i: int,
            j: int,
            k: int,
        |
            0 <= i < j < k < ops.len() && ops[i] is BeginDownload && ops[j] is BeginUpload
                && ops[k] is Finalize,
    decreases ops.len(),
{
    if ops.len() > 0 {
        let rest = ops.drop_last();
        let last: int = ops.len() - 1;
        lemma_reached(rest);
        let before = stage_after_all(SessionStage::Idle, rest);
        let now = stage_after_all(SessionStage::Idle, ops);
        if now == SessionStage::DownloadLoaded {
            if before == SessionStage::DownloadLoaded {
                let i: int = choose|i: int| 0 <= i < rest.len() && rest[i] is BeginDownload;
                assert(ops[i] is BeginDownload);
            } else {
                assert(ops[last] is BeginDownload);
            }
        } else if now == SessionStage::UploadLoaded {
            if before == SessionStage::UploadLoaded {
                let (i, j): (int, int) = choose|i: int, j: int|
                    0 <= i < j < rest.len() && rest[i] is BeginDownload && rest[j] is BeginUpload;
                assert(ops[i] is BeginDownload && ops[j] is BeginUpload);
            } else {
                let i: int = choose|i: int| 0 <= i < rest.len() && rest[i] is BeginDownload;
                assert(ops[i] is BeginDownload && ops[last] is BeginUpload);
            }
        } else if now == SessionStage::Finalized {
            if before == SessionStage::Finalized {
                let (i, j, k): (int, int, int) = choose|i: int, j: int, k: int|
                    0 <= i < j < k < rest.len() && rest[i] is BeginDownload && rest[j] is BeginUpload
                        && rest[k] is Finalize;
                assert(ops[i] is BeginDownload && ops[j] is BeginUpload && ops[k] is Finalize);
            } else {
                let (i, j): (int, int) = choose|i: int, j: int|
                    0 <= i < j < rest.len() && rest[i] is BeginDownload && rest[j] is BeginUpload;
                assert(ops[i] is BeginDownload && ops[j] is BeginUpload && ops[last] is Finalize);
            }
        }
    }
}

/// One measurement session.
pub struct Session {
    stage: SessionStage,
    tester: LoadedLatencyTester,
    result: TestResult,
    percent: u8,
}

impl Session {
    pub closed spec fn stage(&self) -> SessionStage {
        self.stage
    }

    /// The idle samples taken so far.
    pub closed spec fn idle_samples(&self) -> Seq<Fixed> {
        self.tester.idle_samples()
    }

    /// The samples taken during download so far.
    pub closed spec fn download_samples(&self) -> Seq<Fixed> {
        self.tester.download_samples()
    }

    /// The samples taken during upload so far.
    pub closed spec fn upload_samples(&self) -> Seq<Fixed> {
        self.tester.upload_samples()
    }

    /// The basic result as filled in so far.
    pub closed spec fn result(&self) -> TestResult {
        self.result
    }

    /// The percentage that the last progress report showed.
    pub closed spec fn percent(&self) -> u8 {
        self.percent
    }

    /// No sample is held.
    pub open spec fn holds_nothing(&self) -> bool {
        &&& self.idle_samples() == Seq::<Fixed>::empty()
        &&& self.download_samples() == Seq::<Fixed>::empty()
        &&& self.upload_samples() == Seq::<Fixed>::empty()
    }

    /// The samples are those of `other`.
    pub open spec fn same_samples(&self, other: &Session) -> bool {
        &&& self.idle_samples() == other.idle_samples()
        &&& self.download_samples() == other.download_samples()
        &&& self.upload_samples() == other.upload_samples()
    }

    /// A session at its idle stage that has measured nothing.
    pub fn new(server_id: String, client_ip: String, test_id: &str) -> (s: Session)
        ensures
            s.stage() == SessionStage::Idle,
            s.holds_nothing(),
            s.percent() == 0,
            s.result().id@ == test_id@,
            s.result().is_blank(server_id, client_ip),
    {
        let mut result = TestResult::new(server_id, client_ip);
        result.id = String::from_str(test_id);
        Session {
            stage: SessionStage::Idle,
            tester: LoadedLatencyTester::new(),
            result,
            percent: 0,
        }
    }

    /// The stage of the session.
    pub fn current_stage(&self) -> (stage: SessionStage)
        ensures
            stage == self.stage(),
    {
        self.stage
    }

    /// Whether the session takes idle probes still: it is at its idle stage
    /// and holds fewer than `wanted` idle samples.
    pub fn wants_idle_probe(&self, wanted: usize) -> (r: bool)
        ensures
            r == (self.stage() == SessionStage::Idle && self.idle_samples().len() < wanted),
    {
        match self.stage {
            SessionStage::Idle => self.tester.idle_count() < wanted,
            _ => false,
        }
    }

    /// Takes in the outcome of one probe. A latency joins the samples of the
    /// stage and is handed back. A failure at the idle stage aborts the
    /// session and discards its samples; a failure at a loaded stage changes
    /// nothing and the stage goes on. A session that has ended takes no
    /// probe.
    pub fn record_probe(&mut self, probe: Result<Fixed, ProbeError>) -> (r: Result<
        Option<Fixed>,
        SessionError,
    >)
        ensures
            final(self).stage() == stage_after(old(self).stage(), SessionOp::Probe(probe)),
            final(self).result() == old(self).result(),
            final(self).percent() == old(self).percent(),
            match old(self).stage() {
                SessionStage::Idle => match probe {
                    Ok(latency) => {
                        &&& r == Ok::<Option<Fixed>, SessionError>(Some(latency))
                        &&& final(self).idle_samples() == old(self).idle_samples().push(latency)
                        &&& final(self).download_samples() == old(self).download_samples()
                        &&& final(self).upload_samples() == old(self).upload_samples()
                    },
                    Err(e) => {
                        &&& r == Err::<Option<Fixed>, SessionError>(SessionError::IdleProbe(e))
                        &&& final(self).holds_nothing()
                    },
                },
                SessionStage::DownloadLoaded => match probe {
                    Ok(latency) => {
                        &&& r == Ok::<Option<Fixed>, SessionError>(Some(latency))
                        &&& final(self).idle_samples() == old(self).idle_samples()
                        &&& final(self).download_samples() == old(self).download_samples().push(
                            latency,
                        )
                        &&& final(self).upload_samples() == old(self).upload_samples()
                    },
                    Err(_) => {
                        &&& r == Ok::<Option<Fixed>, SessionError>(None)
                        &&& final(self).same_samples(old(self))
                    },
                },
                SessionStage::UploadLoaded => match probe {
                    Ok(latency) => {
                        &&& r == Ok::<Option<Fixed>, SessionError>(Some(latency))
                        &&& final(self).idle_samples() == old(self).idle_samples()
                        &&& final(self).download_samples() == old(self).download_samples()
                        &&& final(self).upload_samples() == old(self).upload_samples().push(
                            latency,
                        )
                    },
                    Err(_) => {
                        &&& r == Ok::<Option<Fixed>, SessionError>(None)
                        &&& final(self).same_samples(old(self))
                    },
                },
                _ => {
                    &&& r == Err::<Option<Fixed>, SessionError>(SessionError::Closed)
                    &&& final(self).same_samples(old(self))
                },
            },
    {
        match self.stage {
            SessionStage::Idle => match self.tester.measure_idle_latency(probe) {
                Ok(()) => match probe {
                    Ok(latency) => Ok(Some(latency)),
                    Err(e) => Err(SessionError::IdleProbe(e)),
                },
                Err(e) => {
                    self.stage = SessionStage::Aborted;
                    self.tester = LoadedLatencyTester::new();
                    Err(SessionError::IdleProbe(e))
                },
            },
            SessionStage::DownloadLoaded => match self.tester.measure_download_loaded_latency(
                probe,
            ) {
                Ok(latency) => Ok(Some(latency)),
                Err(_) => Ok(None),
            },
            SessionStage::UploadLoaded => match self.tester.measure_upload_loaded_latency(probe) {
                Ok(latency) => Ok(Some(latency)),
                Err(_) => Ok(None),
            },
            _ => Err(SessionError::Closed),
        }
    }

    /// Ends the idle stage and begins the download: says whether the session
    /// was at its idle stage, and changes nothing where it was not.
    pub fn begin_download(&mut self) -> (moved: bool)
        ensures
            final(self).stage() == stage_after(old(self).stage(), SessionOp::BeginDownload),
            moved == (old(self).stage() == SessionStage::Idle),
            final(self).same_samples(old(self)),
            final(self).result() == old(self).result(),
            final(self).percent() == old(self).percent(),
    {
        match self.stage {
            SessionStage::Idle => {
                self.stage = SessionStage::DownloadLoaded;
                true
            },
            _ => false,
        }
    }

    /// Ends the download with the speed it reached and begins the upload:
    /// says whether the session was at its download stage, and changes
    /// nothing where it was not.
    pub fn begin_upload(&mut self, download_mbps: Fixed) -> (moved: bool)
        ensures
            final(self).stage() == stage_after(old(self).stage(), SessionOp::BeginUpload),
            moved == (old(self).stage() == SessionStage::DownloadLoaded),
            final(self).same_samples(old(self)),
            final(self).percent() == old(self).percent(),
            moved ==> final(self).result() == (TestResult { download_mbps, ..old(self).result() }),
            !moved ==> final(self).result() == old(self).result(),
    {
        match self.stage {
            SessionStage::DownloadLoaded => {
                self.result.download_mbps = download_mbps;
                self.stage = SessionStage::UploadLoaded;
                true
            },
            _ => false,
        }
    }

    /// Ends the upload with the speed it reached and makes the result of the
    /// session: the basic result, the latency statistics and the scores.
    /// There is a result exactly when the session was at its upload stage;
    /// a session that was aborted, that has not passed every stage, or that
    /// gave its result before gives none and is left as it was.
    pub fn finalize(&mut self, upload_mbps: Fixed, test_duration_ms: u64) -> (r: Option<
        EnhancedTestResult,
    >)
        ensures
            final(self).stage() == stage_after(old(self).stage(), SessionOp::Finalize),
            r is Some <==> old(self).stage() == SessionStage::UploadLoaded,
            final(self).same_samples(old(self)),
            final(self).percent() == old(self).percent(),
            r is None ==> final(self).result() == old(self).result(),
            match r {
                Some(e) => {
                    &&& e.basic == final(self).result()
                    &&& e.basic == (TestResult {
                        upload_mbps,
                        test_duration_ms,
                        latency_ms: e.basic.latency_ms,
                        jitter_ms: e.basic.jitter_ms,
                        ..old(self).result()
                    })
                    &&& e.basic.latency_ms@ == mean(old(self).idle_samples())
                    &&& e.basic.jitter_ms@ == jitter_of(old(self).idle_samples())
                    &&& e.loaded_latency is Some
                    &&& e.loaded_latency->Some_0.is_result_of(
                        old(self).idle_samples(),
                        old(self).download_samples(),
                        old(self).upload_samples(),
                    )
                    &&& e.aim_scores is Some
                    &&& e.aim_scores->Some_0.is_scores_of(e.basic, e.loaded_latency->Some_0)
                    &&& e.ai_insights is None
                },
                None => true,
            },
    {
        match self.stage {
            SessionStage::UploadLoaded => {
                let loaded_latency = self.tester.calculate_results();
                self.result.upload_mbps = upload_mbps;
                self.result.test_duration_ms = test_duration_ms;
                self.result.latency_ms = loaded_latency.idle_avg_ms;
                self.result.jitter_ms = jitter(loaded_latency.idle_samples.as_slice());
                self.stage = SessionStage::Finalized;
                let aim_scores = AIMCalculator::calculate_all_scores(&self.result, &loaded_latency);
                Some(
                    EnhancedTestResult {
                        basic: self.result.duplicate(),
                        loaded_latency: Some(loaded_latency),
                        aim_scores: Some(aim_scores),
                        ai_insights: None,
                    },
                )
            },
            _ => None,
        }
    }

    /// A send or a receive failed: a session under way is aborted and its
    /// samples are discarded. Hands back the error to surface, which names
    /// the stage that failed, if the session was under way.
    pub fn transfer_failed(&mut self) -> (r: Option<SessionError>)
        ensures
            final(self).stage() == stage_after(old(self).stage(), SessionOp::TransferFailed),
            final(self).result() == old(self).result(),
            final(self).percent() == old(self).percent(),
            final(self).stage() == SessionStage::Aborted ==> final(self).holds_nothing(),
            final(self).stage() != SessionStage::Aborted ==> final(self).same_samples(old(self)),
            r == if old(self).stage() == SessionStage::Finalized || old(self).stage()
                == SessionStage::Aborted {
                None::<SessionError>
            } else {
                Some(SessionError::Transfer(old(self).stage()))
            },
    {
        match self.stage {
            SessionStage::Finalized => None,
            SessionStage::Aborted => {
                self.tester = LoadedLatencyTester::new();
                None
            },
            stage => {
                self.stage = SessionStage::Aborted;
                self.tester = LoadedLatencyTester::new();
                Some(SessionError::Transfer(stage))
            },
        }
    }

    /// The owner tears the session down: a session under way is aborted and
    /// its samples are discarded. A session that gave its result keeps it.
    pub fn cancel(&mut self)
        ensures
            final(self).stage() == stage_after(old(self).stage(), SessionOp::Cancel),
            final(self).result() == old(self).result(),
            final(self).percent() == old(self).percent(),
            final(self).stage() == SessionStage::Aborted ==> final(self).holds_nothing(),
            final(self).stage() != SessionStage::Aborted ==> final(self).same_samples(old(self)),
    {
        match self.stage {
            SessionStage::Finalized => {},
            _ => {
                self.stage = SessionStage::Aborted;
                self.tester = LoadedLatencyTester::new();
            },
        }
    }

    /// A progress report that names `stage` and shows `percent`, or the last
    /// percentage shown where that was higher, and at most 100. An aborted
    /// session reports nothing.
    pub fn report_progress(&mut self, stage: TestStage, percent: u8) -> (r: Option<BinaryMessage>)
        ensures
            final(self).stage() == stage_after(old(self).stage(), SessionOp::Progress),
            final(self).same_samples(old(self)),
            final(self).result() == old(self).result(),
            r is Some <==> old(self).stage() != SessionStage::Aborted,
            r is None ==> final(self).percent() == old(self).percent(),
            old(self).percent() <= final(self).percent(),
            old(self).percent() <= 100 ==> final(self).percent() <= 100,
            match r {
                Some(message) => {
                    &&& final(self).percent() == shown_percent(
                        old(self).percent() as int,
                        percent as int,
                    )
                    &&& message == (BinaryMessage::Progress {
                        stage,
                        progress_pct: final(self).percent(),
                        current_speed_mbps: Fixed { micros: 0 },
                        current_latency_ms: Fixed { micros: 0 },
                    })
                },
                None => true,
            },
    {
        match self.stage {
            SessionStage::Aborted => {
                return None;
            },
            _ => {},
        }
        let capped: u8 = if percent > 100 {
            100
        } else {
            percent
        };
        let shown: u8 = if capped < self.percent {
            self.percent
        } else {
            capped
        };
        self.percent = shown;
        Some(
            BinaryMessage::Progress {
                stage,
                progress_pct: shown,
                current_speed_mbps: Fixed::zero(),
                current_latency_ms: Fixed::zero(),
            },
        )
    }
}

} // verus!
