//! The throughput engine: bulk transfer in fixed-size chunks for a fixed
//! time, with the speed of each chunk, progress at a bounded cadence, and the
//! average speed of the stage. The engine reads no clock and moves no data:
//! its caller transfers a chunk, reads the clock, and hands in what it saw.

use crate::config::AppConfig;
use crate::fixed::{clamp, mean, mean_of, Fixed};
use crate::models::{now_millis, ProgressView, TestProgress, TestResult};
use crate::text::{decimal, fixed_text, format_fixed, u64_text};
use vstd::prelude::*;

verus! {

/// Nanoseconds in a millisecond.
pub const NANOS_PER_MILLI: u64 = 1_000_000;

/// Time given to a ping to come back, in milliseconds.
pub const PING_SETTLE_MS: u64 = 5;

/// Pause between two pings, in milliseconds.
pub const PING_GAP_MS: u64 = 50;

/// Pause between two chunks of an upload, in milliseconds.
pub const UPLOAD_PACE_MS: u64 = 10;

/// The distances between each sample and the one before it.
pub open spec fn differences(s: Seq<Fixed>) -> Seq<Fixed>
    recommends
        s.len() >= 1,
{
    Seq::new(
        (s.len() - 1) as nat,
        |i: int|
            Fixed {
                micros: clamp(
                    if s[i + 1]@ >= s[i]@ {
                        s[i + 1]@ - s[i]@
                    } else {
                        s[i]@ - s[i + 1]@
                    },
                ) as i64,
            },
    )
}

/// Jitter: the mean distance between successive samples; zero where there
/// are fewer than two.
pub open spec fn jitter_of(s: Seq<Fixed>) -> int {
    if s.len() < 2 {
        0
    } else {
        mean(differences(s))
    }
}

/// The speed at which `bytes` bytes pass in `ns` nanoseconds, in millionths
/// of a megabit per second; zero where no time passed.
pub open spec fn mbps_of(bytes: int, ns: int) -> int {
    if ns > 0 {
        clamp(bytes * 8_000_000_000 / ns)
    } else {
        0
    }
}

/// The sum of two counts, held at the largest count.
pub open spec fn capped(a: int, b: int) -> int {
    if a + b > u64::MAX as int {
        u64::MAX as int
    } else {
        a + b
    }
}

/// Which engine drives a run: the one that transfers real data, or the one
/// that simulates it and reports in more detail.
#[derive(Debug, Clone, Copy, PartialEq, Eq, Structural)]
pub enum EngineKind {
    Real,
    Simulated,
}

#[derive(Debug, Clone, Copy, PartialEq, Eq, Structural)]
pub enum Direction {
    Download,
    Upload,
}

impl Direction {
    pub open spec fn stage_name(self) -> Seq<char> {
        match self {
            Direction::Download => "download"@,
            Direction::Upload => "upload"@,
        }
    }

    /// Progress of the session when the stage begins, in millionths.
    pub open spec fn base(self) -> int {
        match self {
            Direction::Download => 200_000,
            Direction::Upload => 600_000,
        }
    }

    /// Share of the session's progress that the stage covers, in millionths.
    pub open spec fn span(self) -> int {
        match self {
            Direction::Download => 400_000,
            Direction::Upload => 300_000,
        }
    }

    pub open spec fn verb(self) -> Seq<char> {
        match self {
            Direction::Download => "Downloading... "@,
            Direction::Upload => "Uploading... "@,
        }
    }
}

/// When a stage reports progress.
#[derive(Debug, Clone, Copy, PartialEq, Eq, Structural)]
pub enum Cadence {
    /// After every so many chunks.
    EveryChunks(u64),
    /// After every so many chunks that took measurable time.
    EveryMeasurements(u64),
    /// Once more than so many whole milliseconds passed since the last
    /// report.
    EveryMillis(u64),
}

/// Progress of the session after `elapsed_ns` of a stage that lasts
/// `duration_ns`: it runs over the stage's share and stays within it.
pub open spec fn progress_at(direction: Direction, elapsed_ns: int, duration_ns: int) -> int {
    if duration_ns <= 0 || elapsed_ns >= duration_ns {
        direction.base() + direction.span()
    } else {
        direction.base() + (elapsed_ns * direction.span()) / duration_ns
    }
}

/// The speed that a throughput report shows: the mean of the speeds recorded
/// so far with the real engine, the speed of the last chunk with the
/// simulated one.
pub open spec fn reported_speed(kind: EngineKind, measurements: Seq<Fixed>) -> int {
    match kind {
        EngineKind::Real => mean(measurements),
        EngineKind::Simulated => measurements.last()@,
    }
}

/// The message of a throughput report.
pub open spec fn speed_message(kind: EngineKind, direction: Direction, speed: int) -> Seq<char> {
    match kind {
        EngineKind::Real => direction.verb() + fixed_text(speed, 2) + " Mbps"@,
        EngineKind::Simulated => match direction {
            Direction::Download => "Downloading..."@,
            Direction::Upload => "Uploading..."@,
        },
    }
}

/// One direction of transfer in progress.
pub struct ThroughputStage {
    pub kind: EngineKind,
    pub direction: Direction,
    pub chunk_size: u64,
    /// How long the stage lasts, in milliseconds.
    pub duration_ms: u64,
    pub cadence: Cadence,
    pub total_bytes: u64,
    pub chunk_count: u64,
    /// The speed of each chunk that took measurable time, in order.
    pub measurements: Vec<Fixed>,
    pub last_update_ns: u64,
}

impl ThroughputStage {
    /// Whether a report is due after a chunk that ended `elapsed_ns` into the
    /// stage, the stage then counting `chunks` chunks.
    pub open spec fn report_due(self, chunks: int, elapsed_ns: int) -> bool {
        match self.cadence {
            Cadence::EveryChunks(n) => n > 0 && chunks % (n as int) == 0,
            Cadence::EveryMeasurements(n) => n > 0 && (self.measurements@.len() as int + 1) % (n
                as int) == 0,
            Cadence::EveryMillis(ms) => elapsed_ns >= self.last_update_ns && (elapsed_ns
                - self.last_update_ns) / 1_000_000 > ms,
        }
    }

    /// The stage goes on exactly while less time has passed than it lasts.
    pub fn should_continue(&self, elapsed_ns: u64) -> (r: bool)
        ensures
            r == (elapsed_ns < self.duration_ms * 1_000_000),
    {
        (elapsed_ns as u128) < (self.duration_ms as u128) * 1_000_000
    }

    /// Takes in one transferred chunk, which took `chunk_ns` and ended
    /// `elapsed_ns` into the stage. The chunk is counted; where it took
    /// measurable time its speed is recorded, and where a report is then due
    /// the report is handed back: the session's progress and the speed to
    /// show.
    pub fn record_chunk(&mut self, chunk_ns: u64, elapsed_ns: u64) -> (report: Option<
        TestProgress,
    >)
        ensures
            final(self).kind == old(self).kind,
            final(self).direction == old(self).direction,
            final(self).chunk_size == old(self).chunk_size,
            final(self).duration_ms == old(self).duration_ms,
            final(self).cadence == old(self).cadence,
            final(self).total_bytes == capped(
                old(self).total_bytes as int,
                old(self).chunk_size as int,
            ),
            final(self).chunk_count == capped(old(self).chunk_count as int, 1),
            chunk_ns == 0 ==> final(self).measurements@ == old(self).measurements@,
            chunk_ns > 0 ==> final(self).measurements@.len() == old(self).measurements@.len() + 1
                && final(self).measurements@.drop_last() == old(self).measurements@
                && final(self).measurements@.last()@ == mbps_of(
                old(self).chunk_size as int,
                chunk_ns as int,
            ),
            report is Some <==> chunk_ns > 0 && old(self).report_due(
                final(self).chunk_count as int,
                elapsed_ns as int,
            ),
            report is Some ==> final(self).last_update_ns == elapsed_ns,
            report is None ==> final(self).last_update_ns == old(self).last_update_ns,
            match report {
                Some(p) => p@ == (ProgressView {
                    stage: old(self).direction.stage_name(),
                    progress: progress_at(
                        old(self).direction,
                        elapsed_ns as int,
                        old(self).duration_ms * 1_000_000,
                    ),
                    speed: Some(
                        Fixed {
                            micros: reported_speed(
                                old(self).kind,
                                final(self).measurements@,
                            ) as i64,
                        },
                    ),
                    latency: None,
                    message: speed_message(
                        old(self).kind,
                        old(self).direction,
                        reported_speed(old(self).kind, final(self).measurements@),
                    ),
                }),
                None => true,
            },
    {
        self.total_bytes = add_capped(self.total_bytes, self.chunk_size);
        self.chunk_count = add_capped(self.chunk_count, 1);
        if chunk_ns == 0 {
            return None;
        }
        let speed = speed_mbps(self.chunk_size, chunk_ns);
        self.measurements.push(speed);
        assert(self.measurements@.drop_last() =~= old(self).measurements@);
        let due = match self.cadence {
            Cadence::EveryChunks(n) => n > 0 && self.chunk_count % n == 0,
            Cadence::EveryMeasurements(n) => n > 0 && (self.measurements.len() as u64) % n == 0,
            Cadence::EveryMillis(ms) => elapsed_ns >= self.last_update_ns && (elapsed_ns
                - self.last_update_ns) / NANOS_PER_MILLI > ms,
        };
        if !due {
            return None;
        }
        self.last_update_ns = elapsed_ns;
        let progress = stage_progress(self.direction, elapsed_ns, self.duration_ms);
        let stage = match self.direction {
            Direction::Download => "download",
            Direction::Upload => "upload",
        };
        match self.kind {
            EngineKind::Real => {
                let average = mean_of(self.measurements.as_slice());
                let mut message = String::from_str(
                    match self.direction {
                        Direction::Download => "Downloading... ",
                        Direction::Upload => "Uploading... ",
                    },
                );
                message.append(format_fixed(average, 2).as_str());
                message.append(" Mbps");
                Some(TestProgress::new(stage, progress, message.as_str()).with_speed(average))
            },
            EngineKind::Simulated => {
                let message = match self.direction {
                    Direction::Download => "Downloading...",
                    Direction::Upload => "Uploading...",
                };
                Some(TestProgress::new(stage, progress, message).with_speed(speed))
            },
        }
    }

    /// The mean of the speeds of the chunks; zero where none was recorded.
    /// This is telemetry: the speed of the stage is `average_speed`.
    pub fn mean_chunk_speed(&self) -> (speed: Fixed)
        ensures
            speed@ == mean(self.measurements@),
    {
        mean_of(self.measurements.as_slice())
    }

    /// The speed of the stage: all bytes transferred over all time passed.
    pub fn average_speed(&self, elapsed_ns: u64) -> (speed: Fixed)
        ensures
            speed@ == mbps_of(self.total_bytes as int, elapsed_ns as int),
    {
        speed_mbps(self.total_bytes, elapsed_ns)
    }
}

/// The sum of two counts, held at the largest count.
fn add_capped(a: u64, b: u64) -> (r: u64)
    ensures
        r == capped(a as int, b as int),
{
    if a > u64::MAX - b {
        u64::MAX
    } else {
        a + b
    }
}

/// The speed at which `bytes` bytes pass in `ns` nanoseconds.
pub fn speed_mbps(bytes: u64, ns: u64) -> (speed: Fixed)
    ensures
        speed@ == mbps_of(bytes as int, ns as int),
{
    if ns == 0 {
        return Fixed::zero();
    }
    let bits: u128 = (bytes as u128) * 8_000_000_000;
    let q: u128 = bits / (ns as u128);
    if q > 0x7fff_ffff_ffff_ffff {
        Fixed { micros: i64::MAX }
    } else {
        Fixed { micros: q as i64 }
    }
}

/// Progress of the session after `elapsed_ns` of a stage that lasts
/// `duration_ms` milliseconds.
pub fn stage_progress(direction: Direction, elapsed_ns: u64, duration_ms: u64) -> (p: Fixed)
    ensures
        p@ == progress_at(direction, elapsed_ns as int, duration_ms * 1_000_000),
        direction.base() <= p@ <= direction.base() + direction.span(),
{
    let base: u64 = match direction {
        Direction::Download => 200_000,
        Direction::Upload => 600_000,
    };
    let span: u64 = match direction {
        Direction::Download => 400_000,
        Direction::Upload => 300_000,
    };
    let duration_ns: u128 = (duration_ms as u128) * 1_000_000;
    if duration_ns == 0 || elapsed_ns as u128 >= duration_ns {
        Fixed { micros: (base + span) as i64 }
    } else {
        let scaled: u128 = (elapsed_ns as u128) * (span as u128);
        let part: u128 = scaled / duration_ns;
        assert(part <= span) by (nonlinear_arith)
            requires
                part == scaled / duration_ns,
                scaled == elapsed_ns * span,
                elapsed_ns < duration_ns,
                span >= 0,
        ;
        Fixed { micros: (base + part as u64) as i64 }
    }
}

/// Jitter of the samples in the order they were taken.
pub fn jitter(latencies: &[Fixed]) -> (r: Fixed)
    ensures
        r@ == jitter_of(latencies@),
{
    let n: usize = latencies.len();
    if n < 2 {
        return Fixed::zero();
    }
    let mut diffs: Vec<Fixed> = Vec::new();
    let mut i: usize = 1;
    while i < n
        invariant
            n == latencies.len(),
            1 <= i <= n,
            diffs@ == differences(latencies@).take(i - 1),
        decreases n - i,
    {
        let d = latencies[i].abs_diff(latencies[i - 1]);
        diffs.push(d);
        assert(d == differences(latencies@)[i - 1]);
        assert(diffs@ =~= differences(latencies@).take(i as int));
        i = i + 1;
    }
    assert(differences(latencies@).take(n - 1) =~= differences(latencies@));
    mean_of(diffs.as_slice())
}

/// Progress of the session after `taken` of `count` pings.
pub open spec fn ping_progress(taken: int, count: int) -> int {
    if count > 0 && taken < count {
        50_000 + (taken * 150_000) / count
    } else {
        200_000
    }
}

/// Later pings never show less progress, and all stay within the share of
/// the latency stage.
pub proof fn lemma_ping_progress_monotone(earlier: int, later: int, count: int)
    requires
        0 <= earlier <= later,
    ensures
        50_000 <= ping_progress(earlier, count) <= ping_progress(later, count) <= 200_000,
{
    if count > 0 && later < count {
        assert((earlier * 150_000) / count <= (later * 150_000) / count) by (nonlinear_arith)
            requires
                0 <= earlier <= later,
                count > 0,
        ;
        assert(0 <= (earlier * 150_000) / count) by (nonlinear_arith)
            requires
                0 <= earlier,
                count > 0,
        ;
        assert((later * 150_000) / count <= 150_000) by (nonlinear_arith)
            requires
                0 <= later < count,
        ;
    } else if count > 0 && earlier < count {
        assert(0 <= (earlier * 150_000) / count <= 150_000) by (nonlinear_arith)
            requires
                0 <= earlier < count,
        ;
    }
}

/// The message of a ping report.
pub open spec fn ping_message(number: int, count: int) -> Seq<char> {
    "Ping "@ + decimal(number as nat) + "/"@ + decimal(count as nat)
}

/// The payload of the ping with the given number.
pub fn ping_payload(number: u64) -> (payload: String)
    ensures
        payload@ == "PING:"@ + decimal(number as nat),
{
    let mut payload = String::from_str("PING:");
    payload.append(u64_text(number).as_str());
    payload
}

/// The latency stage of a run in progress.
pub struct PingStage {
    /// How many pings the stage takes.
    pub count: usize,
    /// A report follows every so many pings, the first one included.
    pub report_every: usize,
    /// Whether a report carries the latency of its ping.
    pub attach_latency: bool,
    /// The round-trip times taken so far, in order.
    pub latencies: Vec<Fixed>,
}

impl PingStage {
    /// The stage is complete once it holds as many pings as it takes.
    pub fn is_complete(&self) -> (r: bool)
        ensures
            r == (self.latencies@.len() >= self.count),
    {
        self.latencies.len() >= self.count
    }

    /// Takes in the round-trip time of one ping. Where the number of pings
    /// taken before it is a multiple of `report_every`, a report is handed
    /// back.
    pub fn record_ping(&mut self, rtt: Fixed) -> (report: Option<TestProgress>)
        ensures
            final(self).count == old(self).count,
            final(self).report_every == old(self).report_every,
            final(self).attach_latency == old(self).attach_latency,
            final(self).latencies@ == old(self).latencies@.push(rtt),
            report is Some <==> old(self).report_every > 0 && (old(self).latencies@.len() as int)
                % (old(self).report_every as int) == 0,
            match report {
                Some(p) => p@ == (ProgressView {
                    stage: "latency"@,
                    progress: ping_progress(
                        old(self).latencies@.len() as int,
                        old(self).count as int,
                    ),
                    speed: None,
                    latency: if old(self).attach_latency {
                        Some(rtt)
                    } else {
                        None
                    },
                    message: ping_message(
                        old(self).latencies@.len() as int + 1,
                        old(self).count as int,
                    ),
                }),
                None => true,
            },
    {
        let taken: usize = self.latencies.len();
        self.latencies.push(rtt);
        if self.report_every == 0 || taken % self.report_every != 0 {
            return None;
        }
        let progress: Fixed = if self.count > 0 && taken < self.count {
            let scaled: u128 = (taken as u128) * 150_000;
            let part: u128 = scaled / (self.count as u128);
            assert(part <= 150_000) by (nonlinear_arith)
                requires
                    part == scaled / (self.count as u128),
                    scaled == taken * 150_000,
                    taken < self.count,
            ;
            Fixed { micros: (50_000 + part) as i64 }
        } else {
            Fixed { micros: 200_000 }
        };
        let mut message = String::from_str("Ping ");
        message.append(u64_text(self.latencies.len() as u64).as_str());
        message.append("/");
        message.append(u64_text(self.count as u64).as_str());
        let report = TestProgress::new("latency", progress, message.as_str());
        if self.attach_latency {
            Some(report.with_latency(rtt))
        } else {
            Some(report)
        }
    }

    /// The mean and the jitter of the round-trip times taken.
    pub fn finish(&self) -> (r: (Fixed, Fixed))
        ensures
            r.0@ == mean(self.latencies@),
            r.1@ == jitter_of(self.latencies@),
    {
        (mean_of(self.latencies.as_slice()), jitter(self.latencies.as_slice()))
    }
}

/// Where a run stands. The stages follow one another in this order; a run
/// that failed stays failed.
#[derive(Debug, Clone, Copy, PartialEq, Eq, Structural)]
pub enum RunStage {
    Latency,
    Download,
    Upload,
    Complete,
    Failed,
}

/// What the caller saw happen.
#[derive(Debug, Clone, Copy, PartialEq, Eq, Structural)]
pub enum RunEvent {
    LatencyMeasured { latency: Fixed, jitter: Fixed },
    DownloadMeasured { mbps: Fixed },
    UploadMeasured { mbps: Fixed, duration_ms: u64 },
    /// A send or a receive failed.
    TransferFailed,
}

/// Whether `event` is the one that `stage` waits for.
pub open spec fn event_fits(stage: RunStage, event: RunEvent) -> bool {
    match (stage, event) {
        (RunStage::Latency, RunEvent::LatencyMeasured { .. }) => true,
        (RunStage::Download, RunEvent::DownloadMeasured { .. }) => true,
        (RunStage::Upload, RunEvent::UploadMeasured { .. }) => true,
        _ => false,
    }
}

/// The stage that follows `stage` on `event`: the next one where the event
/// is the one awaited; failure where a transfer failed before the end; the
/// same stage otherwise.
pub open spec fn stage_after(stage: RunStage, event: RunEvent) -> RunStage {
    match (stage, event) {
        (RunStage::Latency, RunEvent::LatencyMeasured { .. }) => RunStage::Download,
        (RunStage::Download, RunEvent::DownloadMeasured { .. }) => RunStage::Upload,
        (RunStage::Upload, RunEvent::UploadMeasured { .. }) => RunStage::Complete,
        (RunStage::Latency, RunEvent::TransferFailed) => RunStage::Failed,
        (RunStage::Download, RunEvent::TransferFailed) => RunStage::Failed,
        (RunStage::Upload, RunEvent::TransferFailed) => RunStage::Failed,
        _ => stage,
    }
}

/// The stage in which a run is known to have failed after `event`: the stage
/// that a failed transfer ended, or what was known before.
pub open spec fn failure_after(stage: RunStage, known: Option<RunStage>, event: RunEvent) -> Option<
    RunStage,
> {
    if stage_after(stage, event) == RunStage::Failed && stage != RunStage::Failed {
        Some(stage)
    } else {
        known
    }
}

/// A report without speed or latency.
pub open spec fn plain_report(stage: Seq<char>, progress: int, message: Seq<char>) -> ProgressView {
    ProgressView { stage, progress, speed: None, latency: None, message }
}

/// The reports that follow `event` in `stage`, in the order they are sent:
/// the end of the stage, then the start of the next.
pub open spec fn reports_after(kind: EngineKind, stage: RunStage, event: RunEvent) -> Seq<
    ProgressView,
> {
    match (stage, event) {
        (RunStage::Latency, RunEvent::LatencyMeasured { latency, jitter }) => seq![
            ProgressView {
                latency: if kind == EngineKind::Simulated {
                    Some(latency)
                } else {
                    None
                },
                ..plain_report("latency"@, 200_000, "Latency measured"@)
            },
            plain_report("download"@, 200_000, "Testing download speed..."@),
        ],
        (RunStage::Download, RunEvent::DownloadMeasured { mbps }) => seq![
            if kind == EngineKind::Simulated {
                ProgressView {
                    speed: Some(mbps),
                    ..plain_report("download"@, 600_000, "Download speed measured"@)
                }
            } else {
                plain_report("download"@, 600_000, "Download complete"@)
            },
            plain_report("upload"@, 600_000, "Testing upload speed..."@),
        ],
        (RunStage::Upload, RunEvent::UploadMeasured { mbps, duration_ms }) => seq![
            if kind == EngineKind::Simulated {
                ProgressView {
                    speed: Some(mbps),
                    ..plain_report("upload"@, 900_000, "Upload speed measured"@)
                }
            } else {
                plain_report("upload"@, 900_000, "Upload complete"@)
            },
            plain_report(
                "complete"@,
                1_000_000,
                if kind == EngineKind::Simulated {
                    "Test completed successfully!"@
                } else {
                    "Test completed!"@
                },
            ),
        ],
        _ => Seq::<ProgressView>::empty(),
    }
}

/// The progress at which `stage` begins, in millionths.
pub open spec fn stage_floor(stage: RunStage) -> int {
    match stage {
        RunStage::Latency => 0,
        RunStage::Download => 200_000,
        RunStage::Upload => 600_000,
        RunStage::Complete => 1_000_000,
        RunStage::Failed => 0,
    }
}

/// Position of a stage in the order of a run.
pub open spec fn stage_rank(stage: RunStage) -> int {
    match stage {
        RunStage::Latency => 0,
        RunStage::Download => 1,
        RunStage::Upload => 2,
        RunStage::Complete => 3,
        RunStage::Failed => 4,
    }
}

/// A run never goes back to an earlier stage, never skips one on its way to
/// completion, and completes only from the upload stage.
pub proof fn lemma_stages_in_order(stage: RunStage, event: RunEvent)
    ensures
        stage_rank(stage_after(stage, event)) >= stage_rank(stage),
        stage_after(stage, event) != RunStage::Failed ==> stage_rank(stage_after(stage, event))
            <= stage_rank(stage) + 1,
        stage_after(stage, event) == RunStage::Complete ==> stage == RunStage::Upload || stage
            == RunStage::Complete,
        stage == RunStage::Failed ==> stage_after(stage, event) == RunStage::Failed,
        stage == RunStage::Complete ==> stage_after(stage, event) == RunStage::Complete,
{
}

/// The reports of a run never go down: each report after an event is at or
/// above the floor of the stage that the event ended, and at the floor of
/// the stage that follows.
pub proof fn lemma_reports_ascend(kind: EngineKind, stage: RunStage, event: RunEvent)
    ensures
        forall|i: int|
            0 <= i < reports_after(kind, stage, event).len() ==> stage_floor(stage)
                <= #[trigger] reports_after(kind, stage, event)[i].progress <= stage_floor(
                stage_after(stage, event),
            ),
        forall|i: int, j: int|
            0 <= i <= j < reports_after(kind, stage, event).len() ==> reports_after(
                kind,
                stage,
                event,
            )[i].progress <= reports_after(kind, stage, event)[j].progress,
{
}

/// Within a stage, later reports never show less progress, and all stay
/// within the stage's share.
pub proof fn lemma_progress_monotone(direction: Direction, earlier: int, later: int, duration: int)
    requires
        0 <= earlier <= later,
    ensures
        direction.base() <= progress_at(direction, earlier, duration) <= progress_at(
            direction,
            later,
            duration,
        ) <= direction.base() + direction.span(),
{
    if duration > 0 && later < duration {
        let span: int = direction.span();
        assert((earlier * span) / duration <= (later * span) / duration) by (nonlinear_arith)
            requires
                0 <= earlier <= later,
                duration > 0,
                span > 0,
        ;
        assert(0 <= (earlier * span) / duration) by (nonlinear_arith)
            requires
                0 <= earlier,
                duration > 0,
                span > 0,
        ;
        assert((later * span) / duration <= span) by (nonlinear_arith)
            requires
                0 <= later < duration,
                span > 0,
        ;
    } else if duration > 0 && earlier < duration {
        let span: int = direction.span();
        assert(0 <= (earlier * span) / duration <= span) by (nonlinear_arith)
            requires
                0 <= earlier < duration,
                span > 0,
        ;
    }
}

/// One run of a test: its stage and the result filled in so far.
pub struct TestRun {
    pub kind: EngineKind,
    pub stage: RunStage,
    /// The stage in which the run failed, if it did.
    pub failed_in: Option<RunStage>,
    pub result: TestResult,
}

impl TestRun {
    /// A run at its first stage, with the report that opens it. The result
    /// carries the given identifier and no measurement yet.
    pub fn begin(kind: EngineKind, server_id: String, client_ip: String, test_id: &str) -> (r: (
        TestRun,
        TestProgress,
    ))
        ensures
            r.0.kind == kind,
            r.0.stage == RunStage::Latency,
            r.0.failed_in is None,
            r.0.result.id@ == test_id@,
            r.0.result.is_blank(server_id, client_ip),
            r.1@ == plain_report("latency"@, 0, "Measuring latency..."@),
    {
        let mut result = TestResult::new(server_id, client_ip);
        result.id = String::from_str(test_id);
        let run = TestRun { kind, stage: RunStage::Latency, failed_in: None, result };
        (run, TestProgress::new("latency", Fixed::zero(), "Measuring latency..."))
    }

    /// Takes in what the caller saw and hands back the reports to send, in
    /// order. The event that the stage waits for fills in its part of the
    /// result and moves the run on; a failed transfer fails the run; any
    /// other event changes nothing.
    pub fn advance(&mut self, event: RunEvent) -> (reports: Vec<TestProgress>)
        ensures
            final(self).kind == old(self).kind,
            final(self).stage == stage_after(old(self).stage, event),
            final(self).failed_in == failure_after(old(self).stage, old(self).failed_in, event),
            reports@.len() == reports_after(old(self).kind, old(self).stage, event).len(),
            forall|i: int|
                0 <= i < reports@.len() ==> (#[trigger] reports@[i])@ == reports_after(
                    old(self).kind,
                    old(self).stage,
                    event,
                )[i],
            final(self).result.id == old(self).result.id,
            final(self).result.server_id == old(self).result.server_id,
            final(self).result.client_ip == old(self).result.client_ip,
            final(self).result.protocol == old(self).result.protocol,
            !event_fits(old(self).stage, event) ==> final(self).result == old(self).result,
            event_fits(old(self).stage, event) ==> match event {
                RunEvent::LatencyMeasured { latency, jitter } => {
                    &&& final(self).result.latency_ms == latency
                    &&& final(self).result.jitter_ms == jitter
                    &&& final(self).result.download_mbps == old(self).result.download_mbps
                    &&& final(self).result.upload_mbps == old(self).result.upload_mbps
                    &&& final(self).result.test_duration_ms == old(self).result.test_duration_ms
                    &&& final(self).result.timestamp == old(self).result.timestamp
                },
                RunEvent::DownloadMeasured { mbps } => {
                    &&& final(self).result.download_mbps == mbps
                    &&& final(self).result.latency_ms == old(self).result.latency_ms
                    &&& final(self).result.jitter_ms == old(self).result.jitter_ms
                    &&& final(self).result.upload_mbps == old(self).result.upload_mbps
                    &&& final(self).result.test_duration_ms == old(self).result.test_duration_ms
                    &&& final(self).result.timestamp == old(self).result.timestamp
                },
                RunEvent::UploadMeasured { mbps, duration_ms } => {
                    &&& final(self).result.upload_mbps == mbps
                    &&& final(self).result.test_duration_ms == duration_ms
                    &&& final(self).result.latency_ms == old(self).result.latency_ms
                    &&& final(self).result.jitter_ms == old(self).result.jitter_ms
                    &&& final(self).result.download_mbps == old(self).result.download_mbps
                },
                RunEvent::TransferFailed => true,
            },
    {
        let mut reports: Vec<TestProgress> = Vec::new();
        let detailed = match self.kind {
            EngineKind::Simulated => true,
            EngineKind::Real => false,
        };
        match (self.stage, event) {
            (RunStage::Latency, RunEvent::LatencyMeasured { latency, jitter }) => {
                self.result.latency_ms = latency;
                self.result.jitter_ms = jitter;
                self.stage = RunStage::Download;
                let done = TestProgress::new(
                    "latency",
                    Fixed::from_micros(200_000),
                    "Latency measured",
                );
                reports.push(
                    if detailed {
                        done.with_latency(latency)
                    } else {
                        done
                    },
                );
                reports.push(
                    TestProgress::new(
                        "download",
                        Fixed::from_micros(200_000),
                        "Testing download speed...",
                    ),
                );
            },
            (RunStage::Download, RunEvent::DownloadMeasured { mbps }) => {
                self.result.download_mbps = mbps;
                self.stage = RunStage::Upload;
                reports.push(
                    if detailed {
                        TestProgress::new(
                            "download",
                            Fixed::from_micros(600_000),
                            "Download speed measured",
                        ).with_speed(mbps)
                    } else {
                        TestProgress::new(
                            "download",
                            Fixed::from_micros(600_000),
                            "Download complete",
                        )
                    },
                );
                reports.push(
                    TestProgress::new(
                        "upload",
                        Fixed::from_micros(600_000),
                        "Testing upload speed...",
                    ),
                );
            },
            (RunStage::Upload, RunEvent::UploadMeasured { mbps, duration_ms }) => {
                self.result.upload_mbps = mbps;
                self.result.test_duration_ms = duration_ms;
                self.result.timestamp = now_millis();
                self.stage = RunStage::Complete;
                reports.push(
                    if detailed {
                        TestProgress::new(
                            "upload",
                            Fixed::from_micros(900_000),
                            "Upload speed measured",
                        ).with_speed(mbps)
                    } else {
                        TestProgress::new(
                            "upload",
                            Fixed::from_micros(900_000),
                            "Upload complete",
                        )
                    },
                );
                reports.push(
                    TestProgress::new(
                        "complete",
                        Fixed::from_micros(1_000_000),
                        if detailed {
                            "Test completed successfully!"
                        } else {
                            "Test completed!"
                        },
                    ),
                );
            },
            (RunStage::Latency, RunEvent::TransferFailed) => {
                self.failed_in = Some(RunStage::Latency);
                self.stage = RunStage::Failed;
            },
            (RunStage::Download, RunEvent::TransferFailed) => {
                self.failed_in = Some(RunStage::Download);
                self.stage = RunStage::Failed;
            },
            (RunStage::Upload, RunEvent::TransferFailed) => {
                self.failed_in = Some(RunStage::Upload);
                self.stage = RunStage::Failed;
            },
            _ => {},
        }
        reports
    }

    /// The finished result: there is one exactly when the run is complete.
    pub fn finished(&self) -> (r: Option<&TestResult>)
        ensures
            r is Some <==> self.stage == RunStage::Complete,
            r is Some ==> *r->Some_0 == self.result,
    {
        match self.stage {
            RunStage::Complete => Some(&self.result),
            _ => None,
        }
    }
}

/// One random byte. Calls `rand::thread_rng` and `Rng::gen::<u8>` on what it
/// returns; nothing is claimed of the byte. The call ends the program where
/// the system gives no random numbers to seed the generator.
#[verifier::external_body]
fn random_byte() -> u8 {
    rand::Rng::gen::<u8>(&mut rand::thread_rng())
}

/// A payload of `len` random bytes.
pub fn random_chunk(len: usize) -> (chunk: Vec<u8>)
    ensures
        chunk@.len() == len,
{
    let mut chunk: Vec<u8> = Vec::new();
    let mut i: usize = 0;
    while i < len
        invariant
            0 <= i <= len,
            chunk@.len() == i,
        decreases len - i,
    {
        chunk.push(random_byte());
        i = i + 1;
    }
    chunk
}

/// The engine that measures with real transfer.
pub struct RealMeasurementEngine {
    pub config: AppConfig,
    pub chunk_size: usize,
    pub test_duration_ms: u64,
}

impl RealMeasurementEngine {
    /// An engine that transfers chunks of 64 KiB for ten seconds in all.
    pub fn new(config: AppConfig) -> (e: RealMeasurementEngine)
        ensures
            e.config == config,
            e.chunk_size == 65536,
            e.test_duration_ms == 10000,
    {
        RealMeasurementEngine { config, chunk_size: 65536, test_duration_ms: 10000 }
    }

    /// Jitter of the samples in the order they were taken.
    pub fn calculate_jitter(&self, latencies: &[Fixed]) -> (r: Fixed)
        ensures
            r@ == jitter_of(latencies@),
    {
        jitter(latencies)
    }

    /// Begins a full test for the client of the given address: the run at
    /// its first stage, with the report that opens it.
    pub fn run_full_test(&self, test_id: &str, client_ip: String) -> (r: (TestRun, TestProgress))
        ensures
            r.0.kind == EngineKind::Real,
            r.0.stage == RunStage::Latency,
            r.0.failed_in is None,
            r.0.result.id@ == test_id@,
            r.0.result.is_blank(self.config.server_id, client_ip),
            r.1@ == plain_report("latency"@, 0, "Measuring latency..."@),
    {
        TestRun::begin(EngineKind::Real, self.config.server_id.clone(), client_ip, test_id)
    }

    /// The payload of one chunk: `chunk_size` random bytes.
    pub fn test_chunk(&self) -> (chunk: Vec<u8>)
        ensures
            chunk@.len() == self.chunk_size,
    {
        random_chunk(self.chunk_size)
    }

    /// A latency stage that has taken no ping yet: twenty pings, a report
    /// with every fifth.
    pub fn begin_latency(&self) -> (stage: PingStage)
        ensures
            stage.count == 20,
            stage.report_every == 5,
            !stage.attach_latency,
            stage.latencies@ == Seq::<Fixed>::empty(),
    {
        PingStage { count: 20, report_every: 5, attach_latency: false, latencies: Vec::new() }
    }

    /// A download stage that has transferred nothing yet; it reports after
    /// every fifty chunks.
    pub fn begin_download(&self) -> (stage: ThroughputStage)
        ensures
            stage.kind == EngineKind::Real,
            stage.direction == Direction::Download,
            stage.cadence == Cadence::EveryChunks(50),
            stage.chunk_size == self.chunk_size,
            stage.duration_ms == self.test_duration_ms / 2,
            stage.total_bytes == 0,
            stage.chunk_count == 0,
            stage.measurements@ == Seq::<Fixed>::empty(),
            stage.last_update_ns == 0,
    {
        ThroughputStage {
            kind: EngineKind::Real,
            direction: Direction::Download,
            chunk_size: self.chunk_size as u64,
            duration_ms: self.test_duration_ms / 2,
            cadence: Cadence::EveryChunks(50),
            total_bytes: 0,
            chunk_count: 0,
            measurements: Vec::new(),
            last_update_ns: 0,
        }
    }

    /// An upload stage that has transferred nothing yet; it reports once more
    /// than 200 ms passed since its last report.
    pub fn begin_upload(&self) -> (stage: ThroughputStage)
        ensures
            stage.kind == EngineKind::Real,
            stage.direction == Direction::Upload,
            stage.cadence == Cadence::EveryMillis(200),
            stage.chunk_size == self.chunk_size,
            stage.duration_ms == self.test_duration_ms / 2,
            stage.total_bytes == 0,
            stage.chunk_count == 0,
            stage.measurements@ == Seq::<Fixed>::empty(),
            stage.last_update_ns == 0,
    {
        ThroughputStage {
            kind: EngineKind::Real,
            direction: Direction::Upload,
            chunk_size: self.chunk_size as u64,
            duration_ms: self.test_duration_ms / 2,
            cadence: Cadence::EveryMillis(200),
            total_bytes: 0,
            chunk_count: 0,
            measurements: Vec::new(),
            last_update_ns: 0,
        }
    }
}

} // verus!
