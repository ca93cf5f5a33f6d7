//! Latency under load: the samples of the three stages of a session, their
//! statistics, and the bufferbloat grade that they give.

use crate::fixed::{clamp, mean, mean_of, quot, Fixed, SCALE};
use crate::stats::{
    lemma_sorted_is_ascending_rearrangement, lemma_statistics_ordered, maximum, median, minimum,
    sorted_copy,
};
use crate::text::{fixed_text, format_fixed};
use vstd::prelude::*;

verus! {

/// Why a latency probe gave no sample.
#[derive(Debug, Clone, Copy, PartialEq, Eq, Structural)]
pub enum ProbeError {
    Timeout,
    ConnectionRefused,
    ConnectionReset,
    Other,
}

impl ProbeError {
    /// The failure that the signs of a failed probe show: a timeout before
    /// anything else, then a reset connection, then a refused one.
    pub fn from_signs(timed_out: bool, reset: bool, refused: bool) -> (e: ProbeError)
        ensures
            e == if timed_out {
                ProbeError::Timeout
            } else if reset {
                ProbeError::ConnectionReset
            } else if refused {
                ProbeError::ConnectionRefused
            } else {
                ProbeError::Other
            },
    {
        if timed_out {
            ProbeError::Timeout
        } else if reset {
            ProbeError::ConnectionReset
        } else if refused {
            ProbeError::ConnectionRefused
        } else {
            ProbeError::Other
        }
    }
}

/// Severity of the latency increase under load, best first.
#[derive(Debug, Clone, Copy, PartialEq, Eq, Structural)]
pub enum BufferbloatGrade {
    APlus,
    A,
    B,
    C,
    D,
    F,
}

/// The grade of a latency increase of `ratio` millionths of the idle
/// latency.
pub open spec fn grade_of(ratio: int) -> BufferbloatGrade {
    if ratio < 500_000 {
        BufferbloatGrade::APlus
    } else if ratio < 1_000_000 {
        BufferbloatGrade::A
    } else if ratio < 2_000_000 {
        BufferbloatGrade::B
    } else if ratio < 4_000_000 {
        BufferbloatGrade::C
    } else if ratio < 9_000_000 {
        BufferbloatGrade::D
    } else {
        BufferbloatGrade::F
    }
}

/// Round trips per minute at a latency of `latency` millionths of a
/// millisecond, in millionths: `60000 / latency`, and zero where the latency
/// is not positive.
pub open spec fn rpm_of(latency: int) -> int {
    if latency > 0 {
        60_000_000_000_000_000int / latency
    } else {
        0
    }
}

/// Latency added under load: the stage's average less the idle average.
pub open spec fn bloat_ms(stage_avg: int, idle_avg: int) -> int {
    clamp(stage_avg - idle_avg)
}

/// Latency added under load as a fraction of the idle average; zero where
/// the idle average is not positive.
pub open spec fn bloat_ratio(stage_avg: int, idle_avg: int) -> int {
    if idle_avg > 0 {
        clamp(quot(bloat_ms(stage_avg, idle_avg) * SCALE, idle_avg))
    } else {
        0
    }
}

/// The larger of two numbers.
pub open spec fn larger(a: int, b: int) -> int {
    if a >= b {
        a
    } else {
        b
    }
}

impl BufferbloatGrade {
    /// Position of the grade, zero for the best.
    pub open spec fn rank(self) -> int {
        match self {
            BufferbloatGrade::APlus => 0,
            BufferbloatGrade::A => 1,
            BufferbloatGrade::B => 2,
            BufferbloatGrade::C => 3,
            BufferbloatGrade::D => 4,
            BufferbloatGrade::F => 5,
        }
    }

    pub open spec fn label(self) -> Seq<char> {
        match self {
            BufferbloatGrade::APlus => "A+"@,
            BufferbloatGrade::A => "A"@,
            BufferbloatGrade::B => "B"@,
            BufferbloatGrade::C => "C"@,
            BufferbloatGrade::D => "D"@,
            BufferbloatGrade::F => "F"@,
        }
    }

    pub open spec fn description_text(self) -> Seq<char> {
        match self {
            BufferbloatGrade::APlus => "Excellent - No bufferbloat detected"@,
            BufferbloatGrade::A => "Very Good - Minimal bufferbloat"@,
            BufferbloatGrade::B => "Good - Some bufferbloat, usually acceptable"@,
            BufferbloatGrade::C => "Fair - Noticeable bufferbloat, may cause lag"@,
            BufferbloatGrade::D => "Poor - Significant bufferbloat, expect lag spikes"@,
            BufferbloatGrade::F => "Terrible - Severe bufferbloat, gaming/video calls affected"@,
        }
    }

    pub open spec fn emoji_text(self) -> Seq<char> {
        match self {
            BufferbloatGrade::APlus => "⭐"@,
            BufferbloatGrade::A => "✅"@,
            BufferbloatGrade::B => "✓"@,
            BufferbloatGrade::C => "⚠️"@,
            BufferbloatGrade::D => "🔴"@,
            BufferbloatGrade::F => "❌"@,
        }
    }

    /// What to tell the user about a connection of this grade.
    pub open spec fn advice(self) -> Seq<Seq<char>> {
        match self {
            BufferbloatGrade::APlus | BufferbloatGrade::A => seq![
                "✅ Your connection has excellent quality!"@,
                "No bufferbloat detected - latency stays low under load."@,
            ],
            BufferbloatGrade::B => seq![
                "✓ Your connection quality is good."@,
                "Minor bufferbloat detected, but should not affect most activities."@,
            ],
            BufferbloatGrade::C => seq![
                "⚠️ Moderate bufferbloat detected."@,
                "May cause lag in gaming or choppy video calls during uploads/downloads."@,
                "Consider enabling Smart Queue Management (SQM/QoS) on your router."@,
            ],
            BufferbloatGrade::D | BufferbloatGrade::F => seq![
                "🔴 Significant bufferbloat detected!"@,
                "This will cause lag spikes, frozen video calls, and poor gaming experience."@,
                ""@,
                "How to fix:"@,
                "1. Enable Smart Queue Management (SQM/QoS) in your router settings"@,
                "2. Set upload/download limits to 85-90% of your maximum speed"@,
                "3. Consider upgrading to a router with better bufferbloat mitigation"@,
                "4. Learn more at: https://www.bufferbloat.net"@,
            ],
        }
    }

    pub fn as_str(&self) -> (s: &'static str)
        ensures
            s@ == self.label(),
    {
        match self {
            BufferbloatGrade::APlus => "A+",
            BufferbloatGrade::A => "A",
            BufferbloatGrade::B => "B",
            BufferbloatGrade::C => "C",
            BufferbloatGrade::D => "D",
            BufferbloatGrade::F => "F",
        }
    }

    pub fn description(&self) -> (s: &'static str)
        ensures
            s@ == self.description_text(),
    {
        match self {
            BufferbloatGrade::APlus => "Excellent - No bufferbloat detected",
            BufferbloatGrade::A => "Very Good - Minimal bufferbloat",
            BufferbloatGrade::B => "Good - Some bufferbloat, usually acceptable",
            BufferbloatGrade::C => "Fair - Noticeable bufferbloat, may cause lag",
            BufferbloatGrade::D => "Poor - Significant bufferbloat, expect lag spikes",
            BufferbloatGrade::F => "Terrible - Severe bufferbloat, gaming/video calls affected",
        }
    }

    pub fn emoji(&self) -> (s: &'static str)
        ensures
            s@ == self.emoji_text(),
    {
        match self {
            BufferbloatGrade::APlus => "⭐",
            BufferbloatGrade::A => "✅",
            BufferbloatGrade::B => "✓",
            BufferbloatGrade::C => "⚠️",
            BufferbloatGrade::D => "🔴",
            BufferbloatGrade::F => "❌",
        }
    }
}

/// A larger latency increase never gets a better grade.
pub proof fn lemma_grade_monotonic(r1: int, r2: int)
    requires
        r1 < r2,
    ensures
        grade_of(r1).rank() <= grade_of(r2).rank(),
{
}

/// Statistics of the samples of one stage.
#[derive(Debug, Clone, Copy, PartialEq, Eq, Structural)]
pub struct LatencyStats {
    pub min: Fixed,
    pub max: Fixed,
    pub avg: Fixed,
    pub median: Fixed,
}

impl LatencyStats {
    /// These are the statistics of `samples`; all are zero where there is no
    /// sample.
    pub open spec fn describes(self, samples: Seq<Fixed>) -> bool {
        &&& self.min@ == minimum(samples)
        &&& self.max@ == maximum(samples)
        &&& self.avg@ == mean(samples)
        &&& self.median@ == median(samples)
    }
}

/// The finished aggregate of one session's latency samples.
#[derive(Debug, Clone)]
pub struct LoadedLatencyResult {
    pub idle_min_ms: Fixed,
    pub idle_max_ms: Fixed,
    pub idle_avg_ms: Fixed,
    pub idle_median_ms: Fixed,
    pub idle_samples: Vec<Fixed>,
    pub download_min_ms: Fixed,
    pub download_max_ms: Fixed,
    pub download_avg_ms: Fixed,
    pub download_median_ms: Fixed,
    pub download_samples: Vec<Fixed>,
    pub upload_min_ms: Fixed,
    pub upload_max_ms: Fixed,
    pub upload_avg_ms: Fixed,
    pub upload_median_ms: Fixed,
    pub upload_samples: Vec<Fixed>,
    pub bufferbloat_download_ms: Fixed,
    pub bufferbloat_upload_ms: Fixed,
    pub bufferbloat_download_ratio: Fixed,
    pub bufferbloat_upload_ratio: Fixed,
    pub bufferbloat_grade: BufferbloatGrade,
    pub idle_rpm: Fixed,
    pub download_rpm: Fixed,
    pub upload_rpm: Fixed,
}

/// The mark shown beside a loaded stage: a tick while the latency has less
/// than doubled, a warning from there on.
pub open spec fn load_mark(ratio: int) -> Seq<char> {
    if ratio < 1_000_000 {
        "✅"@
    } else {
        "⚠️"@
    }
}

/// `ratio` as a percentage.
pub open spec fn percent(ratio: int) -> int {
    clamp(quot(ratio * 100_000_000, SCALE as int))
}

impl LoadedLatencyResult {
    /// This is the result that the three sample sequences determine.
    pub open spec fn is_result_of(
        self,
        idle: Seq<Fixed>,
        download: Seq<Fixed>,
        upload: Seq<Fixed>,
    ) -> bool {
        &&& self.idle_samples@ == idle
        &&& self.download_samples@ == download
        &&& self.upload_samples@ == upload
        &&& self.idle_min_ms@ == minimum(idle)
        &&& self.idle_max_ms@ == maximum(idle)
        &&& self.idle_avg_ms@ == mean(idle)
        &&& self.idle_median_ms@ == median(idle)
        &&& self.download_min_ms@ == minimum(download)
        &&& self.download_max_ms@ == maximum(download)
        &&& self.download_avg_ms@ == mean(download)
        &&& self.download_median_ms@ == median(download)
        &&& self.upload_min_ms@ == minimum(upload)
        &&& self.upload_max_ms@ == maximum(upload)
        &&& self.upload_avg_ms@ == mean(upload)
        &&& self.upload_median_ms@ == median(upload)
        &&& self.bufferbloat_download_ms@ == bloat_ms(mean(download), mean(idle))
        &&& self.bufferbloat_upload_ms@ == bloat_ms(mean(upload), mean(idle))
        &&& self.bufferbloat_download_ratio@ == bloat_ratio(mean(download), mean(idle))
        &&& self.bufferbloat_upload_ratio@ == bloat_ratio(mean(upload), mean(idle))
        &&& self.bufferbloat_grade == grade_of(
            larger(
                bloat_ratio(mean(download), mean(idle)),
                bloat_ratio(mean(upload), mean(idle)),
            ),
        )
        &&& self.idle_rpm@ == rpm_of(mean(idle))
        &&& self.download_rpm@ == rpm_of(mean(download))
        &&& self.upload_rpm@ == rpm_of(mean(upload))
    }

    /// The text of the summary.
    pub open spec fn summary_text(self) -> Seq<char> {
        "Loaded Latency Test Results\n"@
            + "━━━━━━━━━━━━━━━━━━━━━━━━━━━━━\n"@
            + "📊 Idle:     "@ + fixed_text(self.idle_avg_ms@, 1) + "ms ("@
            + fixed_text(self.idle_rpm@, 0) + " RPM) "@ + "⭐"@
            + "\n📥 Download: "@ + fixed_text(self.download_avg_ms@, 1) + "ms ("@
            + fixed_text(self.download_rpm@, 0) + " RPM) "@
            + load_mark(self.bufferbloat_download_ratio@)
            + "\n📤 Upload:   "@ + fixed_text(self.upload_avg_ms@, 1) + "ms ("@
            + fixed_text(self.upload_rpm@, 0) + " RPM) "@
            + load_mark(self.bufferbloat_upload_ratio@)
            + "\n"@ + "━━━━━━━━━━━━━━━━━━━━━━━━━━━━━\n"@
            + self.bufferbloat_grade.emoji_text() + " Bufferbloat Grade: "@
            + self.bufferbloat_grade.label() + " - "@
            + self.bufferbloat_grade.description_text()
            + "\nDownload increase: +"@
            + fixed_text(percent(self.bufferbloat_download_ratio@), 0) + "% ("@
            + fixed_text(self.bufferbloat_download_ms@, 1) + "ms)"@
            + "\nUpload increase: +"@
            + fixed_text(percent(self.bufferbloat_upload_ratio@), 0) + "% ("@
            + fixed_text(self.bufferbloat_upload_ms@, 1) + "ms)"@
    }

    /// A summary of the result for display.
    pub fn summary(&self) -> (s: String)
        ensures
            s@ == self.summary_text(),
    {
        let hundred = Fixed::from_int(100);
        let mut s = String::from_str("Loaded Latency Test Results\n");
        s.append("━━━━━━━━━━━━━━━━━━━━━━━━━━━━━\n");
        s.append("📊 Idle:     ");
        s.append(format_fixed(self.idle_avg_ms, 1).as_str());
        s.append("ms (");
        s.append(format_fixed(self.idle_rpm, 0).as_str());
        s.append(" RPM) ");
        s.append("⭐");
        s.append("\n📥 Download: ");
        s.append(format_fixed(self.download_avg_ms, 1).as_str());
        s.append("ms (");
        s.append(format_fixed(self.download_rpm, 0).as_str());
        s.append(" RPM) ");
        s.append(
            if self.bufferbloat_download_ratio.micros < 1_000_000 {
                "✅"
            } else {
                "⚠️"
            },
        );
        s.append("\n📤 Upload:   ");
        s.append(format_fixed(self.upload_avg_ms, 1).as_str());
        s.append("ms (");
        s.append(format_fixed(self.upload_rpm, 0).as_str());
        s.append(" RPM) ");
        s.append(
            if self.bufferbloat_upload_ratio.micros < 1_000_000 {
                "✅"
            } else {
                "⚠️"
            },
        );
        s.append("\n");
        s.append("━━━━━━━━━━━━━━━━━━━━━━━━━━━━━\n");
        s.append(self.bufferbloat_grade.emoji());
        s.append(" Bufferbloat Grade: ");
        s.append(self.bufferbloat_grade.as_str());
        s.append(" - ");
        s.append(self.bufferbloat_grade.description());
        s.append("\nDownload increase: +");
        s.append(format_fixed(self.bufferbloat_download_ratio.saturating_mul(hundred), 0).as_str());
        s.append("% (");
        s.append(format_fixed(self.bufferbloat_download_ms, 1).as_str());
        s.append("ms)");
        s.append("\nUpload increase: +");
        s.append(format_fixed(self.bufferbloat_upload_ratio.saturating_mul(hundred), 0).as_str());
        s.append("% (");
        s.append(format_fixed(self.bufferbloat_upload_ms, 1).as_str());
        s.append("ms)");
        s
    }

    /// What to tell the user, by the bufferbloat grade.
    pub fn recommendations(&self) -> (r: Vec<String>)
        ensures
            r.deep_view() == self.bufferbloat_grade.advice(),
    {
        let mut r: Vec<String> = Vec::new();
        match self.bufferbloat_grade {
            BufferbloatGrade::APlus | BufferbloatGrade::A => {
                r.push(String::from_str("✅ Your connection has excellent quality!"));
                r.push(String::from_str("No bufferbloat detected - latency stays low under load."));
            },
            BufferbloatGrade::B => {
                r.push(String::from_str("✓ Your connection quality is good."));
                r.push(
                    String::from_str(
                        "Minor bufferbloat detected, but should not affect most activities.",
                    ),
                );
            },
            BufferbloatGrade::C => {
                r.push(String::from_str("⚠️ Moderate bufferbloat detected."));
                r.push(
                    String::from_str(
                        "May cause lag in gaming or choppy video calls during uploads/downloads.",
                    ),
                );
                r.push(
                    String::from_str(
                        "Consider enabling Smart Queue Management (SQM/QoS) on your router.",
                    ),
                );
            },
            BufferbloatGrade::D | BufferbloatGrade::F => {
                r.push(String::from_str("🔴 Significant bufferbloat detected!"));
                r.push(
                    String::from_str(
                        "This will cause lag spikes, frozen video calls, and poor gaming experience.",
                    ),
                );
                r.push(String::from_str(""));
                r.push(String::from_str("How to fix:"));
                r.push(
                    String::from_str(
                        "1. Enable Smart Queue Management (SQM/QoS) in your router settings",
                    ),
                );
                r.push(
                    String::from_str(
                        "2. Set upload/download limits to 85-90% of your maximum speed",
                    ),
                );
                r.push(
                    String::from_str(
                        "3. Consider upgrading to a router with better bufferbloat mitigation",
                    ),
                );
                r.push(String::from_str("4. Learn more at: https://www.bufferbloat.net"));
            },
        }
        assert(r.deep_view() =~= self.bufferbloat_grade.advice());
        r
    }
}

/// Results are a function of the samples alone: two results of the same
/// three sequences agree in every field.
pub proof fn lemma_results_determined(
    a: LoadedLatencyResult,
    b: LoadedLatencyResult,
    idle: Seq<Fixed>,
    download: Seq<Fixed>,
    upload: Seq<Fixed>,
)
    requires
        a.is_result_of(idle, download, upload),
        b.is_result_of(idle, download, upload),
    ensures
        a.idle_samples@ == b.idle_samples@,
        a.download_samples@ == b.download_samples@,
        a.upload_samples@ == b.upload_samples@,
        a.idle_min_ms == b.idle_min_ms,
        a.idle_max_ms == b.idle_max_ms,
        a.idle_avg_ms == b.idle_avg_ms,
        a.idle_median_ms == b.idle_median_ms,
        a.download_min_ms == b.download_min_ms,
        a.download_max_ms == b.download_max_ms,
        a.download_avg_ms == b.download_avg_ms,
        a.download_median_ms == b.download_median_ms,
        a.upload_min_ms == b.upload_min_ms,
        a.upload_max_ms == b.upload_max_ms,
        a.upload_avg_ms == b.upload_avg_ms,
        a.upload_median_ms == b.upload_median_ms,
        a.bufferbloat_download_ms == b.bufferbloat_download_ms,
        a.bufferbloat_upload_ms == b.bufferbloat_upload_ms,
        a.bufferbloat_download_ratio == b.bufferbloat_download_ratio,
        a.bufferbloat_upload_ratio == b.bufferbloat_upload_ratio,
        a.bufferbloat_grade == b.bufferbloat_grade,
        a.idle_rpm == b.idle_rpm,
        a.download_rpm == b.download_rpm,
        a.upload_rpm == b.upload_rpm,
{
}

/// The samples of one session, stage by stage, in the order they were taken.
pub struct LoadedLatencyTester {
    idle_pings: Vec<Fixed>,
    download_pings: Vec<Fixed>,
    upload_pings: Vec<Fixed>,
}

impl LoadedLatencyTester {
    /// The idle samples taken so far.
    pub closed spec fn idle_samples(&self) -> Seq<Fixed> {
        self.idle_pings@
    }

    /// The samples taken during download so far.
    pub closed spec fn download_samples(&self) -> Seq<Fixed> {
        self.download_pings@
    }

    /// The samples taken during upload so far.
    pub closed spec fn upload_samples(&self) -> Seq<Fixed> {
        self.upload_pings@
    }

    pub fn new() -> (t: LoadedLatencyTester)
        ensures
            t.idle_samples() == Seq::<Fixed>::empty(),
            t.download_samples() == Seq::<Fixed>::empty(),
            t.upload_samples() == Seq::<Fixed>::empty(),
    {
        LoadedLatencyTester {
            idle_pings: Vec::new(),
            download_pings: Vec::new(),
            upload_pings: Vec::new(),
        }
    }

    /// How many idle samples were taken so far.
    pub fn idle_count(&self) -> (n: usize)
        ensures
            n == self.idle_samples().len(),
    {
        self.idle_pings.len()
    }

    /// Takes in the outcome of one idle probe: a latency joins the idle
    /// samples; a failure is handed back and nothing changes.
    pub fn measure_idle_latency(&mut self, probe: Result<Fixed, ProbeError>) -> (r: Result<
        (),
        ProbeError,
    >)
        ensures
            final(self).download_samples() == old(self).download_samples(),
            final(self).upload_samples() == old(self).upload_samples(),
            match probe {
                Ok(latency) => r is Ok && final(self).idle_samples() == old(
                    self,
                ).idle_samples().push(latency),
                Err(e) => r == Err::<(), ProbeError>(e) && final(self).idle_samples() == old(
                    self,
                ).idle_samples(),
            },
    {
        match probe {
            Ok(latency) => {
                self.idle_pings.push(latency);
                Ok(())
            },
            Err(e) => Err(e),
        }
    }

    /// Takes in the outcome of one probe made during download: a latency
    /// joins the download samples and is handed back; a failure is handed
    /// back and nothing changes.
    pub fn measure_download_loaded_latency(&mut self, probe: Result<Fixed, ProbeError>) -> (r:
        Result<Fixed, ProbeError>)
        ensures
            r == probe,
            final(self).idle_samples() == old(self).idle_samples(),
            final(self).upload_samples() == old(self).upload_samples(),
            match probe {
                Ok(latency) => final(self).download_samples() == old(
                    self,
                ).download_samples().push(latency),
                Err(_) => final(self).download_samples() == old(self).download_samples(),
            },
    {
        match probe {
            Ok(latency) => {
                self.download_pings.push(latency);
                Ok(latency)
            },
            Err(e) => Err(e),
        }
    }

    /// Takes in the outcome of one probe made during upload: a latency joins
    /// the upload samples and is handed back; a failure is handed back and
    /// nothing changes.
    pub fn measure_upload_loaded_latency(&mut self, probe: Result<Fixed, ProbeError>) -> (r:
        Result<Fixed, ProbeError>)
        ensures
            r == probe,
            final(self).idle_samples() == old(self).idle_samples(),
            final(self).download_samples() == old(self).download_samples(),
            match probe {
                Ok(latency) => final(self).upload_samples() == old(self).upload_samples().push(
                    latency,
                ),
                Err(_) => final(self).upload_samples() == old(self).upload_samples(),
            },
    {
        match probe {
            Ok(latency) => {
                self.upload_pings.push(latency);
                Ok(latency)
            },
            Err(e) => Err(e),
        }
    }

    /// The statistics, bufferbloat figures, grade and responsiveness of the
    /// samples taken so far. The tester is left as it was.
    pub fn calculate_results(&self) -> (r: LoadedLatencyResult)
        ensures
            r.is_result_of(self.idle_samples(), self.download_samples(), self.upload_samples()),
    {
        let idle_stats = self.calculate_stats(self.idle_pings.as_slice());
        let download_stats = self.calculate_stats(self.download_pings.as_slice());
        let upload_stats = self.calculate_stats(self.upload_pings.as_slice());

        let bufferbloat_download_ms = download_stats.avg.saturating_sub(idle_stats.avg);
        let bufferbloat_upload_ms = upload_stats.avg.saturating_sub(idle_stats.avg);

        let bufferbloat_download_ratio = if idle_stats.avg.micros > 0 {
            bufferbloat_download_ms.saturating_div(idle_stats.avg)
        } else {
            Fixed::zero()
        };
        let bufferbloat_upload_ratio = if idle_stats.avg.micros > 0 {
            bufferbloat_upload_ms.saturating_div(idle_stats.avg)
        } else {
            Fixed::zero()
        };

        let worst_ratio = bufferbloat_download_ratio.max_of(bufferbloat_upload_ratio);
        let bufferbloat_grade = Self::calculate_bufferbloat_grade(worst_ratio);

        let idle_rpm = Self::calculate_rpm(idle_stats.avg);
        let download_rpm = Self::calculate_rpm(download_stats.avg);
        let upload_rpm = Self::calculate_rpm(upload_stats.avg);

        LoadedLatencyResult {
            idle_min_ms: idle_stats.min,
            idle_max_ms: idle_stats.max,
            idle_avg_ms: idle_stats.avg,
            idle_median_ms: idle_stats.median,
            idle_samples: copy_of(&self.idle_pings),
            download_min_ms: download_stats.min,
            download_max_ms: download_stats.max,
            download_avg_ms: download_stats.avg,
            download_median_ms: download_stats.median,
            download_samples: copy_of(&self.download_pings),
            upload_min_ms: upload_stats.min,
            upload_max_ms: upload_stats.max,
            upload_avg_ms: upload_stats.avg,
            upload_median_ms: upload_stats.median,
            upload_samples: copy_of(&self.upload_pings),
            bufferbloat_download_ms,
            bufferbloat_upload_ms,
            bufferbloat_download_ratio,
            bufferbloat_upload_ratio,
            bufferbloat_grade,
            idle_rpm,
            download_rpm,
            upload_rpm,
        }
    }

    /// The grade of a latency increase of `ratio` times the idle latency.
    pub fn calculate_bufferbloat_grade(ratio: Fixed) -> (g: BufferbloatGrade)
        ensures
            g == grade_of(ratio@),
    {
        if ratio.micros < 500_000 {
            BufferbloatGrade::APlus
        } else if ratio.micros < 1_000_000 {
            BufferbloatGrade::A
        } else if ratio.micros < 2_000_000 {
            BufferbloatGrade::B
        } else if ratio.micros < 4_000_000 {
            BufferbloatGrade::C
        } else if ratio.micros < 9_000_000 {
            BufferbloatGrade::D
        } else {
            BufferbloatGrade::F
        }
    }

    /// Round trips per minute at the given latency in milliseconds.
    pub fn calculate_rpm(latency_ms: Fixed) -> (rpm: Fixed)
        ensures
            rpm@ == rpm_of(latency_ms@),
    {
        if latency_ms.micros > 0 {
            let ghost l: int = latency_ms.micros as int;
            assert(0 <= 60_000_000_000_000_000int / l <= 60_000_000_000_000_000int) by (nonlinear_arith)
                requires
                    l >= 1,
            ;
            Fixed::from_int(60_000).saturating_div(latency_ms)
        } else {
            Fixed::zero()
        }
    }

    /// Minimum, maximum, mean and median of `samples`; all zero where there
    /// is none.
    pub fn calculate_stats(&self, samples: &[Fixed]) -> (r: LatencyStats)
        ensures
            r.describes(samples@),
            r.min@ <= r.median@ <= r.max@,
            r.min@ <= r.avg@ <= r.max@,
    {
        let n: usize = samples.len();
        if n == 0 {
            return LatencyStats {
                min: Fixed::zero(),
                max: Fixed::zero(),
                avg: Fixed::zero(),
                median: Fixed::zero(),
            };
        }
        let ascending = sorted_copy(samples);
        proof {
            lemma_sorted_is_ascending_rearrangement(samples@);
            lemma_statistics_ordered(samples@);
        }
        let min = ascending[0];
        let max = ascending[n - 1];
        let avg = mean_of(samples);
        let median = if n % 2 == 0 {
            let low = ascending[n / 2 - 1];
            let high = ascending[n / 2];
            midpoint(low, high)
        } else {
            ascending[n / 2]
        };
        LatencyStats { min, max, avg, median }
    }

    /// The mean of `samples`; zero where there is none.
    pub fn calculate_average(&self, samples: &[Fixed]) -> (r: Fixed)
        ensures
            r@ == mean(samples@),
    {
        mean_of(samples)
    }
}

/// The midpoint of two numbers, rounded toward zero.
fn midpoint(low: Fixed, high: Fixed) -> (r: Fixed)
    ensures
        r@ == quot(low@ + high@, 2),
{
    let total: i128 = low.micros as i128 + high.micros as i128;
    if total >= 0 {
        Fixed { micros: (total / 2) as i64 }
    } else {
        Fixed { micros: (-((-total) / 2)) as i64 }
    }
}

/// A copy of `values`.
fn copy_of(values: &Vec<Fixed>) -> (r: Vec<Fixed>)
    ensures
        r@ == values@,
{
    let mut r: Vec<Fixed> = Vec::new();
    let mut i: usize = 0;
    while i < values.len()
        invariant
            0 <= i <= values.len(),
            r@ == values@.take(i as int),
        decreases values.len() - i,
    {
        r.push(values[i]);
        assert(values@.take(i + 1) =~= values@.take(i as int).push(values@[i as int]));
        i = i + 1;
    }
    assert(values@.take(values.len() as int) =~= values@);
    r
}

} // verus!
