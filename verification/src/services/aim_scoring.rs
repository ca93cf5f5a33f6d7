//! Use-case quality scores: how well a measured connection serves gaming,
//! streaming, video conferencing and browsing, each on a scale of 0 to 100.

use crate::fixed::{units, Fixed};
use crate::models::TestResult;
use crate::services::loaded_latency::{larger, LoadedLatencyResult};
use crate::text::{
    decimal, fixed_text, format_fixed, lowercase_of, push_string, push_text, text_is,
    to_lowercase, to_uppercase, u64_text, uppercase_of,
};
use vstd::prelude::*;

verus! {

/// Verdict on a score, best first.
#[derive(Debug, Clone, Copy, PartialEq, Eq, Structural)]
pub enum QualityGrade {
    Excellent,
    Good,
    Fair,
    Poor,
    VeryPoor,
}

/// The grade of a score given in millionths of a point.
pub open spec fn quality_of(score: int) -> QualityGrade {
    if score >= units(90) {
        QualityGrade::Excellent
    } else if score >= units(75) {
        QualityGrade::Good
    } else if score >= units(60) {
        QualityGrade::Fair
    } else if score >= units(40) {
        QualityGrade::Poor
    } else {
        QualityGrade::VeryPoor
    }
}

impl QualityGrade {
    pub open spec fn label(self) -> Seq<char> {
        match self {
            QualityGrade::Excellent => "Excellent"@,
            QualityGrade::Good => "Good"@,
            QualityGrade::Fair => "Fair"@,
            QualityGrade::Poor => "Poor"@,
            QualityGrade::VeryPoor => "Very Poor"@,
        }
    }

    pub open spec fn emoji_text(self) -> Seq<char> {
        match self {
            QualityGrade::Excellent => "⭐"@,
            QualityGrade::Good => "✅"@,
            QualityGrade::Fair => "✓"@,
            QualityGrade::Poor => "⚠️"@,
            QualityGrade::VeryPoor => "❌"@,
        }
    }

    pub fn from_score(score: Fixed) -> (g: QualityGrade)
        ensures
            g == quality_of(score@),
    {
        if score.micros >= 90_000_000 {
            QualityGrade::Excellent
        } else if score.micros >= 75_000_000 {
            QualityGrade::Good
        } else if score.micros >= 60_000_000 {
            QualityGrade::Fair
        } else if score.micros >= 40_000_000 {
            QualityGrade::Poor
        } else {
            QualityGrade::VeryPoor
        }
    }

    pub fn as_str(&self) -> (s: &'static str)
        ensures
            s@ == self.label(),
    {
        match self {
            QualityGrade::Excellent => "Excellent",
            QualityGrade::Good => "Good",
            QualityGrade::Fair => "Fair",
            QualityGrade::Poor => "Poor",
            QualityGrade::VeryPoor => "Very Poor",
        }
    }

    pub fn emoji(&self) -> (s: &'static str)
        ensures
            s@ == self.emoji_text(),
    {
        match self {
            QualityGrade::Excellent => "⭐",
            QualityGrade::Good => "✅",
            QualityGrade::Fair => "✓",
            QualityGrade::Poor => "⚠️",
            QualityGrade::VeryPoor => "❌",
        }
    }
}

/// Score of one use case.
#[derive(Debug, Clone)]
pub struct UseCaseScore {
    /// 0 to 100.
    pub score: Fixed,
    pub grade: QualityGrade,
    pub assessment: String,
    pub explanation: String,
    pub emoji: String,
    /// What the connection can do, in the order it was found.
    pub capabilities: Vec<String>,
    /// What would improve it, in the order it was found.
    pub recommendations: Vec<String>,
}

/// A [`UseCaseScore`] as mathematical values.
pub struct UseCaseScoreView {
    pub score: int,
    pub grade: QualityGrade,
    pub assessment: Seq<char>,
    pub explanation: Seq<char>,
    pub emoji: Seq<char>,
    pub capabilities: Seq<Seq<char>>,
    pub recommendations: Seq<Seq<char>>,
}

impl View for UseCaseScore {
    type V = UseCaseScoreView;

    open spec fn view(&self) -> UseCaseScoreView {
        UseCaseScoreView {
            score: self.score@,
            grade: self.grade,
            assessment: self.assessment@,
            explanation: self.explanation@,
            emoji: self.emoji@,
            capabilities: self.capabilities.deep_view(),
            recommendations: self.recommendations.deep_view(),
        }
    }
}

/// The four use-case scores of one session and their mean.
#[derive(Debug, Clone)]
pub struct AIMScores {
    pub gaming: UseCaseScore,
    pub streaming: UseCaseScore,
    pub video_conferencing: UseCaseScore,
    pub general_browsing: UseCaseScore,
    /// 0 to 100.
    pub overall_score: Fixed,
    pub overall_grade: QualityGrade,
}

/// What one sub-score contributes: its points, and what it adds to the two
/// lists.
pub struct Band {
    pub points: int,
    pub capabilities: Seq<Seq<char>>,
    pub recommendations: Seq<Seq<char>>,
}

/// A band that adds nothing to the lists.
pub open spec fn silent(points: int) -> Band {
    Band {
        points,
        capabilities: Seq::<Seq<char>>::empty(),
        recommendations: Seq::<Seq<char>>::empty(),
    }
}

/// A band that tells what the connection can do.
pub open spec fn able(points: int, capabilities: Seq<Seq<char>>) -> Band {
    Band { points, capabilities, recommendations: Seq::<Seq<char>>::empty() }
}

/// A band that tells what would improve the connection.
pub open spec fn advised(points: int, recommendations: Seq<Seq<char>>) -> Band {
    Band { points, capabilities: Seq::<Seq<char>>::empty(), recommendations }
}

/// The band `b` was applied: `points` are its points and the two lists grew
/// by what it adds.
pub open spec fn applied(
    b: Band,
    points: u32,
    capabilities_before: Seq<Seq<char>>,
    capabilities_after: Seq<Seq<char>>,
    recommendations_before: Seq<Seq<char>>,
    recommendations_after: Seq<Seq<char>>,
) -> bool {
    &&& points == b.points
    &&& capabilities_after == capabilities_before + b.capabilities
    &&& recommendations_after == recommendations_before + b.recommendations
}

// Gaming: loaded latency 50, jitter 25, packet loss 15, download speed 10.

/// Gaming, by the worse of the two loaded latencies.
pub open spec fn gaming_latency(worst: int) -> Band {
    if worst < units(20) {
        able(50, seq!["Perfect for competitive gaming (esports-level)"@])
    } else if worst < units(50) {
        able(45, seq!["Excellent for online gaming"@])
    } else if worst < units(80) {
        able(35, seq!["Good for most online games"@])
    } else if worst < units(100) {
        Band {
            points: 25,
            capabilities: seq!["Playable for casual games"@],
            recommendations: seq!["Reduce bufferbloat to improve latency"@],
        }
    } else if worst < units(150) {
        advised(
            15,
            seq!["Enable SQM/QoS on router"@, "Consider wired connection instead of WiFi"@],
        )
    } else {
        advised(5, seq!["Check for network congestion"@, "Contact ISP about high latency"@])
    }
}

/// Gaming, by jitter.
pub open spec fn gaming_jitter(jitter: int) -> Band {
    if jitter < units(5) {
        able(25, seq!["Consistent performance - no lag spikes"@])
    } else if jitter < units(15) {
        silent(20)
    } else if jitter < units(30) {
        silent(15)
    } else {
        advised(5, seq!["Check WiFi signal strength"@])
    }
}

/// Gaming, by download speed.
pub open spec fn gaming_speed(download: int) -> Band {
    if download >= units(25) {
        silent(10)
    } else if download >= units(10) {
        silent(8)
    } else if download >= units(5) {
        silent(5)
    } else {
        silent(2)
    }
}

/// Points for packet loss, which is not measured and counted as none.
pub open spec fn gaming_loss_points() -> int {
    15
}

pub open spec fn gaming_assessment(grade: QualityGrade) -> Seq<char> {
    match grade {
        QualityGrade::Excellent => "Perfect for competitive gaming - esports ready!"@,
        QualityGrade::Good => "Great for online gaming - smooth experience"@,
        QualityGrade::Fair => "Playable but not ideal - casual gaming okay"@,
        QualityGrade::Poor => "Poor gaming experience - lag will be noticeable"@,
        QualityGrade::VeryPoor => "Not suitable for online gaming"@,
    }
}

pub open spec fn gaming_emoji_text(grade: QualityGrade) -> Seq<char> {
    match grade {
        QualityGrade::Excellent => "🎮⭐"@,
        QualityGrade::Good => "🎮✅"@,
        QualityGrade::Fair => "🎮✓"@,
        QualityGrade::Poor => "🎮⚠️"@,
        QualityGrade::VeryPoor => "🎮❌"@,
    }
}

pub open spec fn gaming_explanation(worst: int) -> Seq<char> {
    "Gaming requires low latency ("@ + fixed_text(worst, 0)
        + "ms) and stable connection. "@ + (if worst < units(50) {
        "Your connection is excellent for gaming."@
    } else if worst < units(100) {
        "Your connection is acceptable but could be better."@
    } else {
        "High latency will cause noticeable lag."@
    })
}

/// The gaming score of a session.
pub open spec fn gaming_score(t: TestResult, l: LoadedLatencyResult) -> UseCaseScoreView {
    let worst = larger(l.download_avg_ms@, l.upload_avg_ms@);
    let a = gaming_latency(worst);
    let b = gaming_jitter(t.jitter_ms@);
    let c = gaming_speed(t.download_mbps@);
    let score = units(a.points + b.points + gaming_loss_points() + c.points);
    UseCaseScoreView {
        score,
        grade: quality_of(score),
        assessment: gaming_assessment(quality_of(score)),
        explanation: gaming_explanation(worst),
        emoji: gaming_emoji_text(quality_of(score)),
        capabilities: a.capabilities + b.capabilities + c.capabilities,
        recommendations: a.recommendations + b.recommendations + c.recommendations,
    }
}

// Streaming: download speed 40, download-loaded latency 30, jitter 20,
// packet loss 10.

/// Streaming, by download speed.
pub open spec fn streaming_speed(download: int) -> Band {
    if download >= units(100) {
        able(40, seq!["8K streaming on multiple devices"@, "4K 60fps streaming with headroom"@])
    } else if download >= units(50) {
        able(38, seq!["4K streaming on 2-3 devices"@, "HD streaming on many devices"@])
    } else if download >= units(25) {
        able(35, seq!["4K streaming on 1 device"@, "HD streaming on 2-3 devices"@])
    } else if download >= units(15) {
        able(30, seq!["HD (1080p) streaming reliably"@])
    } else if download >= units(10) {
        Band {
            points: 25,
            capabilities: seq!["HD streaming on 1 device"@],
            recommendations: seq!["4K may buffer occasionally"@],
        }
    } else if download >= units(5) {
        Band {
            points: 15,
            capabilities: seq!["SD/HD streaming works"@],
            recommendations: seq!["Avoid 4K streaming"@],
        }
    } else {
        advised(
            5,
            seq![
                "Speed "@ + fixed_text(download, 1) + " Mbps too low for HD"@,
                "Upgrade plan for better streaming"@,
            ],
        )
    }
}

/// Streaming, by the latency during download.
pub open spec fn streaming_latency(latency: int) -> Band {
    if latency < units(50) {
        silent(30)
    } else if latency < units(100) {
        silent(25)
    } else if latency < units(200) {
        advised(20, seq!["High latency may cause buffering"@])
    } else {
        advised(10, seq!["Reduce bufferbloat for smoother streaming"@])
    }
}

/// Streaming, by jitter.
pub open spec fn streaming_jitter(jitter: int) -> Band {
    if jitter < units(10) {
        silent(20)
    } else if jitter < units(30) {
        silent(15)
    } else if jitter < units(50) {
        silent(10)
    } else {
        silent(5)
    }
}

/// Points for packet loss, which is not measured and counted as none.
pub open spec fn streaming_loss_points() -> int {
    10
}

pub open spec fn streaming_assessment(grade: QualityGrade) -> Seq<char> {
    match grade {
        QualityGrade::Excellent => "Perfect for 4K/8K streaming on multiple devices"@,
        QualityGrade::Good => "Great for 4K streaming and HD on multiple devices"@,
        QualityGrade::Fair => "HD streaming works, 4K may buffer occasionally"@,
        QualityGrade::Poor => "SD/HD only, frequent buffering possible"@,
        QualityGrade::VeryPoor => "Streaming will be problematic"@,
    }
}

pub open spec fn streaming_explanation(download: int) -> Seq<char> {
    "Streaming quality depends on download speed ("@ + fixed_text(download, 1)
        + " Mbps) and stability. "@ + (if download >= units(25) {
        "Your speed is excellent for streaming."@
    } else if download >= units(10) {
        "Your speed is adequate for HD streaming."@
    } else {
        "Your speed may struggle with HD content."@
    })
}

/// The streaming score of a session.
pub open spec fn streaming_score(t: TestResult, l: LoadedLatencyResult) -> UseCaseScoreView {
    let a = streaming_speed(t.download_mbps@);
    let b = streaming_latency(l.download_avg_ms@);
    let c = streaming_jitter(t.jitter_ms@);
    let score = units(a.points + b.points + c.points + streaming_loss_points());
    UseCaseScoreView {
        score,
        grade: quality_of(score),
        assessment: streaming_assessment(quality_of(score)),
        explanation: streaming_explanation(t.download_mbps@),
        emoji: "📺"@,
        capabilities: a.capabilities + b.capabilities + c.capabilities,
        recommendations: a.recommendations + b.recommendations + c.recommendations,
    }
}

// Video conferencing: upload speed 30, upload-loaded latency 30, jitter 25,
// download speed 15.

/// The whole milliseconds of a latency, as they are shown in a
/// recommendation.
pub open spec fn whole_ms(latency: int) -> Seq<char> {
    decimal((Fixed { micros: latency as i64 }).whole_u32_spec() as nat)
}

/// Conferencing, by upload speed.
pub open spec fn conferencing_upload(upload: int) -> Band {
    if upload >= units(20) {
        able(30, seq!["4K video calls with screen sharing"@])
    } else if upload >= units(10) {
        able(28, seq!["HD video calls with screen sharing"@])
    } else if upload >= units(5) {
        able(25, seq!["HD video calls work well"@])
    } else if upload >= units(3) {
        able(20, seq!["HD video calls (may struggle with screen share)"@])
    } else if upload >= 1_500_000 {
        Band {
            points: 15,
            capabilities: seq!["SD video calls work"@],
            recommendations: seq!["HD may be choppy"@],
        }
    } else {
        advised(
            5,
            seq![
                "Upload "@ + fixed_text(upload, 1) + " Mbps too low for video"@,
                "Use audio-only or upgrade plan"@,
            ],
        )
    }
}

/// Conferencing, by the latency during upload.
pub open spec fn conferencing_latency(latency: int) -> Band {
    if latency < units(30) {
        able(30, seq!["Smooth real-time conversation"@])
    } else if latency < units(80) {
        silent(25)
    } else if latency < units(150) {
        advised(20, seq!["Latency may cause awkward pauses"@])
    } else if latency < units(250) {
        advised(
            10,
            seq![
                "High upload latency "@ + whole_ms(latency) + "ms"@,
                "Enable SQM to reduce bufferbloat"@,
            ],
        )
    } else {
        advised(
            5,
            seq![
                "Very high upload latency "@ + whole_ms(latency) + "ms"@,
                "Video will freeze frequently"@,
            ],
        )
    }
}

/// Conferencing, by jitter.
pub open spec fn conferencing_jitter(jitter: int) -> Band {
    if jitter < units(10) {
        silent(25)
    } else if jitter < units(20) {
        silent(20)
    } else if jitter < units(40) {
        advised(15, seq!["Jitter may cause choppy audio/video"@])
    } else {
        silent(5)
    }
}

/// Conferencing, by download speed.
pub open spec fn conferencing_download(download: int) -> Band {
    if download >= units(10) {
        silent(15)
    } else if download >= units(5) {
        silent(12)
    } else if download >= 2_500_000 {
        silent(8)
    } else {
        silent(3)
    }
}

pub open spec fn conferencing_assessment(grade: QualityGrade) -> Seq<char> {
    match grade {
        QualityGrade::Excellent => "Perfect for 4K video calls and screen sharing"@,
        QualityGrade::Good => "HD video conferencing works smoothly"@,
        QualityGrade::Fair => "Video calls work, occasional quality drops"@,
        QualityGrade::Poor => "Video calls may be choppy or freeze"@,
        QualityGrade::VeryPoor => "Not suitable for video conferencing"@,
    }
}

pub open spec fn conferencing_explanation(upload: int, latency: int) -> Seq<char> {
    "Video calls need good upload ("@ + fixed_text(upload, 1)
        + " Mbps) and low upload latency ("@ + fixed_text(latency, 0) + "ms). "@ + (if latency
        < units(80) && upload >= units(5) {
        "Your connection is great for video calls."@
    } else if latency > units(150) {
        "High upload latency will cause frozen video."@
    } else {
        "Your connection should work for video calls."@
    })
}

/// The video-conferencing score of a session.
pub open spec fn conferencing_score(t: TestResult, l: LoadedLatencyResult) -> UseCaseScoreView {
    let a = conferencing_upload(t.upload_mbps@);
    let b = conferencing_latency(l.upload_avg_ms@);
    let c = conferencing_jitter(t.jitter_ms@);
    let d = conferencing_download(t.download_mbps@);
    let score = units(a.points + b.points + c.points + d.points);
    UseCaseScoreView {
        score,
        grade: quality_of(score),
        assessment: conferencing_assessment(quality_of(score)),
        explanation: conferencing_explanation(t.upload_mbps@, l.upload_avg_ms@),
        emoji: "💼"@,
        capabilities: a.capabilities + b.capabilities + c.capabilities + d.capabilities,
        recommendations: a.recommendations + b.recommendations + c.recommendations
            + d.recommendations,
    }
}

// Browsing: download speed 40, idle latency 40, jitter and packet loss 20.

/// Browsing, by download speed.
pub open spec fn browsing_speed(download: int) -> Band {
    if download >= units(100) {
        able(40, seq!["Lightning-fast page loads"@, "Instant large downloads"@])
    } else if download >= units(50) {
        able(38, seq!["Very fast browsing experience"@])
    } else if download >= units(25) {
        able(35, seq!["Fast page loads and downloads"@])
    } else if download >= units(10) {
        able(30, seq!["Good browsing experience"@])
    } else if download >= units(5) {
        able(20, seq!["Adequate for basic browsing"@])
    } else {
        advised(10, seq!["Speed "@ + fixed_text(download, 1) + " Mbps is slow"@])
    }
}

/// Browsing, by idle latency.
pub open spec fn browsing_latency(latency: int) -> Band {
    if latency < units(20) {
        able(40, seq!["Instant page response"@])
    } else if latency < units(50) {
        silent(35)
    } else if latency < units(100) {
        silent(30)
    } else if latency < units(200) {
        advised(20, seq!["Pages may feel slightly sluggish"@])
    } else {
        silent(10)
    }
}

/// Points for jitter and packet loss, which are counted as good.
pub open spec fn browsing_stability_points() -> int {
    20
}

pub open spec fn browsing_assessment(grade: QualityGrade) -> Seq<char> {
    match grade {
        QualityGrade::Excellent => "Outstanding browsing experience - instant and smooth"@,
        QualityGrade::Good => "Great browsing - fast page loads"@,
        QualityGrade::Fair => "Adequate browsing - some delays"@,
        QualityGrade::Poor => "Slow browsing experience"@,
        QualityGrade::VeryPoor => "Very slow - frustrating to use"@,
    }
}

pub open spec fn browsing_explanation(download: int, latency: int) -> Seq<char> {
    "Browsing quality combines speed ("@ + fixed_text(download, 1)
        + " Mbps) and responsiveness ("@ + fixed_text(latency, 0) + "ms latency)."@
}

/// The browsing score of a session.
pub open spec fn browsing_score(t: TestResult, l: LoadedLatencyResult) -> UseCaseScoreView {
    let a = browsing_speed(t.download_mbps@);
    let b = browsing_latency(l.idle_avg_ms@);
    let score = units(a.points + b.points + browsing_stability_points());
    UseCaseScoreView {
        score,
        grade: quality_of(score),
        assessment: browsing_assessment(quality_of(score)),
        explanation: browsing_explanation(t.download_mbps@, l.idle_avg_ms@),
        emoji: "🌐"@,
        capabilities: a.capabilities + b.capabilities,
        recommendations: a.recommendations + b.recommendations,
    }
}

/// The mean of four scores, in millionths of a point.
pub open spec fn overall_of(gaming: int, streaming: int, conferencing: int, browsing: int) -> int {
    (gaming + streaming + conferencing + browsing) / 4
}

/// Every use-case score is a whole number of points between 0 and 100.
pub proof fn lemma_scores_in_range(t: TestResult, l: LoadedLatencyResult)
    ensures
        0 <= gaming_score(t, l).score <= units(100),
        0 <= streaming_score(t, l).score <= units(100),
        0 <= conferencing_score(t, l).score <= units(100),
        0 <= browsing_score(t, l).score <= units(100),
        gaming_score(t, l).score % 1_000_000 == 0,
        streaming_score(t, l).score % 1_000_000 == 0,
        conferencing_score(t, l).score % 1_000_000 == 0,
        browsing_score(t, l).score % 1_000_000 == 0,
{
}

/// The overall score is the exact mean of the four use-case scores, and lies
/// between 0 and 100.
pub proof fn lemma_overall_is_mean(t: TestResult, l: LoadedLatencyResult)
    ensures
        4 * overall_of(
            gaming_score(t, l).score,
            streaming_score(t, l).score,
            conferencing_score(t, l).score,
            browsing_score(t, l).score,
        ) == gaming_score(t, l).score + streaming_score(t, l).score + conferencing_score(
            t,
            l,
        ).score + browsing_score(t, l).score,
        0 <= overall_of(
            gaming_score(t, l).score,
            streaming_score(t, l).score,
            conferencing_score(t, l).score,
            browsing_score(t, l).score,
        ) <= units(100),
{
    lemma_scores_in_range(t, l);
}

pub struct AIMCalculator;

impl AIMCalculator {
    /// The four use-case scores of a session, their mean and its grade.
    pub fn calculate_all_scores(test_result: &TestResult, loaded_latency: &LoadedLatencyResult) -> (r:
        AIMScores)
        ensures
            r.is_scores_of(*test_result, *loaded_latency),
            4 * r.overall_score@ == r.gaming.score@ + r.streaming.score@
                + r.video_conferencing.score@ + r.general_browsing.score@,
    {
        let gaming = Self::calculate_gaming_score(test_result, loaded_latency);
        let streaming = Self::calculate_streaming_score(test_result, loaded_latency);
        let video_conferencing = Self::calculate_conferencing_score(test_result, loaded_latency);
        let general_browsing = Self::calculate_browsing_score(test_result, loaded_latency);
        proof {
            lemma_scores_in_range(*test_result, *loaded_latency);
        }
        let total: i64 = gaming.score.micros + streaming.score.micros
            + video_conferencing.score.micros + general_browsing.score.micros;
        let overall_score = Fixed { micros: total / 4 };
        let overall_grade = QualityGrade::from_score(overall_score);
        AIMScores {
            gaming,
            streaming,
            video_conferencing,
            general_browsing,
            overall_score,
            overall_grade,
        }
    }

    /// How well the connection serves online games: latency under load and
    /// jitter count most.
    pub fn calculate_gaming_score(test_result: &TestResult, loaded_latency: &LoadedLatencyResult) -> (r:
        UseCaseScore)
        ensures
            r@ == gaming_score(*test_result, *loaded_latency),
            0 <= r.score@ <= units(100),
    {
        let mut capabilities: Vec<String> = Vec::new();
        let mut recommendations: Vec<String> = Vec::new();
        let worst = loaded_latency.download_avg_ms.max_of(loaded_latency.upload_avg_ms);
        let latency = gaming_latency_band(worst, &mut capabilities, &mut recommendations);
        let jitter = gaming_jitter_band(
            test_result.jitter_ms,
            &mut capabilities,
            &mut recommendations,
        );
        let speed = gaming_speed_band(test_result.download_mbps);
        let score = Fixed::from_int((latency + jitter + 15 + speed) as i32);
        let grade = QualityGrade::from_score(score);
        let assessment = String::from_str(
            match grade {
                QualityGrade::Excellent => "Perfect for competitive gaming - esports ready!",
                QualityGrade::Good => "Great for online gaming - smooth experience",
                QualityGrade::Fair => "Playable but not ideal - casual gaming okay",
                QualityGrade::Poor => "Poor gaming experience - lag will be noticeable",
                QualityGrade::VeryPoor => "Not suitable for online gaming",
            },
        );
        let mut explanation = String::from_str("Gaming requires low latency (");
        explanation.append(format_fixed(worst, 0).as_str());
        explanation.append("ms) and stable connection. ");
        explanation.append(
            if worst.micros < 50_000_000 {
                "Your connection is excellent for gaming."
            } else if worst.micros < 100_000_000 {
                "Your connection is acceptable but could be better."
            } else {
                "High latency will cause noticeable lag."
            },
        );
        let emoji = Self::gaming_emoji(&grade);
        proof {
            let a = gaming_latency(worst@);
            let b = gaming_jitter(test_result.jitter_ms@);
            let c = gaming_speed(test_result.download_mbps@);
            assert(capabilities.deep_view() =~= a.capabilities + b.capabilities + c.capabilities);
            assert(recommendations.deep_view() =~= a.recommendations + b.recommendations
                + c.recommendations);
        }
        UseCaseScore { score, grade, assessment, explanation, emoji, capabilities, recommendations }
    }

    /// How well the connection serves video streaming: download speed and its
    /// steadiness count most.
    pub fn calculate_streaming_score(
        test_result: &TestResult,
        loaded_latency: &LoadedLatencyResult,
    ) -> (r: UseCaseScore)
        ensures
            r@ == streaming_score(*test_result, *loaded_latency),
            0 <= r.score@ <= units(100),
    {
        let mut capabilities: Vec<String> = Vec::new();
        let mut recommendations: Vec<String> = Vec::new();
        let speed = streaming_speed_band(
            test_result.download_mbps,
            &mut capabilities,
            &mut recommendations,
        );
        let latency = streaming_latency_band(loaded_latency.download_avg_ms, &mut recommendations);
        let jitter = streaming_jitter_band(test_result.jitter_ms);
        let score = Fixed::from_int((speed + latency + jitter + 10) as i32);
        let grade = QualityGrade::from_score(score);
        let assessment = String::from_str(
            match grade {
                QualityGrade::Excellent => "Perfect for 4K/8K streaming on multiple devices",
                QualityGrade::Good => "Great for 4K streaming and HD on multiple devices",
                QualityGrade::Fair => "HD streaming works, 4K may buffer occasionally",
                QualityGrade::Poor => "SD/HD only, frequent buffering possible",
                QualityGrade::VeryPoor => "Streaming will be problematic",
            },
        );
        let mut explanation = String::from_str("Streaming quality depends on download speed (");
        explanation.append(format_fixed(test_result.download_mbps, 1).as_str());
        explanation.append(" Mbps) and stability. ");
        explanation.append(
            if test_result.download_mbps.micros >= 25_000_000 {
                "Your speed is excellent for streaming."
            } else if test_result.download_mbps.micros >= 10_000_000 {
                "Your speed is adequate for HD streaming."
            } else {
                "Your speed may struggle with HD content."
            },
        );
        proof {
            let a = streaming_speed(test_result.download_mbps@);
            let b = streaming_latency(loaded_latency.download_avg_ms@);
            let c = streaming_jitter(test_result.jitter_ms@);
            assert(capabilities.deep_view() =~= a.capabilities + b.capabilities + c.capabilities);
            assert(recommendations.deep_view() =~= a.recommendations + b.recommendations
                + c.recommendations);
        }
        UseCaseScore {
            score,
            grade,
            assessment,
            explanation,
            emoji: String::from_str("📺"),
            capabilities,
            recommendations,
        }
    }

    /// How well the connection serves video calls: upload speed and latency
    /// during upload count most.
    pub fn calculate_conferencing_score(
        test_result: &TestResult,
        loaded_latency: &LoadedLatencyResult,
    ) -> (r: UseCaseScore)
        ensures
            r@ == conferencing_score(*test_result, *loaded_latency),
            0 <= r.score@ <= units(100),
    {
        let mut capabilities: Vec<String> = Vec::new();
        let mut recommendations: Vec<String> = Vec::new();
        let upload = conferencing_upload_band(
            test_result.upload_mbps,
            &mut capabilities,
            &mut recommendations,
        );
        let latency = conferencing_latency_band(
            loaded_latency.upload_avg_ms,
            &mut capabilities,
            &mut recommendations,
        );
        let jitter = conferencing_jitter_band(test_result.jitter_ms, &mut recommendations);
        let download = conferencing_download_band(test_result.download_mbps);
        let score = Fixed::from_int((upload + latency + jitter + download) as i32);
        let grade = QualityGrade::from_score(score);
        let assessment = String::from_str(
            match grade {
                QualityGrade::Excellent => "Perfect for 4K video calls and screen sharing",
                QualityGrade::Good => "HD video conferencing works smoothly",
                QualityGrade::Fair => "Video calls work, occasional quality drops",
                QualityGrade::Poor => "Video calls may be choppy or freeze",
                QualityGrade::VeryPoor => "Not suitable for video conferencing",
            },
        );
        let mut explanation = String::from_str("Video calls need good upload (");
        explanation.append(format_fixed(test_result.upload_mbps, 1).as_str());
        explanation.append(" Mbps) and low upload latency (");
        explanation.append(format_fixed(loaded_latency.upload_avg_ms, 0).as_str());
        explanation.append("ms). ");
        explanation.append(
            if loaded_latency.upload_avg_ms.micros < 80_000_000 && test_result.upload_mbps.micros
                >= 5_000_000 {
                "Your connection is great for video calls."
            } else if loaded_latency.upload_avg_ms.micros > 150_000_000 {
                "High upload latency will cause frozen video."
            } else {
                "Your connection should work for video calls."
            },
        );
        proof {
            let a = conferencing_upload(test_result.upload_mbps@);
            let b = conferencing_latency(loaded_latency.upload_avg_ms@);
            let c = conferencing_jitter(test_result.jitter_ms@);
            let d = conferencing_download(test_result.download_mbps@);
            assert(capabilities.deep_view() =~= a.capabilities + b.capabilities + c.capabilities
                + d.capabilities);
            assert(recommendations.deep_view() =~= a.recommendations + b.recommendations
                + c.recommendations + d.recommendations);
        }
        UseCaseScore {
            score,
            grade,
            assessment,
            explanation,
            emoji: String::from_str("💼"),
            capabilities,
            recommendations,
        }
    }

    /// How well the connection serves browsing: download speed and idle
    /// latency in equal parts.
    pub fn calculate_browsing_score(
        test_result: &TestResult,
        loaded_latency: &LoadedLatencyResult,
    ) -> (r: UseCaseScore)
        ensures
            r@ == browsing_score(*test_result, *loaded_latency),
            0 <= r.score@ <= units(100),
    {
        let mut capabilities: Vec<String> = Vec::new();
        let mut recommendations: Vec<String> = Vec::new();
        let speed = browsing_speed_band(
            test_result.download_mbps,
            &mut capabilities,
            &mut recommendations,
        );
        let latency = browsing_latency_band(
            loaded_latency.idle_avg_ms,
            &mut capabilities,
            &mut recommendations,
        );
        let score = Fixed::from_int((speed + latency + 20) as i32);
        let grade = QualityGrade::from_score(score);
        let assessment = String::from_str(
            match grade {
                QualityGrade::Excellent => "Outstanding browsing experience - instant and smooth",
                QualityGrade::Good => "Great browsing - fast page loads",
                QualityGrade::Fair => "Adequate browsing - some delays",
                QualityGrade::Poor => "Slow browsing experience",
                QualityGrade::VeryPoor => "Very slow - frustrating to use",
            },
        );
        let mut explanation = String::from_str("Browsing quality combines speed (");
        explanation.append(format_fixed(test_result.download_mbps, 1).as_str());
        explanation.append(" Mbps) and responsiveness (");
        explanation.append(format_fixed(loaded_latency.idle_avg_ms, 0).as_str());
        explanation.append("ms latency).");
        UseCaseScore {
            score,
            grade,
            assessment,
            explanation,
            emoji: String::from_str("🌐"),
            capabilities,
            recommendations,
        }
    }

    /// The gaming mark of a grade.
    pub fn gaming_emoji(grade: &QualityGrade) -> (s: String)
        ensures
            s@ == gaming_emoji_text(*grade),
    {
        String::from_str(
            match grade {
                QualityGrade::Excellent => "🎮⭐",
                QualityGrade::Good => "🎮✅",
                QualityGrade::Fair => "🎮✓",
                QualityGrade::Poor => "🎮⚠️",
                QualityGrade::VeryPoor => "🎮❌",
            },
        )
    }
}

/// The lines of a list in a report: each item after a bullet, on a line of
/// its own.
pub open spec fn bullet_list(items: Seq<Seq<char>>) -> Seq<char>
    decreases items.len(),
{
    if items.len() == 0 {
        Seq::<char>::empty()
    } else {
        bullet_list(items.drop_last()) + "   • "@ + items.last() + "\n"@
    }
}

/// The head of a report: the score under the title, the assessment and the
/// explanation.
pub open spec fn report_head(score: UseCaseScoreView, title: Seq<char>) -> Seq<char> {
    score.emoji + " "@ + title + " - "@ + fixed_text(score.score, 0) + "/100 "@
        + score.grade.emoji_text() + "\n"@ + "━━━━━━━━━━━━━━━━━━━━━━━━━━━━━━━━━━━━━━\n"@ + score.assessment + "\n\n"@
        + score.explanation + "\n\n"@
}

/// The part of a report that lists what works; empty where nothing is listed.
pub open spec fn report_capabilities(items: Seq<Seq<char>>) -> Seq<char> {
    if items.len() == 0 {
        Seq::<char>::empty()
    } else {
        "✅ What Works:\n"@ + bullet_list(items) + "\n"@
    }
}

/// The part of a report that lists recommendations; empty where there is
/// none.
pub open spec fn report_recommendations(items: Seq<Seq<char>>) -> Seq<char> {
    if items.len() == 0 {
        Seq::<char>::empty()
    } else {
        "💡 Recommendations:\n"@ + bullet_list(items)
    }
}

/// The report on one use case under the given title.
pub open spec fn report_text(score: UseCaseScoreView, title: Seq<char>) -> Seq<char> {
    report_head(score, title) + report_capabilities(score.capabilities)
        + report_recommendations(score.recommendations)
}

/// One line of a summary.
pub open spec fn summary_line(score: int, grade: QualityGrade) -> Seq<char> {
    fixed_text(score, 0) + "/100 "@ + grade.emoji_text() + " "@ + grade.label()
}

impl AIMScores {
    /// These are the scores of the given session: the four use-case scores,
    /// their mean, and the grade of the mean.
    pub open spec fn is_scores_of(self, t: TestResult, l: LoadedLatencyResult) -> bool {
        &&& self.gaming@ == gaming_score(t, l)
        &&& self.streaming@ == streaming_score(t, l)
        &&& self.video_conferencing@ == conferencing_score(t, l)
        &&& self.general_browsing@ == browsing_score(t, l)
        &&& self.overall_score@ == overall_of(
            self.gaming.score@,
            self.streaming.score@,
            self.video_conferencing.score@,
            self.general_browsing.score@,
        )
        &&& self.overall_grade == quality_of(self.overall_score@)
    }

    /// The use case that the lower-case word `key` names.
    pub open spec fn selected(self, key: Seq<char>) -> Option<UseCaseScoreView> {
        if key == "gaming"@ {
            Some(self.gaming@)
        } else if key == "streaming"@ {
            Some(self.streaming@)
        } else if key == "conferencing"@ || key == "video"@ {
            Some(self.video_conferencing@)
        } else if key == "browsing"@ || key == "general"@ {
            Some(self.general_browsing@)
        } else {
            None
        }
    }

    /// The report on the use case that `key` names, under `title`; a notice
    /// where `key` names none.
    pub open spec fn report_spec(self, key: Seq<char>, title: Seq<char>) -> Seq<char> {
        match self.selected(key) {
            Some(score) => report_text(score, title),
            None => "Unknown use case"@,
        }
    }

    /// The text of the summary.
    pub open spec fn summary_text(self) -> Seq<char> {
        "AIM Quality Scores\n"@ + "━━━━━━━━━━━━━━━━━━━━━━━━━━━━━━━━━━━━━━\n"@
            + "🎮 Gaming:            "@ + summary_line(self.gaming.score@, self.gaming.grade)
            + "\n📺 Streaming:         "@ + summary_line(self.streaming.score@, self.streaming.grade)
            + "\n💼 Video Conferencing: "@ + summary_line(
            self.video_conferencing.score@,
            self.video_conferencing.grade,
        ) + "\n🌐 General Browsing:   "@ + summary_line(
            self.general_browsing.score@,
            self.general_browsing.grade,
        ) + "\n"@ + "━━━━━━━━━━━━━━━━━━━━━━━━━━━━━━━━━━━━━━\n"@ + "Overall Quality: "@ + summary_line(
            self.overall_score@,
            self.overall_grade,
        )
    }

    /// All scores in a few lines.
    pub fn summary(&self) -> (s: String)
        ensures
            s@ == self.summary_text(),
    {
        let mut s = String::from_str("AIM Quality Scores\n");
        s.append("━━━━━━━━━━━━━━━━━━━━━━━━━━━━━━━━━━━━━━\n");
        s.append("🎮 Gaming:            ");
        s.append(summary_line_of(self.gaming.score, self.gaming.grade).as_str());
        s.append("\n📺 Streaming:         ");
        s.append(summary_line_of(self.streaming.score, self.streaming.grade).as_str());
        s.append("\n💼 Video Conferencing: ");
        s.append(
            summary_line_of(self.video_conferencing.score, self.video_conferencing.grade).as_str(),
        );
        s.append("\n🌐 General Browsing:   ");
        s.append(
            summary_line_of(self.general_browsing.score, self.general_browsing.grade).as_str(),
        );
        s.append("\n");
        s.append("━━━━━━━━━━━━━━━━━━━━━━━━━━━━━━━━━━━━━━\n");
        s.append("Overall Quality: ");
        s.append(summary_line_of(self.overall_score, self.overall_grade).as_str());
        s
    }

    /// The report on the use case that `use_case` names, in any mix of upper
    /// and lower case: `gaming`, `streaming`, `conferencing` or `video`,
    /// `browsing` or `general`. The title is `use_case` in upper case.
    pub fn detailed_report(&self, use_case: &str) -> (r: String)
        ensures
            r@ == self.report_spec(lowercase_of(use_case@), uppercase_of(use_case@)),
    {
        let key = to_lowercase(use_case);
        let title = to_uppercase(use_case);
        self.report_for(key.as_str(), title.as_str())
    }

    /// The report on the use case that the lower-case word `key` names, under
    /// `title`; a notice where `key` names none.
    pub fn report_for(&self, key: &str, title: &str) -> (r: String)
        ensures
            r@ == self.report_spec(key@, title@),
    {
        let key = String::from_str(key);
        if text_is(&key, "gaming") {
            report_on(&self.gaming, title)
        } else if text_is(&key, "streaming") {
            report_on(&self.streaming, title)
        } else if text_is(&key, "conferencing") || text_is(&key, "video") {
            report_on(&self.video_conferencing, title)
        } else if text_is(&key, "browsing") || text_is(&key, "general") {
            report_on(&self.general_browsing, title)
        } else {
            String::from_str("Unknown use case")
        }
    }
}

fn summary_line_of(score: Fixed, grade: QualityGrade) -> (s: String)
    ensures
        s@ == summary_line(score@, grade),
{
    let mut s = format_fixed(score, 0);
    s.append("/100 ");
    s.append(grade.emoji());
    s.append(" ");
    s.append(grade.as_str());
    s
}

/// Adds the lines of `items` to `report`.
fn append_bullets(report: &mut String, items: &Vec<String>)
    ensures
        final(report)@ == old(report)@ + bullet_list(items.deep_view()),
{
    let ghost all = items.deep_view();
    let mut i: usize = 0;
    while i < items.len()
        invariant
            0 <= i <= items.len(),
            all == items.deep_view(),
            report@ == old(report)@ + bullet_list(all.take(i as int)),
        decreases items.len() - i,
    {
        proof {
            let next = all.take(i + 1);
            assert(next.drop_last() =~= all.take(i as int));
            assert(next.last() == items[i as int]@);
        }
        report.append("   • ");
        report.append(items[i].as_str());
        report.append("\n");
        i = i + 1;
    }
    assert(all.take(items.len() as int) =~= all);
}

/// The report on `score` under `title`.
fn report_on(score: &UseCaseScore, title: &str) -> (r: String)
    ensures
        r@ == report_text(score@, title@),
{
    let mut r = String::from_str(score.emoji.as_str());
    r.append(" ");
    r.append(title);
    r.append(" - ");
    r.append(format_fixed(score.score, 0).as_str());
    r.append("/100 ");
    r.append(score.grade.emoji());
    r.append("\n");
    r.append("━━━━━━━━━━━━━━━━━━━━━━━━━━━━━━━━━━━━━━\n");
    r.append(score.assessment.as_str());
    r.append("\n\n");
    r.append(score.explanation.as_str());
    r.append("\n\n");
    assert(r@ == report_head(score@, title@));
    if score.capabilities.len() > 0 {
        r.append("✅ What Works:\n");
        append_bullets(&mut r, &score.capabilities);
        r.append("\n");
    }
    assert(r@ =~= report_head(score@, title@) + report_capabilities(score@.capabilities));
    if score.recommendations.len() > 0 {
        r.append("💡 Recommendations:\n");
        append_bullets(&mut r, &score.recommendations);
    }
    assert(r@ =~= report_text(score@, title@));
    r
}

fn gaming_latency_band(worst: Fixed, capabilities: &mut Vec<String>, recommendations: &mut Vec<
    String,
>) -> (points: u32)
    ensures
        applied(
            gaming_latency(worst@),
            points,
            old(capabilities).deep_view(),
            final(capabilities).deep_view(),
            old(recommendations).deep_view(),
            final(recommendations).deep_view(),
        ),
{
    let points: u32 = if worst.micros < 20_000_000 {
        push_text(capabilities, "Perfect for competitive gaming (esports-level)");
        50
    } else if worst.micros < 50_000_000 {
        push_text(capabilities, "Excellent for online gaming");
        45
    } else if worst.micros < 80_000_000 {
        push_text(capabilities, "Good for most online games");
        35
    } else if worst.micros < 100_000_000 {
        push_text(capabilities, "Playable for casual games");
        push_text(recommendations, "Reduce bufferbloat to improve latency");
        25
    } else if worst.micros < 150_000_000 {
        push_text(recommendations, "Enable SQM/QoS on router");
        push_text(recommendations, "Consider wired connection instead of WiFi");
        15
    } else {
        push_text(recommendations, "Check for network congestion");
        push_text(recommendations, "Contact ISP about high latency");
        5
    };
    assert(capabilities.deep_view() =~= old(capabilities).deep_view() + gaming_latency(
        worst@,
    ).capabilities);
    assert(recommendations.deep_view() =~= old(recommendations).deep_view() + gaming_latency(
        worst@,
    ).recommendations);
    points
}

fn gaming_jitter_band(jitter: Fixed, capabilities: &mut Vec<String>, recommendations: &mut Vec<
    String,
>) -> (points: u32)
    ensures
        applied(
            gaming_jitter(jitter@),
            points,
            old(capabilities).deep_view(),
            final(capabilities).deep_view(),
            old(recommendations).deep_view(),
            final(recommendations).deep_view(),
        ),
{
    let points: u32 = if jitter.micros < 5_000_000 {
        push_text(capabilities, "Consistent performance - no lag spikes");
        25
    } else if jitter.micros < 15_000_000 {
        20
    } else if jitter.micros < 30_000_000 {
        15
    } else {
        push_text(recommendations, "Check WiFi signal strength");
        5
    };
    assert(capabilities.deep_view() =~= old(capabilities).deep_view() + gaming_jitter(
        jitter@,
    ).capabilities);
    assert(recommendations.deep_view() =~= old(recommendations).deep_view() + gaming_jitter(
        jitter@,
    ).recommendations);
    points
}

fn gaming_speed_band(download: Fixed) -> (points: u32)
    ensures
        points == gaming_speed(download@).points,
{
    if download.micros >= 25_000_000 {
        10
    } else if download.micros >= 10_000_000 {
        8
    } else if download.micros >= 5_000_000 {
        5
    } else {
        2
    }
}

fn streaming_speed_band(download: Fixed, capabilities: &mut Vec<String>, recommendations: &mut Vec<
    String,
>) -> (points: u32)
    ensures
        applied(
            streaming_speed(download@),
            points,
            old(capabilities).deep_view(),
            final(capabilities).deep_view(),
            old(recommendations).deep_view(),
            final(recommendations).deep_view(),
        ),
{
    let points: u32 = if download.micros >= 100_000_000 {
        push_text(capabilities, "8K streaming on multiple devices");
        push_text(capabilities, "4K 60fps streaming with headroom");
        40
    } else if download.micros >= 50_000_000 {
        push_text(capabilities, "4K streaming on 2-3 devices");
        push_text(capabilities, "HD streaming on many devices");
        38
    } else if download.micros >= 25_000_000 {
        push_text(capabilities, "4K streaming on 1 device");
        push_text(capabilities, "HD streaming on 2-3 devices");
        35
    } else if download.micros >= 15_000_000 {
        push_text(capabilities, "HD (1080p) streaming reliably");
        30
    } else if download.micros >= 10_000_000 {
        push_text(capabilities, "HD streaming on 1 device");
        push_text(recommendations, "4K may buffer occasionally");
        25
    } else if download.micros >= 5_000_000 {
        push_text(capabilities, "SD/HD streaming works");
        push_text(recommendations, "Avoid 4K streaming");
        15
    } else {
        let mut text = String::from_str("Speed ");
        text.append(format_fixed(download, 1).as_str());
        text.append(" Mbps too low for HD");
        push_string(recommendations, text);
        push_text(recommendations, "Upgrade plan for better streaming");
        5
    };
    assert(capabilities.deep_view() =~= old(capabilities).deep_view() + streaming_speed(
        download@,
    ).capabilities);
    assert(recommendations.deep_view() =~= old(recommendations).deep_view() + streaming_speed(
        download@,
    ).recommendations);
    points
}

fn streaming_latency_band(latency: Fixed, recommendations: &mut Vec<String>) -> (points: u32)
    ensures
        points == streaming_latency(latency@).points,
        streaming_latency(latency@).capabilities == Seq::<Seq<char>>::empty(),
        final(recommendations).deep_view() == old(recommendations).deep_view() + streaming_latency(
            latency@,
        ).recommendations,
{
    let points: u32 = if latency.micros < 50_000_000 {
        30
    } else if latency.micros < 100_000_000 {
        25
    } else if latency.micros < 200_000_000 {
        push_text(recommendations, "High latency may cause buffering");
        20
    } else {
        push_text(recommendations, "Reduce bufferbloat for smoother streaming");
        10
    };
    assert(recommendations.deep_view() =~= old(recommendations).deep_view() + streaming_latency(
        latency@,
    ).recommendations);
    points
}

fn streaming_jitter_band(jitter: Fixed) -> (points: u32)
    ensures
        points == streaming_jitter(jitter@).points,
{
    if jitter.micros < 10_000_000 {
        20
    } else if jitter.micros < 30_000_000 {
        15
    } else if jitter.micros < 50_000_000 {
        10
    } else {
        5
    }
}

fn conferencing_upload_band(
    upload: Fixed,
    capabilities: &mut Vec<String>,
    recommendations: &mut Vec<String>,
) -> (points: u32)
    ensures
        applied(
            conferencing_upload(upload@),
            points,
            old(capabilities).deep_view(),
            final(capabilities).deep_view(),
            old(recommendations).deep_view(),
            final(recommendations).deep_view(),
        ),
{
    let points: u32 = if upload.micros >= 20_000_000 {
        push_text(capabilities, "4K video calls with screen sharing");
        30
    } else if upload.micros >= 10_000_000 {
        push_text(capabilities, "HD video calls with screen sharing");
        28
    } else if upload.micros >= 5_000_000 {
        push_text(capabilities, "HD video calls work well");
        25
    } else if upload.micros >= 3_000_000 {
        push_text(capabilities, "HD video calls (may struggle with screen share)");
        20
    } else if upload.micros >= 1_500_000 {
        push_text(capabilities, "SD video calls work");
        push_text(recommendations, "HD may be choppy");
        15
    } else {
        let mut text = String::from_str("Upload ");
        text.append(format_fixed(upload, 1).as_str());
        text.append(" Mbps too low for video");
        push_string(recommendations, text);
        push_text(recommendations, "Use audio-only or upgrade plan");
        5
    };
    assert(capabilities.deep_view() =~= old(capabilities).deep_view() + conferencing_upload(
        upload@,
    ).capabilities);
    assert(recommendations.deep_view() =~= old(recommendations).deep_view() + conferencing_upload(
        upload@,
    ).recommendations);
    points
}

fn conferencing_latency_band(
    latency: Fixed,
    capabilities: &mut Vec<String>,
    recommendations: &mut Vec<String>,
) -> (points: u32)
    ensures
        applied(
            conferencing_latency(latency@),
            points,
            old(capabilities).deep_view(),
            final(capabilities).deep_view(),
            old(recommendations).deep_view(),
            final(recommendations).deep_view(),
        ),
{
    let points: u32 = if latency.micros < 30_000_000 {
        push_text(capabilities, "Smooth real-time conversation");
        30
    } else if latency.micros < 80_000_000 {
        25
    } else if latency.micros < 150_000_000 {
        push_text(recommendations, "Latency may cause awkward pauses");
        20
    } else if latency.micros < 250_000_000 {
        let mut text = String::from_str("High upload latency ");
        text.append(u64_text(latency.whole_u32() as u64).as_str());
        text.append("ms");
        push_string(recommendations, text);
        push_text(recommendations, "Enable SQM to reduce bufferbloat");
        10
    } else {
        let mut text = String::from_str("Very high upload latency ");
        text.append(u64_text(latency.whole_u32() as u64).as_str());
        text.append("ms");
        push_string(recommendations, text);
        push_text(recommendations, "Video will freeze frequently");
        5
    };
    assert(Fixed { micros: latency@ as i64 } == latency);
    assert(capabilities.deep_view() =~= old(capabilities).deep_view() + conferencing_latency(
        latency@,
    ).capabilities);
    assert(recommendations.deep_view() =~= old(recommendations).deep_view()
        + conferencing_latency(latency@).recommendations);
    points
}

fn conferencing_jitter_band(jitter: Fixed, recommendations: &mut Vec<String>) -> (points: u32)
    ensures
        points == conferencing_jitter(jitter@).points,
        conferencing_jitter(jitter@).capabilities == Seq::<Seq<char>>::empty(),
        final(recommendations).deep_view() == old(recommendations).deep_view()
            + conferencing_jitter(jitter@).recommendations,
{
    let points: u32 = if jitter.micros < 10_000_000 {
        25
    } else if jitter.micros < 20_000_000 {
        20
    } else if jitter.micros < 40_000_000 {
        push_text(recommendations, "Jitter may cause choppy audio/video");
        15
    } else {
        5
    };
    assert(recommendations.deep_view() =~= old(recommendations).deep_view() + conferencing_jitter(
        jitter@,
    ).recommendations);
    points
}

fn conferencing_download_band(download: Fixed) -> (points: u32)
    ensures
        points == conferencing_download(download@).points,
{
    if download.micros >= 10_000_000 {
        15
    } else if download.micros >= 5_000_000 {
        12
    } else if download.micros >= 2_500_000 {
        8
    } else {
        3
    }
}

fn browsing_speed_band(download: Fixed, capabilities: &mut Vec<String>, recommendations: &mut Vec<
    String,
>) -> (points: u32)
    ensures
        applied(
            browsing_speed(download@),
            points,
            old(capabilities).deep_view(),
            final(capabilities).deep_view(),
            old(recommendations).deep_view(),
            final(recommendations).deep_view(),
        ),
{
    let points: u32 = if download.micros >= 100_000_000 {
        push_text(capabilities, "Lightning-fast page loads");
        push_text(capabilities, "Instant large downloads");
        40
    } else if download.micros >= 50_000_000 {
        push_text(capabilities, "Very fast browsing experience");
        38
    } else if download.micros >= 25_000_000 {
        push_text(capabilities, "Fast page loads and downloads");
        35
    } else if download.micros >= 10_000_000 {
        push_text(capabilities, "Good browsing experience");
        30
    } else if download.micros >= 5_000_000 {
        push_text(capabilities, "Adequate for basic browsing");
        20
    } else {
        let mut text = String::from_str("Speed ");
        text.append(format_fixed(download, 1).as_str());
        text.append(" Mbps is slow");
        push_string(recommendations, text);
        10
    };
    assert(capabilities.deep_view() =~= old(capabilities).deep_view() + browsing_speed(
        download@,
    ).capabilities);
    assert(recommendations.deep_view() =~= old(recommendations).deep_view() + browsing_speed(
        download@,
    ).recommendations);
    points
}

fn browsing_latency_band(latency: Fixed, capabilities: &mut Vec<String>, recommendations: &mut Vec<
    String,
>) -> (points: u32)
    ensures
        applied(
            browsing_latency(latency@),
            points,
            old(capabilities).deep_view(),
            final(capabilities).deep_view(),
            old(recommendations).deep_view(),
            final(recommendations).deep_view(),
        ),
{
    let points: u32 = if latency.micros < 20_000_000 {
        push_text(capabilities, "Instant page response");
        40
    } else if latency.micros < 50_000_000 {
        35
    } else if latency.micros < 100_000_000 {
        30
    } else if latency.micros < 200_000_000 {
        push_text(recommendations, "Pages may feel slightly sluggish");
        20
    } else {
        10
    };
    assert(capabilities.deep_view() =~= old(capabilities).deep_view() + browsing_latency(
        latency@,
    ).capabilities);
    assert(recommendations.deep_view() =~= old(recommendations).deep_view() + browsing_latency(
        latency@,
    ).recommendations);
    points
}

} // verus!
