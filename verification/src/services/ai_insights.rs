//! Insights on a finished session, as a language model words them: the
//! record that holds them and its display.

use crate::fixed::Fixed;
use crate::models::TestResult;
use crate::services::aim_scoring::{AIMScores, QualityGrade};
use crate::services::loaded_latency::{percent, LoadedLatencyResult};
use crate::text::{
    decimal, fixed_text, format_fixed, lines_trimmed, parse_number, parsed, trimmed_lines, u64_text,
};
use vstd::prelude::*;

verus! {

#[derive(Debug, Clone, Copy, PartialEq, Eq, Structural)]
pub enum Priority {
    Critical,
    High,
    Medium,
    Low,
}

/// How hard a recommendation is to carry out.
#[derive(Debug, Clone, Copy, PartialEq, Eq, Structural)]
pub enum Difficulty {
    Easy,
    Medium,
    Hard,
    Advanced,
}

#[derive(Debug, Clone)]
pub struct AIRecommendation {
    pub priority: Priority,
    pub title: String,
    pub description: String,
    pub expected_improvement: String,
    pub difficulty: Difficulty,
}

#[derive(Debug, Clone)]
pub struct AIInsights {
    pub summary: String,
    pub detailed_analysis: String,
    pub recommendations: Vec<AIRecommendation>,
    pub predictions: Vec<String>,
    pub simple_explanation: String,
}

impl Priority {
    pub open spec fn label(self) -> Seq<char> {
        match self {
            Priority::Critical => "Critical"@,
            Priority::High => "High"@,
            Priority::Medium => "Medium"@,
            Priority::Low => "Low"@,
        }
    }

    pub open spec fn emoji_text(self) -> Seq<char> {
        match self {
            Priority::Critical => "🔴"@,
            Priority::High => "🟠"@,
            Priority::Medium => "🟡"@,
            Priority::Low => "🟢"@,
        }
    }

    pub fn as_str(&self) -> (s: &'static str)
        ensures
            s@ == self.label(),
    {
        match self {
            Priority::Critical => "Critical",
            Priority::High => "High",
            Priority::Medium => "Medium",
            Priority::Low => "Low",
        }
    }

    pub fn emoji(&self) -> (s: &'static str)
        ensures
            s@ == self.emoji_text(),
    {
        match self {
            Priority::Critical => "🔴",
            Priority::High => "🟠",
            Priority::Medium => "🟡",
            Priority::Low => "🟢",
        }
    }
}

impl Difficulty {
    pub open spec fn label(self) -> Seq<char> {
        match self {
            Difficulty::Easy => "Easy"@,
            Difficulty::Medium => "Medium"@,
            Difficulty::Hard => "Hard"@,
            Difficulty::Advanced => "Advanced"@,
        }
    }

    pub open spec fn emoji_text(self) -> Seq<char> {
        match self {
            Difficulty::Easy => "✅"@,
            Difficulty::Medium => "⚙️"@,
            Difficulty::Hard => "🔧"@,
            Difficulty::Advanced => "👨‍💻"@,
        }
    }

    pub fn as_str(&self) -> (s: &'static str)
        ensures
            s@ == self.label(),
    {
        match self {
            Difficulty::Easy => "Easy",
            Difficulty::Medium => "Medium",
            Difficulty::Hard => "Hard",
            Difficulty::Advanced => "Advanced",
        }
    }

    pub fn emoji(&self) -> (s: &'static str)
        ensures
            s@ == self.emoji_text(),
    {
        match self {
            Difficulty::Easy => "✅",
            Difficulty::Medium => "⚙️",
            Difficulty::Hard => "🔧",
            Difficulty::Advanced => "👨‍💻",
        }
    }
}

/// The lines that show one recommendation.
pub open spec fn recommendation_text(rec: AIRecommendation) -> Seq<char> {
    rec.priority.emoji_text() + " "@ + rec.priority.label() + " - "@ + rec.title@ + " "@
        + rec.difficulty.emoji_text() + "\n"@ + "   "@ + rec.description@ + "\n"@
        + "   Expected: "@ + rec.expected_improvement@ + "\n\n"@
}

/// The lines that show the recommendations, in their order.
pub open spec fn recommendation_lines(recs: Seq<AIRecommendation>) -> Seq<char>
    decreases recs.len(),
{
    if recs.len() == 0 {
        Seq::<char>::empty()
    } else {
        recommendation_lines(recs.drop_last()) + recommendation_text(recs.last())
    }
}

/// The lines that show the predictions, in their order.
pub open spec fn prediction_lines(predictions: Seq<Seq<char>>) -> Seq<char>
    decreases predictions.len(),
{
    if predictions.len() == 0 {
        Seq::<char>::empty()
    } else {
        prediction_lines(predictions.drop_last()) + "• "@ + predictions.last() + "\n"@
    }
}

impl AIInsights {
    /// The text of the display.
    pub open spec fn display_text(self) -> Seq<char> {
        "🤖 AI-POWERED NETWORK INSIGHTS\n"@ + "━━━━━━━━━━━━━━━━━━━━━━━━━━━━━━━━━━━━━━\n\n"@
            + "📊 SUMMARY\n"@ + self.summary@ + "\n\n"@ + "🔍 DETAILED ANALYSIS\n"@
            + self.detailed_analysis@ + "\n\n"@ + "💡 RECOMMENDATIONS\n"@ + recommendation_lines(
            self.recommendations@,
        ) + "🔮 PREDICTIONS\n"@ + prediction_lines(self.predictions.deep_view()) + "\n"@
            + "💬 SIMPLE EXPLANATION\n"@ + self.simple_explanation@ + "\n"@
    }

    /// The insights laid out for reading.
    pub fn display(&self) -> (output: String)
        ensures
            output@ == self.display_text(),
    {
        let mut output = String::from_str("🤖 AI-POWERED NETWORK INSIGHTS\n");
        output.append("━━━━━━━━━━━━━━━━━━━━━━━━━━━━━━━━━━━━━━\n\n");
        output.append("📊 SUMMARY\n");
        output.append(self.summary.as_str());
        output.append("\n\n");
        output.append("🔍 DETAILED ANALYSIS\n");
        output.append(self.detailed_analysis.as_str());
        output.append("\n\n");
        output.append("💡 RECOMMENDATIONS\n");
        let ghost head = output@;
        let mut i: usize = 0;
        assert(self.recommendations@.take(0) =~= Seq::<AIRecommendation>::empty());
        while i < self.recommendations.len()
            invariant
                0 <= i <= self.recommendations.len(),
                output@ == head + recommendation_lines(self.recommendations@.take(i as int)),
            decreases self.recommendations.len() - i,
        {
            proof {
                let next = self.recommendations@.take(i + 1);
                assert(next.drop_last() =~= self.recommendations@.take(i as int));
                assert(next.last() == self.recommendations@[i as int]);
            }
            let rec = &self.recommendations[i];
            output.append(rec.priority.emoji());
            output.append(" ");
            output.append(rec.priority.as_str());
            output.append(" - ");
            output.append(rec.title.as_str());
            output.append(" ");
            output.append(rec.difficulty.emoji());
            output.append("\n");
            output.append("   ");
            output.append(rec.description.as_str());
            output.append("\n");
            output.append("   Expected: ");
            output.append(rec.expected_improvement.as_str());
            output.append("\n\n");
            assert(output@ =~= head + recommendation_lines(self.recommendations@.take(i as int))
                + recommendation_text(self.recommendations@[i as int]));
            i = i + 1;
        }
        assert(self.recommendations@.take(self.recommendations.len() as int)
            =~= self.recommendations@);
        output.append("🔮 PREDICTIONS\n");
        let ghost middle = output@;
        let ghost all = self.predictions.deep_view();
        let mut j: usize = 0;
        assert(all.take(0) =~= Seq::<Seq<char>>::empty());
        while j < self.predictions.len()
            invariant
                0 <= j <= self.predictions.len(),
                all == self.predictions.deep_view(),
                output@ == middle + prediction_lines(all.take(j as int)),
            decreases self.predictions.len() - j,
        {
            proof {
                let next = all.take(j + 1);
                assert(next.drop_last() =~= all.take(j as int));
                assert(next.last() == self.predictions[j as int]@);
            }
            output.append("• ");
            output.append(self.predictions[j].as_str());
            output.append("\n");
            j = j + 1;
        }
        assert(all.take(self.predictions.len() as int) =~= all);
        output.append("\n");
        output.append("💬 SIMPLE EXPLANATION\n");
        output.append(self.simple_explanation.as_str());
        output.append("\n");
        output
    }
}

/// The settings of the analyzer that asks a language model for insights.
/// The connection to the model is kept by the boundary.
#[derive(Debug, Clone)]
pub struct AINetworkAnalyzer {
    pub api_key: String,
    pub model: String,
    pub max_tokens: u16,
    pub temperature: Fixed,
}

/// Why there is no analyzer.
#[derive(Debug, Clone, Copy, PartialEq, Eq, Structural)]
pub enum AnalyzerError {
    /// The environment holds no key for the model's service.
    MissingApiKey,
}

impl AnalyzerError {
    pub fn message(&self) -> (s: &'static str)
        ensures
            s@ == "OPENAI_API_KEY not set in environment"@,
    {
        "OPENAI_API_KEY not set in environment"
    }
}

/// What the model is told of its task before every question.
pub open spec fn system_text() -> Seq<char> {
    "You are a network performance expert helping users understand \
                                 their internet connection quality. Be clear, accurate, and actionable. \
                                 Focus on real-world impact and practical solutions."@
}

/// The question for a summary.
pub open spec fn summary_question() -> Seq<char> {
    "Based on these network test results, provide a concise 2-3 sentence summary \
            highlighting the most important findings. Be direct and actionable.\n\n"@
}

/// The question for a detailed analysis.
pub open spec fn analysis_question() -> Seq<char> {
    "Provide a detailed technical analysis of these network test results. \
            Explain what the metrics mean, identify any issues, and explain their impact. \
            Focus on bufferbloat, latency under load, and use-case suitability.\n\n"@
}

/// The question for recommendations.
pub open spec fn recommendations_question() -> Seq<char> {
    "Based on these network test results, provide 3-5 prioritized recommendations \
            for improving network performance. For each recommendation, specify:\n\
            1. Priority (Critical/High/Medium/Low)\n\
            2. Title (brief)\n\
            3. Description (what to do)\n\
            4. Expected improvement\n\
            5. Difficulty (Easy/Medium/Hard/Advanced)\n\
            \n\
            Format as JSON array with fields: priority, title, description, expected_improvement, difficulty\n\n"@
}

/// The question for predictions.
pub open spec fn predictions_question() -> Seq<char> {
    "Based on these network test results, predict 2-3 potential issues that may occur. \
            Focus on real-world impact: gaming lag, video call freezing, streaming buffering, etc.\n\n"@
}

/// The question for a simple explanation.
pub open spec fn explanation_question() -> Seq<char> {
    "Explain these network test results in simple terms that anyone can understand. \
            Use analogies if helpful. Focus on what the user can actually do with their connection. \
            Make it friendly and conversational.\n\n"@
}

/// One line of the context on a latency.
pub open spec fn latency_line(latency: int, rpm: int) -> Seq<char> {
    fixed_text(latency, 1) + "ms ("@ + fixed_text(rpm, 0) + " RPM)\n"@
}

/// One line of the context on a latency increase.
pub open spec fn increase_line(ratio: int, ms: int) -> Seq<char> {
    fixed_text(percent(ratio), 0) + "% ("@ + fixed_text(ms, 1) + "ms)\n"@
}

/// One line of the context on a score.
pub open spec fn score_line(score: int, grade: QualityGrade) -> Seq<char> {
    fixed_text(score, 0) + "/100 ("@ + grade.label() + ")\n"@
}

/// What the model is told of a session.
pub open spec fn context_text(t: TestResult, l: LoadedLatencyResult, a: AIMScores) -> Seq<char> {
    "Network Speed Test Results:\n\n=== Basic Metrics ===\nDownload Speed: "@ + fixed_text(
        t.download_mbps@,
        1,
    ) + " Mbps\nUpload Speed: "@ + fixed_text(t.upload_mbps@, 1)
        + " Mbps\n\n=== Latency Analysis ===\nIdle Latency: "@ + latency_line(
        l.idle_avg_ms@,
        l.idle_rpm@,
    ) + "Download Loaded Latency: "@ + latency_line(l.download_avg_ms@, l.download_rpm@)
        + "Upload Loaded Latency: "@ + latency_line(l.upload_avg_ms@, l.upload_rpm@) + "Jitter: "@
        + fixed_text(t.jitter_ms@, 1) + "ms\n\n=== Bufferbloat Analysis ===\nGrade: "@
        + l.bufferbloat_grade.label() + "\nDownload Increase: +"@ + increase_line(
        l.bufferbloat_download_ratio@,
        l.bufferbloat_download_ms@,
    ) + "Upload Increase: +"@ + increase_line(l.bufferbloat_upload_ratio@, l.bufferbloat_upload_ms@)
        + "\n=== Use-Case Scores (AIM) ===\nGaming: "@ + score_line(a.gaming.score@, a.gaming.grade)
        + "Streaming: "@ + score_line(a.streaming.score@, a.streaming.grade)
        + "Video Conferencing: "@ + score_line(
        a.video_conferencing.score@,
        a.video_conferencing.grade,
    ) + "General Browsing: "@ + score_line(a.general_browsing.score@, a.general_browsing.grade)
        + "Overall: "@ + score_line(a.overall_score@, a.overall_grade)
        + "\n=== Connection Details ===\nProtocol: "@ + t.protocol@ + "\nServer: "@ + t.server_id@
        + "\nTest Duration: "@ + decimal(t.test_duration_ms as nat) + "ms"@
}

fn latency_line_of(latency: Fixed, rpm: Fixed) -> (s: String)
    ensures
        s@ == latency_line(latency@, rpm@),
{
    let mut s = format_fixed(latency, 1);
    s.append("ms (");
    s.append(format_fixed(rpm, 0).as_str());
    s.append(" RPM)\n");
    s
}

fn increase_line_of(ratio: Fixed, ms: Fixed) -> (s: String)
    ensures
        s@ == increase_line(ratio@, ms@),
{
    let mut s = format_fixed(ratio.saturating_mul(Fixed::from_int(100)), 0);
    s.append("% (");
    s.append(format_fixed(ms, 1).as_str());
    s.append("ms)\n");
    s
}

fn score_line_of(score: Fixed, grade: QualityGrade) -> (s: String)
    ensures
        s@ == score_line(score@, grade),
{
    let mut s = format_fixed(score, 0);
    s.append("/100 (");
    s.append(grade.as_str());
    s.append(")\n");
    s
}

fn question(text: &str, context: &str) -> (s: String)
    ensures
        s@ == text@ + context@,
{
    let mut s = String::from_str(text);
    s.append(context);
    s
}

impl AINetworkAnalyzer {
    /// The analyzer that the environment sets up: an error where it holds no
    /// key; otherwise the key, the model (`gpt-4o-mini` where none is named),
    /// the most tokens of an answer (2000 where none is named or what is
    /// named is no number of at most 65535), and the temperature (0.7 where
    /// none is given).
    pub fn from_env(
        api_key: Option<String>,
        model: Option<String>,
        max_tokens: Option<String>,
        temperature: Option<Fixed>,
    ) -> (r: Result<AINetworkAnalyzer, AnalyzerError>)
        ensures
            r is Ok <==> api_key is Some,
            match r {
                Ok(a) => {
                    &&& a.api_key == api_key->Some_0
                    &&& a.model@ == (match model {
                        Some(m) => m@,
                        None => "gpt-4o-mini"@,
                    })
                    &&& a.max_tokens == (match max_tokens {
                        Some(t) => match parsed(t@, 65535) {
                            Some(v) => v,
                            None => 2000,
                        },
                        None => 2000,
                    })
                    &&& a.temperature@ == (match temperature {
                        Some(t) => t@,
                        None => 700_000,
                    })
                },
                Err(e) => e == AnalyzerError::MissingApiKey,
            },
    {
        let api_key = match api_key {
            Some(key) => key,
            None => {
                return Err(AnalyzerError::MissingApiKey);
            },
        };
        let model = match model {
            Some(m) => m,
            None => String::from_str("gpt-4o-mini"),
        };
        let max_tokens: u16 = match max_tokens {
            Some(text) => match parse_number(text.as_str(), 65535) {
                Some(v) => v as u16,
                None => 2000,
            },
            None => 2000,
        };
        let temperature = match temperature {
            Some(t) => t,
            None => Fixed::from_micros(700_000),
        };
        Ok(AINetworkAnalyzer { api_key, model, max_tokens, temperature })
    }

    /// What the model is told of a session.
    pub fn create_context(
        &self,
        test_result: &TestResult,
        loaded_latency: &LoadedLatencyResult,
        aim_scores: &AIMScores,
    ) -> (s: String)
        ensures
            s@ == context_text(*test_result, *loaded_latency, *aim_scores),
    {
        let mut s = String::from_str(
            "Network Speed Test Results:\n\n=== Basic Metrics ===\nDownload Speed: ",
        );
        s.append(format_fixed(test_result.download_mbps, 1).as_str());
        s.append(" Mbps\nUpload Speed: ");
        s.append(format_fixed(test_result.upload_mbps, 1).as_str());
        s.append(" Mbps\n\n=== Latency Analysis ===\nIdle Latency: ");
        s.append(
            latency_line_of(loaded_latency.idle_avg_ms, loaded_latency.idle_rpm).as_str(),
        );
        s.append("Download Loaded Latency: ");
        s.append(
            latency_line_of(loaded_latency.download_avg_ms, loaded_latency.download_rpm).as_str(),
        );
        s.append("Upload Loaded Latency: ");
        s.append(
            latency_line_of(loaded_latency.upload_avg_ms, loaded_latency.upload_rpm).as_str(),
        );
        s.append("Jitter: ");
        s.append(format_fixed(test_result.jitter_ms, 1).as_str());
        s.append("ms\n\n=== Bufferbloat Analysis ===\nGrade: ");
        s.append(loaded_latency.bufferbloat_grade.as_str());
        s.append("\nDownload Increase: +");
        s.append(
            increase_line_of(
                loaded_latency.bufferbloat_download_ratio,
                loaded_latency.bufferbloat_download_ms,
            ).as_str(),
        );
        s.append("Upload Increase: +");
        s.append(
            increase_line_of(
                loaded_latency.bufferbloat_upload_ratio,
                loaded_latency.bufferbloat_upload_ms,
            ).as_str(),
        );
        s.append("\n=== Use-Case Scores (AIM) ===\nGaming: ");
        s.append(score_line_of(aim_scores.gaming.score, aim_scores.gaming.grade).as_str());
        s.append("Streaming: ");
        s.append(score_line_of(aim_scores.streaming.score, aim_scores.streaming.grade).as_str());
        s.append("Video Conferencing: ");
        s.append(
            score_line_of(
                aim_scores.video_conferencing.score,
                aim_scores.video_conferencing.grade,
            ).as_str(),
        );
        s.append("General Browsing: ");
        s.append(
            score_line_of(
                aim_scores.general_browsing.score,
                aim_scores.general_browsing.grade,
            ).as_str(),
        );
        s.append("Overall: ");
        s.append(score_line_of(aim_scores.overall_score, aim_scores.overall_grade).as_str());
        s.append("\n=== Connection Details ===\nProtocol: ");
        s.append(test_result.protocol.as_str());
        s.append("\nServer: ");
        s.append(test_result.server_id.as_str());
        s.append("\nTest Duration: ");
        s.append(u64_text(test_result.test_duration_ms).as_str());
        s.append("ms");
        s
    }

    /// What the model is told of its task before every question.
    pub fn system_prompt() -> (s: &'static str)
        ensures
            s@ == system_text(),
    {
        "You are a network performance expert helping users understand \
                                 their internet connection quality. Be clear, accurate, and actionable. \
                                 Focus on real-world impact and practical solutions."
    }

    /// The question for a summary of the session that `context` describes.
    pub fn generate_summary(context: &str) -> (prompt: String)
        ensures
            prompt@ == summary_question() + context@,
    {
        question(
            "Based on these network test results, provide a concise 2-3 sentence summary \
            highlighting the most important findings. Be direct and actionable.\n\n",
            context,
        )
    }

    /// The question for a detailed analysis.
    pub fn generate_detailed_analysis(context: &str) -> (prompt: String)
        ensures
            prompt@ == analysis_question() + context@,
    {
        question(
            "Provide a detailed technical analysis of these network test results. \
            Explain what the metrics mean, identify any issues, and explain their impact. \
            Focus on bufferbloat, latency under load, and use-case suitability.\n\n",
            context,
        )
    }

    /// The question for recommendations.
    pub fn generate_recommendations(context: &str) -> (prompt: String)
        ensures
            prompt@ == recommendations_question() + context@,
    {
        question(
            "Based on these network test results, provide 3-5 prioritized recommendations \
            for improving network performance. For each recommendation, specify:\n\
            1. Priority (Critical/High/Medium/Low)\n\
            2. Title (brief)\n\
            3. Description (what to do)\n\
            4. Expected improvement\n\
            5. Difficulty (Easy/Medium/Hard/Advanced)\n\
            \n\
            Format as JSON array with fields: priority, title, description, expected_improvement, difficulty\n\n",
            context,
        )
    }

    /// The question for predictions.
    pub fn generate_predictions(context: &str) -> (prompt: String)
        ensures
            prompt@ == predictions_question() + context@,
    {
        question(
            "Based on these network test results, predict 2-3 potential issues that may occur. \
            Focus on real-world impact: gaming lag, video call freezing, streaming buffering, etc.\n\n",
            context,
        )
    }

    /// The question for a simple explanation.
    pub fn generate_simple_explanation(context: &str) -> (prompt: String)
        ensures
            prompt@ == explanation_question() + context@,
    {
        question(
            "Explain these network test results in simple terms that anyone can understand. \
            Use analogies if helpful. Focus on what the user can actually do with their connection. \
            Make it friendly and conversational.\n\n",
            context,
        )
    }

    /// The predictions that an answer gives: its lines that hold more than
    /// white space, each without the white space at its two ends.
    pub fn predictions_from(response: &str) -> (predictions: Vec<String>)
        ensures
            predictions.deep_view() == trimmed_lines(response@, 0),
    {
        lines_trimmed(response)
    }

    /// The recommendations that an answer gives: the list that was read from
    /// it, or, where none could be read, one recommendation that holds the
    /// answer as its description.
    pub fn recommendations_from(response: String, read: Option<Vec<AIRecommendation>>) -> (r: Vec<
        AIRecommendation,
    >)
        ensures
            match read {
                Some(list) => r == list,
                None => {
                    &&& r@.len() == 1
                    &&& r@[0].priority == Priority::Medium
                    &&& r@[0].title@ == "Network Optimization Needed"@
                    &&& r@[0].description == response
                    &&& r@[0].expected_improvement@ == "Improved network performance"@
                    &&& r@[0].difficulty == Difficulty::Medium
                },
            },
    {
        match read {
            Some(list) => list,
            None => {
                let mut r: Vec<AIRecommendation> = Vec::new();
                r.push(
                    AIRecommendation {
                        priority: Priority::Medium,
                        title: String::from_str("Network Optimization Needed"),
                        description: response,
                        expected_improvement: String::from_str("Improved network performance"),
                        difficulty: Difficulty::Medium,
                    },
                );
                r
            },
        }
    }
}

} // verus!
