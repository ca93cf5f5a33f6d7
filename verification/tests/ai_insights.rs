use speedtest_pro_backend::fixed::Fixed;
use speedtest_pro_backend::models::TestResult;
use speedtest_pro_backend::services::ai_insights::{
    AIInsights, AINetworkAnalyzer, AIRecommendation, Difficulty, Priority,
};
use speedtest_pro_backend::services::aim_scoring::AIMCalculator;
use speedtest_pro_backend::services::loaded_latency::LoadedLatencyTester;

#[test]
fn test_priority_display() {
    assert_eq!(Priority::Critical.as_str(), "Critical");
    assert_eq!(Priority::Critical.emoji(), "🔴");
}

#[test]
fn test_difficulty_display() {
    assert_eq!(Difficulty::Easy.as_str(), "Easy");
    assert_eq!(Difficulty::Easy.emoji(), "✅");
}

#[test]
fn priority_labels_and_marks() {
    assert_eq!(Priority::High.as_str(), "High");
    assert_eq!(Priority::Medium.as_str(), "Medium");
    assert_eq!(Priority::Low.as_str(), "Low");
    assert_eq!(Priority::High.emoji(), "🟠");
    assert_eq!(Priority::Medium.emoji(), "🟡");
    assert_eq!(Priority::Low.emoji(), "🟢");
}

#[test]
fn difficulty_labels_and_marks() {
    assert_eq!(Difficulty::Medium.as_str(), "Medium");
    assert_eq!(Difficulty::Hard.as_str(), "Hard");
    assert_eq!(Difficulty::Advanced.as_str(), "Advanced");
    assert_eq!(Difficulty::Medium.emoji(), "⚙️");
    assert_eq!(Difficulty::Hard.emoji(), "🔧");
    assert_eq!(Difficulty::Advanced.emoji(), "👨‍💻");
}

#[test]
fn display_lays_out_every_part() {
    let insights = AIInsights {
        summary: "Fast but bloated.".to_string(),
        detailed_analysis: "Latency rises under load.".to_string(),
        recommendations: vec![AIRecommendation {
            priority: Priority::High,
            title: "Enable SQM".to_string(),
            description: "Turn on smart queue management.".to_string(),
            expected_improvement: "Lower latency under load".to_string(),
            difficulty: Difficulty::Easy,
        }],
        predictions: vec!["Calls may freeze".to_string(), "Games may lag".to_string()],
        simple_explanation: "Your line is quick but crowded.".to_string(),
    };
    let rule = "━".repeat(38);
    let expected = format!(
        "🤖 AI-POWERED NETWORK INSIGHTS\n{rule}\n\n📊 SUMMARY\nFast but bloated.\n\n\
         🔍 DETAILED ANALYSIS\nLatency rises under load.\n\n💡 RECOMMENDATIONS\n\
         🟠 High - Enable SQM ✅\n   Turn on smart queue management.\n   \
         Expected: Lower latency under load\n\n🔮 PREDICTIONS\n• Calls may freeze\n\
         • Games may lag\n\n💬 SIMPLE EXPLANATION\nYour line is quick but crowded.\n"
    );
    assert_eq!(insights.display(), expected);
}

#[test]
fn display_of_empty_lists() {
    let insights = AIInsights {
        summary: String::new(),
        detailed_analysis: String::new(),
        recommendations: Vec::new(),
        predictions: Vec::new(),
        simple_explanation: String::new(),
    };
    let rule = "━".repeat(38);
    let expected = format!(
        "🤖 AI-POWERED NETWORK INSIGHTS\n{rule}\n\n📊 SUMMARY\n\n\n🔍 DETAILED ANALYSIS\n\n\n\
         💡 RECOMMENDATIONS\n🔮 PREDICTIONS\n\n💬 SIMPLE EXPLANATION\n\n"
    );
    assert_eq!(insights.display(), expected);
}

#[test]
fn context_of_a_session() {
    let result = TestResult {
        id: "test-123".to_string(),
        server_id: "mumbai-01".to_string(),
        timestamp: 0,
        download_mbps: Fixed::from_int(450),
        upload_mbps: Fixed::from_int(50),
        latency_ms: Fixed::from_int(12),
        jitter_ms: Fixed::from_int(3),
        protocol: "TCP".to_string(),
        client_ip: "1.2.3.4".to_string(),
        test_duration_ms: 10000,
    };
    let mut tester = LoadedLatencyTester::new();
    tester.measure_idle_latency(Ok(Fixed::from_int(12))).unwrap();
    tester.measure_download_loaded_latency(Ok(Fixed::from_int(18))).unwrap();
    tester.measure_upload_loaded_latency(Ok(Fixed::from_int(22))).unwrap();
    let loaded = tester.calculate_results();
    let scores = AIMCalculator::calculate_all_scores(&result, &loaded);
    let analyzer =
        AINetworkAnalyzer::from_env(Some("key-1".to_string()), None, None, None).unwrap();
    assert_eq!(
        analyzer.create_context(&result, &loaded, &scores),
        "Network Speed Test Results:\n\
         \n\
         === Basic Metrics ===\n\
         Download Speed: 450.0 Mbps\n\
         Upload Speed: 50.0 Mbps\n\
         \n\
         === Latency Analysis ===\n\
         Idle Latency: 12.0ms (5000 RPM)\n\
         Download Loaded Latency: 18.0ms (3333 RPM)\n\
         Upload Loaded Latency: 22.0ms (2727 RPM)\n\
         Jitter: 3.0ms\n\
         \n\
         === Bufferbloat Analysis ===\n\
         Grade: A\n\
         Download Increase: +50% (6.0ms)\n\
         Upload Increase: +83% (10.0ms)\n\
         \n\
         === Use-Case Scores (AIM) ===\n\
         Gaming: 95/100 (Excellent)\n\
         Streaming: 100/100 (Excellent)\n\
         Video Conferencing: 100/100 (Excellent)\n\
         General Browsing: 100/100 (Excellent)\n\
         Overall: 99/100 (Excellent)\n\
         \n\
         === Connection Details ===\n\
         Protocol: TCP\n\
         Server: mumbai-01\n\
         Test Duration: 10000ms"
    );
}
