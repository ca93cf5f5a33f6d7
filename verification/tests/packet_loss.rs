use speedtest_pro_backend::fixed::Fixed;
use speedtest_pro_backend::services::packet_loss::{
    LossCounter, PacketLossDetector, PacketLossGrade, PacketLossResult,
};

fn fx(x: f64) -> Fixed {
    Fixed::from_micros((x * 1_000_000.0).round() as i64)
}

#[test]
fn test_grade_calculation() {
    assert!(matches!(PacketLossDetector::calculate_grade(fx(0.05)), PacketLossGrade::Excellent));
    assert!(matches!(PacketLossDetector::calculate_grade(fx(0.5)), PacketLossGrade::Good));
    assert!(matches!(PacketLossDetector::calculate_grade(fx(2.0)), PacketLossGrade::Fair));
    assert!(matches!(PacketLossDetector::calculate_grade(fx(5.0)), PacketLossGrade::Poor));
}

#[test]
fn loss_grade_thresholds() {
    let grade = |loss: f64| PacketLossDetector::calculate_grade(fx(loss));
    assert_eq!(grade(0.0), PacketLossGrade::Excellent);
    assert_eq!(grade(0.099999), PacketLossGrade::Excellent);
    assert_eq!(grade(0.1), PacketLossGrade::Good);
    assert_eq!(grade(0.999999), PacketLossGrade::Good);
    assert_eq!(grade(1.0), PacketLossGrade::Fair);
    assert_eq!(grade(2.999999), PacketLossGrade::Fair);
    assert_eq!(grade(3.0), PacketLossGrade::Poor);
    assert_eq!(grade(100.0), PacketLossGrade::Poor);
}

#[test]
fn plan_of_a_test() {
    let detector = PacketLossDetector::new();
    assert_eq!(detector.total_packets(), 500);
    assert_eq!(detector.interval_ms(), Some(20));
    assert_eq!(PacketLossDetector::packet(0), "SPEEDTEST_PACKET:0");
    assert_eq!(PacketLossDetector::packet(499), "SPEEDTEST_PACKET:499");
}

#[test]
fn counting_packets() {
    let mut counter = LossCounter::new();
    counter.record(true, true);
    counter.record(true, false);
    counter.record(false, true);
    counter.record(false, false);
    counter.record(true, true);
    assert_eq!(counter, LossCounter { sent: 3, received: 2 });
    let mut full = LossCounter { sent: u64::MAX, received: 5 };
    full.record(true, true);
    assert_eq!(full, LossCounter { sent: u64::MAX, received: 5 });
}

#[test]
fn outcome_of_a_test() {
    let r = PacketLossDetector::finish(LossCounter { sent: 500, received: 490 }, 10_250);
    assert_eq!(
        r,
        PacketLossResult {
            sent_packets: 500,
            received_packets: 490,
            lost_packets: 10,
            loss_percentage: fx(2.0),
            grade: PacketLossGrade::Fair,
            test_duration_ms: 10_250,
        }
    );
    let r = PacketLossDetector::finish(LossCounter { sent: 3, received: 2 }, 1);
    assert_eq!(r.loss_percentage.micros, 33_333_333);
    assert_eq!(r.grade, PacketLossGrade::Poor);
    let r = PacketLossDetector::finish(LossCounter { sent: 1000, received: 1000 }, 1);
    assert_eq!(r.loss_percentage, fx(0.0));
    assert_eq!(r.grade, PacketLossGrade::Excellent);
    let r = PacketLossDetector::finish(LossCounter { sent: 10, received: 0 }, 1);
    assert_eq!(r.loss_percentage, fx(100.0));
}

#[test]
fn outcome_of_a_test_that_sent_nothing() {
    let r = PacketLossDetector::finish(LossCounter::new(), 7);
    assert_eq!((r.sent_packets, r.received_packets, r.lost_packets), (0, 0, 0));
    assert_eq!(r.loss_percentage, fx(0.0));
    assert_eq!(r.grade, PacketLossGrade::Excellent);
    let r = PacketLossDetector::finish(LossCounter { sent: 2, received: 5 }, 7);
    assert_eq!(r.lost_packets, 0);
    assert_eq!(r.loss_percentage, fx(0.0));
}

#[test]
fn summary_of_an_outcome() {
    let rule = "━".repeat(26);
    let r = PacketLossDetector::finish(LossCounter { sent: 500, received: 490 }, 10_250);
    assert_eq!(
        r.summary(),
        format!(
            "📊 Packet Loss Test Results\n{rule}\n\
             Sent:     500 packets\n\
             Received: 490 packets\n\
             Lost:     10 packets\n\
             Loss:     2.00% ⚠️\n\
             Grade:    Fair"
        )
    );
    let all = [(500, "⭐\nGrade:    Excellent"), (498, "✓\nGrade:    Good"), (400, "🔴\nGrade:    Poor")];
    for (received, end) in all {
        let r = PacketLossDetector::finish(LossCounter { sent: 500, received }, 1);
        assert!(r.summary().ends_with(end), "{}", r.summary());
        assert!(r.summary().ends_with(&format!("{:?}", r.grade)));
    }
}

#[test]
fn recommendation_by_loss_grade() {
    let with = |received| {
        PacketLossDetector::finish(LossCounter { sent: 500, received }, 1).recommendation()
    };
    assert_eq!(
        with(500),
        "Excellent! Your network has minimal packet loss. Perfect for VoIP, gaming, and streaming."
    );
    assert_eq!(
        with(498),
        "Good packet loss levels. Suitable for most online activities including video calls."
    );
    assert_eq!(
        with(490),
        "Moderate packet loss detected. May cause occasional issues with real-time applications. \
         Check your WiFi signal strength or contact your ISP."
    );
    assert_eq!(
        with(400),
        "High packet loss detected! This will cause significant issues with video calls, gaming, \
         and streaming. Recommendations:\n1. Check physical network cables\n\
         2. Move closer to WiFi router\n3. Reduce interference from other devices\n\
         4. Contact your ISP if problem persists"
    );
}
