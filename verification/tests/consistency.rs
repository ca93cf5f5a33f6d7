use speedtest_pro_backend::fixed::Fixed;
use speedtest_pro_backend::services::consistency::{ConsistencyCalculator, ConsistencyScore};

fn fx(x: f64) -> Fixed {
    Fixed::from_micros((x * 1_000_000.0).round() as i64)
}

fn val(x: Fixed) -> f64 {
    x.micros as f64 / 1_000_000.0
}

fn list(values: &[f64]) -> Vec<Fixed> {
    values.iter().map(|v| fx(*v)).collect()
}

#[test]
fn test_consistency_calculation() {
    // Stable connection
    let stable = list(&[100.0, 101.0, 99.0, 100.5, 99.5]);
    let score = ConsistencyCalculator::calculate(&stable);
    assert!(val(score.coefficient_of_variation) < 5.0);
    assert_eq!(score.stability_grade, "Excellent - Very stable");

    // Unstable connection
    let unstable = list(&[100.0, 50.0, 150.0, 75.0, 125.0]);
    let score = ConsistencyCalculator::calculate(&unstable);
    assert!(val(score.coefficient_of_variation) > 30.0);
    assert_eq!(score.stability_grade, "Poor - Highly unstable");
}

#[test]
fn test_mean_calculation() {
    let values = list(&[10.0, 20.0, 30.0]);
    assert_eq!(val(ConsistencyCalculator::calculate_mean(&values)), 20.0);
}

#[test]
fn score_of_measurements() {
    let score = ConsistencyCalculator::calculate(&list(&[100.0, 50.0, 150.0, 75.0, 125.0]));
    assert_eq!(score.mean_speed, fx(100.0));
    assert_eq!(score.std_deviation.micros, 35_355_339);
    assert_eq!(score.coefficient_of_variation.micros, 35_355_300);
    assert_eq!(score.measurements_range, (fx(50.0), fx(150.0)));
    let float = (1250.0f64).sqrt();
    assert!((val(score.std_deviation) - float).abs() < 0.00001);
}

#[test]
fn score_of_equal_measurements() {
    let score = ConsistencyCalculator::calculate(&list(&[42.0, 42.0, 42.0]));
    assert_eq!(score.mean_speed, fx(42.0));
    assert_eq!(score.std_deviation, fx(0.0));
    assert_eq!(score.coefficient_of_variation, fx(0.0));
    assert_eq!(score.stability_grade, "Excellent - Very stable");
    assert_eq!(score.measurements_range, (fx(42.0), fx(42.0)));
}

#[test]
fn score_of_no_measurement() {
    let score = ConsistencyCalculator::calculate(&Vec::new());
    assert_eq!(score.coefficient_of_variation, fx(0.0));
    assert_eq!(score.stability_grade, "Unknown");
    assert_eq!(score.mean_speed, fx(0.0));
    assert_eq!(score.std_deviation, fx(0.0));
    assert_eq!(score.measurements_range, (fx(0.0), fx(0.0)));
}

#[test]
fn score_where_the_mean_is_not_positive() {
    let score = ConsistencyCalculator::calculate(&list(&[-10.0, 10.0]));
    assert_eq!(score.mean_speed, fx(0.0));
    assert_eq!(score.std_deviation, fx(10.0));
    assert_eq!(score.coefficient_of_variation, fx(0.0));
    assert_eq!(score.measurements_range, (fx(-10.0), fx(10.0)));
}

#[test]
fn standard_deviation_about_a_center() {
    let values = list(&[2.0, 4.0, 4.0, 4.0, 5.0, 5.0, 7.0, 9.0]);
    assert_eq!(ConsistencyCalculator::calculate_std_deviation(&values, fx(5.0)), fx(2.0));
    assert_eq!(ConsistencyCalculator::calculate_std_deviation(&Vec::new(), fx(5.0)), fx(0.0));
    let far = vec![Fixed::from_micros(i64::MAX), Fixed::from_micros(i64::MIN)];
    let r = ConsistencyCalculator::calculate_std_deviation(&far, fx(0.0));
    assert_eq!(r, Fixed::from_micros(i64::MAX).sqrt());
}

#[test]
fn verdicts_on_the_coefficient_of_variation() {
    let grade = |cv: f64| ConsistencyCalculator::grade_consistency(fx(cv));
    assert_eq!(grade(0.0), "Excellent - Very stable");
    assert_eq!(grade(4.999999), "Excellent - Very stable");
    assert_eq!(grade(5.0), "Good - Minor fluctuations");
    assert_eq!(grade(14.999999), "Good - Minor fluctuations");
    assert_eq!(grade(15.0), "Fair - Noticeable variation");
    assert_eq!(grade(29.999999), "Fair - Noticeable variation");
    assert_eq!(grade(30.0), "Poor - Highly unstable");
}

fn score_with(cv: f64) -> ConsistencyScore {
    ConsistencyScore {
        coefficient_of_variation: fx(cv),
        stability_grade: ConsistencyCalculator::grade_consistency(fx(cv)),
        mean_speed: fx(100.0),
        std_deviation: fx(cv),
        measurements_range: (fx(50.0), fx(150.5)),
    }
}

#[test]
fn summary_of_a_score() {
    let rule = "━".repeat(30);
    assert_eq!(
        score_with(35.36).summary(),
        format!(
            "📊 Connection Consistency Analysis\n{rule}\n\
             Grade:              Poor - Highly unstable 🔴\n\
             Mean Speed:         100.00 Mbps\n\
             Std Deviation:      35.36 Mbps\n\
             Coefficient of Variation: 35.4%\n\
             Speed Range:        50.00 - 150.50 Mbps"
        )
    );
    assert!(score_with(1.0).summary().contains("Excellent - Very stable ⭐\n"));
    assert!(score_with(10.0).summary().contains("Good - Minor fluctuations ✓\n"));
    assert!(score_with(20.0).summary().contains("Fair - Noticeable variation ⚠️\n"));
}

#[test]
fn recommendation_by_the_coefficient_of_variation() {
    assert_eq!(
        score_with(4.9).recommendation(),
        "Excellent consistency! Your connection is very stable, ideal for all online activities."
    );
    assert_eq!(
        score_with(5.0).recommendation(),
        "Good consistency with minor fluctuations. Suitable for most activities."
    );
    assert_eq!(
        score_with(15.0).recommendation(),
        "Fair consistency with noticeable variations. May experience occasional slowdowns. \
         Consider:\n1. Checking for background downloads\n2. Reducing number of connected devices\n\
         3. Moving closer to WiFi router"
    );
    assert_eq!(
        score_with(30.0).recommendation(),
        "Poor consistency! Your connection speed varies significantly. This indicates:\n\
         1. Network congestion\n2. Weak WiFi signal\n3. ISP issues\n\
         4. Interference from other devices\n\nRecommendations:\n\
         - Use wired Ethernet connection\n- Test at different times\n- Contact your ISP"
    );
}
