//! How steady the speed of a connection is: the spread of its speed
//! measurements about their mean.

use crate::fixed::{lemma_mean_within, mean, mean_of, is_sqrt, Fixed, SCALE};
use crate::stats::{lemma_minimum_maximum, maximum, minimum};
use crate::text::{fixed_text, format_fixed};
use vstd::prelude::*;

verus! {

#[derive(Debug)]
pub struct ConsistencyScore {
    /// The standard deviation as a percentage of the mean.
    pub coefficient_of_variation: Fixed,
    pub stability_grade: String,
    pub mean_speed: Fixed,
    pub std_deviation: Fixed,
    /// The least and the greatest measurement.
    pub measurements_range: (Fixed, Fixed),
}

pub struct ConsistencyCalculator;

/// The square of the distance of each measurement from `center`.
pub open spec fn squares(s: Seq<Fixed>, center: Fixed) -> Seq<Fixed> {
    Seq::new(
        s.len(),
        |i: int|
            {
                let d = Fixed { micros: s[i].sub_spec(center) as i64 };
                Fixed { micros: d.mul_spec(d) as i64 }
            },
    )
}

/// The variance of the measurements: the mean of the squares of their
/// distances from their mean.
pub open spec fn variance_of(s: Seq<Fixed>) -> int {
    mean(squares(s, Fixed { micros: mean(s) as i64 }))
}

/// The standard deviation as a percentage of the mean; zero where the mean
/// is not positive.
pub open spec fn variation_of(std_dev: Fixed, mean_speed: Fixed) -> int {
    if mean_speed@ > 0 {
        (Fixed { micros: std_dev.div_spec(mean_speed) as i64 }).mul_spec(
            Fixed { micros: 100_000_000 },
        )
    } else {
        0
    }
}

/// The verdict on a coefficient of variation.
pub open spec fn consistency_label(cv: int) -> Seq<char> {
    if cv < 5_000_000 {
        "Excellent - Very stable"@
    } else if cv < 15_000_000 {
        "Good - Minor fluctuations"@
    } else if cv < 30_000_000 {
        "Fair - Noticeable variation"@
    } else {
        "Poor - Highly unstable"@
    }
}

/// The mark of a coefficient of variation.
pub open spec fn consistency_mark(cv: int) -> Seq<char> {
    if cv < 5_000_000 {
        "⭐"@
    } else if cv < 15_000_000 {
        "✓"@
    } else if cv < 30_000_000 {
        "⚠️"@
    } else {
        "🔴"@
    }
}

/// The advice on a coefficient of variation.
pub open spec fn consistency_advice(cv: int) -> Seq<char> {
    if cv < 5_000_000 {
        "Excellent consistency! Your connection is very stable, ideal for all online activities."@
    } else if cv < 15_000_000 {
        "Good consistency with minor fluctuations. Suitable for most activities."@
    } else if cv < 30_000_000 {
        "Fair consistency with noticeable variations. May experience occasional slowdowns. \
             Consider:\n\
             1. Checking for background downloads\n\
             2. Reducing number of connected devices\n\
             3. Moving closer to WiFi router"@
    } else {
        "Poor consistency! Your connection speed varies significantly. This indicates:\n\
             1. Network congestion\n\
             2. Weak WiFi signal\n\
             3. ISP issues\n\
             4. Interference from other devices\n\n\
             Recommendations:\n\
             - Use wired Ethernet connection\n\
             - Test at different times\n\
             - Contact your ISP"@
    }
}

impl ConsistencyScore {
    /// This is the score of the measurements `s`.
    pub open spec fn describes(self, s: Seq<Fixed>) -> bool {
        if s.len() == 0 {
            &&& self.coefficient_of_variation@ == 0
            &&& self.stability_grade@ == "Unknown"@
            &&& self.mean_speed@ == 0
            &&& self.std_deviation@ == 0
            &&& self.measurements_range.0@ == 0
            &&& self.measurements_range.1@ == 0
        } else {
            &&& self.mean_speed@ == mean(s)
            &&& variance_of(s) >= 0
            &&& is_sqrt(variance_of(s) * SCALE, self.std_deviation@)
            &&& self.coefficient_of_variation@ == variation_of(self.std_deviation, self.mean_speed)
            &&& self.stability_grade@ == consistency_label(self.coefficient_of_variation@)
            &&& self.measurements_range.0@ == minimum(s)
            &&& self.measurements_range.1@ == maximum(s)
        }
    }

    /// The text of the summary.
    pub open spec fn summary_text(self) -> Seq<char> {
        "📊 Connection Consistency Analysis\n"@ + "━━━━━━━━━━━━━━━━━━━━━━━━━━━━━━\n"@
            + "Grade:              "@ + self.stability_grade@ + " "@ + consistency_mark(
            self.coefficient_of_variation@,
        ) + "\nMean Speed:         "@ + fixed_text(self.mean_speed@, 2) + " Mbps\n"@
            + "Std Deviation:      "@ + fixed_text(self.std_deviation@, 2) + " Mbps\n"@
            + "Coefficient of Variation: "@ + fixed_text(self.coefficient_of_variation@, 1)
            + "%\n"@ + "Speed Range:        "@ + fixed_text(self.measurements_range.0@, 2)
            + " - "@ + fixed_text(self.measurements_range.1@, 2) + " Mbps"@
    }

    /// The score in a few lines.
    pub fn summary(&self) -> (s: String)
        ensures
            s@ == self.summary_text(),
    {
        let cv = self.coefficient_of_variation.micros;
        let mut s = String::from_str("📊 Connection Consistency Analysis\n");
        s.append("━━━━━━━━━━━━━━━━━━━━━━━━━━━━━━\n");
        s.append("Grade:              ");
        s.append(self.stability_grade.as_str());
        s.append(" ");
        s.append(
            if cv < 5_000_000 {
                "⭐"
            } else if cv < 15_000_000 {
                "✓"
            } else if cv < 30_000_000 {
                "⚠️"
            } else {
                "🔴"
            },
        );
        s.append("\nMean Speed:         ");
        s.append(format_fixed(self.mean_speed, 2).as_str());
        s.append(" Mbps\n");
        s.append("Std Deviation:      ");
        s.append(format_fixed(self.std_deviation, 2).as_str());
        s.append(" Mbps\n");
        s.append("Coefficient of Variation: ");
        s.append(format_fixed(self.coefficient_of_variation, 1).as_str());
        s.append("%\n");
        s.append("Speed Range:        ");
        s.append(format_fixed(self.measurements_range.0, 2).as_str());
        s.append(" - ");
        s.append(format_fixed(self.measurements_range.1, 2).as_str());
        s.append(" Mbps");
        s
    }

    /// What to tell the user, by the coefficient of variation.
    pub fn recommendation(&self) -> (s: &'static str)
        ensures
            s@ == consistency_advice(self.coefficient_of_variation@),
    {
        let cv = self.coefficient_of_variation.micros;
        if cv < 5_000_000 {
            "Excellent consistency! Your connection is very stable, ideal for all online activities."
        } else if cv < 15_000_000 {
            "Good consistency with minor fluctuations. Suitable for most activities."
        } else if cv < 30_000_000 {
            "Fair consistency with noticeable variations. May experience occasional slowdowns. \
             Consider:\n\
             1. Checking for background downloads\n\
             2. Reducing number of connected devices\n\
             3. Moving closer to WiFi router"
        } else {
            "Poor consistency! Your connection speed varies significantly. This indicates:\n\
             1. Network congestion\n\
             2. Weak WiFi signal\n\
             3. ISP issues\n\
             4. Interference from other devices\n\n\
             Recommendations:\n\
             - Use wired Ethernet connection\n\
             - Test at different times\n\
             - Contact your ISP"
        }
    }
}

impl ConsistencyCalculator {
    /// The consistency score of the speed measurements.
    pub fn calculate(measurements: &[Fixed]) -> (r: ConsistencyScore)
        ensures
            r.describes(measurements@),
    {
        let n: usize = measurements.len();
        if n == 0 {
            return ConsistencyScore {
                coefficient_of_variation: Fixed::zero(),
                stability_grade: String::from_str("Unknown"),
                mean_speed: Fixed::zero(),
                std_deviation: Fixed::zero(),
                measurements_range: (Fixed::zero(), Fixed::zero()),
            };
        }
        let mean_speed = Self::calculate_mean(measurements);
        let std_deviation = Self::calculate_std_deviation(measurements, mean_speed);
        let cv = if mean_speed.micros > 0 {
            std_deviation.saturating_div(mean_speed).saturating_mul(Fixed::from_int(100))
        } else {
            Fixed::zero()
        };
        let grade = Self::grade_consistency(cv);
        let mut lo = measurements[0];
        let mut hi = measurements[0];
        let mut i: usize = 1;
        while i < n
            invariant
                n == measurements.len(),
                1 <= i <= n,
                forall|k: int| 0 <= k < i ==> lo@ <= #[trigger] measurements@[k]@ <= hi@,
                exists|k: int| 0 <= k < i && measurements@[k]@ == lo@,
                exists|k: int| 0 <= k < i && measurements@[k]@ == hi@,
            decreases n - i,
        {
            let x = measurements[i];
            if x.micros < lo.micros {
                lo = x;
            }
            if x.micros > hi.micros {
                hi = x;
            }
            assert(measurements@[i as int]@ == x@);
            i = i + 1;
        }
        proof {
            lemma_minimum_maximum(measurements@);
            let a: int = choose|k: int| 0 <= k < n && measurements@[k]@ == lo@;
            let b: int = choose|k: int| 0 <= k < n && measurements@[k]@ == hi@;
            assert(minimum(measurements@) <= measurements@[a]@);
            assert(measurements@[b]@ <= maximum(measurements@));
            assert(Fixed { micros: mean(measurements@) as i64 } == mean_speed);
        }
        ConsistencyScore {
            coefficient_of_variation: cv,
            stability_grade: grade,
            mean_speed,
            std_deviation,
            measurements_range: (lo, hi),
        }
    }

    /// The mean of the values; zero where there is none.
    pub fn calculate_mean(values: &[Fixed]) -> (r: Fixed)
        ensures
            r@ == mean(values@),
    {
        mean_of(values)
    }

    /// The standard deviation of the values about `center`: the square root,
    /// rounded down, of the mean of the squares of their distances from it.
    pub fn calculate_std_deviation(values: &[Fixed], center: Fixed) -> (r: Fixed)
        ensures
            mean(squares(values@, center)) >= 0,
            is_sqrt(mean(squares(values@, center)) * SCALE, r@),
    {
        let n: usize = values.len();
        let mut squared: Vec<Fixed> = Vec::new();
        let mut i: usize = 0;
        while i < n
            invariant
                n == values.len(),
                0 <= i <= n,
                squared@ == squares(values@, center).take(i as int),
                forall|k: int| 0 <= k < i ==> 0 <= #[trigger] squared@[k]@ <= i64::MAX,
            decreases n - i,
        {
            let d = values[i].saturating_sub(center);
            let sq = d.saturating_mul(d);
            proof {
                let dd: int = d@;
                assert(dd * dd >= 0) by (nonlinear_arith);
                assert(sq == squares(values@, center)[i as int]);
            }
            squared.push(sq);
            assert(squared@ =~= squares(values@, center).take(i + 1));
            i = i + 1;
        }
        proof {
            assert(squares(values@, center).take(n as int) =~= squares(values@, center));
            if n > 0 {
                lemma_mean_within(squared@, 0, i64::MAX as int);
            }
        }
        let variance = mean_of(squared.as_slice());
        variance.sqrt()
    }

    /// The verdict on a coefficient of variation.
    pub fn grade_consistency(cv: Fixed) -> (s: String)
        ensures
            s@ == consistency_label(cv@),
    {
        String::from_str(
            if cv.micros < 5_000_000 {
                "Excellent - Very stable"
            } else if cv.micros < 15_000_000 {
                "Good - Minor fluctuations"
            } else if cv.micros < 30_000_000 {
                "Fair - Noticeable variation"
            } else {
                "Poor - Highly unstable"
            },
        )
    }
}

} // verus!
