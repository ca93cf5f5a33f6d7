//! Packet loss: the share of numbered packets that the far end did not
//! echo, and its grade. The library counts and grades; its caller sends and
//! receives.

use crate::fixed::Fixed;
use crate::text::{decimal, fixed_text, format_fixed, u64_text};
use vstd::prelude::*;

verus! {

#[derive(Debug, Clone, Copy, PartialEq, Eq, Structural)]
pub enum PacketLossGrade {
    Excellent,
    Good,
    Fair,
    Poor,
}

#[derive(Debug, Clone, Copy, PartialEq, Eq, Structural)]
pub struct PacketLossResult {
    pub sent_packets: u64,
    pub received_packets: u64,
    pub lost_packets: u64,
    /// The lost packets as a percentage of the packets sent.
    pub loss_percentage: Fixed,
    pub grade: PacketLossGrade,
    pub test_duration_ms: u64,
}

/// The grade of a loss of `loss` millionths of a percent.
pub open spec fn loss_grade_of(loss: int) -> PacketLossGrade {
    if loss < 100_000 {
        PacketLossGrade::Excellent
    } else if loss < 1_000_000 {
        PacketLossGrade::Good
    } else if loss < 3_000_000 {
        PacketLossGrade::Fair
    } else {
        PacketLossGrade::Poor
    }
}

/// The packets lost: those sent that were not received.
pub open spec fn lost_of(sent: int, received: int) -> int {
    if received <= sent {
        sent - received
    } else {
        0
    }
}

/// The packets lost as a percentage of those sent, in millionths; zero where
/// none was sent.
pub open spec fn loss_pct_of(sent: int, received: int) -> int {
    if sent > 0 {
        lost_of(sent, received) * 100_000_000 / sent
    } else {
        0
    }
}

impl PacketLossGrade {
    /// The name of the grade.
    pub open spec fn label(self) -> Seq<char> {
        match self {
            PacketLossGrade::Excellent => "Excellent"@,
            PacketLossGrade::Good => "Good"@,
            PacketLossGrade::Fair => "Fair"@,
            PacketLossGrade::Poor => "Poor"@,
        }
    }

    pub open spec fn emoji_text(self) -> Seq<char> {
        match self {
            PacketLossGrade::Excellent => "⭐"@,
            PacketLossGrade::Good => "✓"@,
            PacketLossGrade::Fair => "⚠️"@,
            PacketLossGrade::Poor => "🔴"@,
        }
    }

    pub open spec fn advice(self) -> Seq<char> {
        match self {
            PacketLossGrade::Excellent => "Excellent! Your network has minimal packet loss. Perfect for VoIP, gaming, and streaming."@,
            PacketLossGrade::Good => "Good packet loss levels. Suitable for most online activities including video calls."@,
            PacketLossGrade::Fair => "Moderate packet loss detected. May cause occasional issues with real-time applications. \
                 Check your WiFi signal strength or contact your ISP."@,
            PacketLossGrade::Poor => "High packet loss detected! This will cause significant issues with video calls, gaming, \
                 and streaming. Recommendations:\n\
                 1. Check physical network cables\n\
                 2. Move closer to WiFi router\n\
                 3. Reduce interference from other devices\n\
                 4. Contact your ISP if problem persists"@,
        }
    }
}

/// The payload of the packet with the given number.
pub open spec fn packet_text(sequence: int) -> Seq<char> {
    "SPEEDTEST_PACKET:"@ + decimal(sequence as nat)
}

/// The plan of a packet-loss test.
pub struct PacketLossDetector {
    packets_per_second: u32,
    test_duration_seconds: u32,
}

/// The packets sent and echoed so far in a packet-loss test.
#[derive(Debug, Clone, Copy, PartialEq, Eq, Structural)]
pub struct LossCounter {
    pub sent: u64,
    pub received: u64,
}

impl PacketLossDetector {
    pub closed spec fn packets_per_second(&self) -> u32 {
        self.packets_per_second
    }

    pub closed spec fn test_duration_seconds(&self) -> u32 {
        self.test_duration_seconds
    }

    /// A test of fifty packets a second for ten seconds.
    pub fn new() -> (d: PacketLossDetector)
        ensures
            d.packets_per_second() == 50,
            d.test_duration_seconds() == 10,
    {
        PacketLossDetector { packets_per_second: 50, test_duration_seconds: 10 }
    }

    /// How many packets the test sends.
    pub fn total_packets(&self) -> (n: u64)
        ensures
            n == self.packets_per_second() * self.test_duration_seconds(),
    {
        assert(self.packets_per_second * self.test_duration_seconds <= 0xffff_ffff * 0xffff_ffff)
            by (nonlinear_arith)
            requires
                self.packets_per_second <= 0xffff_ffff,
                self.test_duration_seconds <= 0xffff_ffff,
        ;
        (self.packets_per_second as u64) * (self.test_duration_seconds as u64)
    }

    /// The pause between two packets in whole milliseconds; none where the
    /// test sends no packet.
    pub fn interval_ms(&self) -> (ms: Option<u64>)
        ensures
            ms == if self.packets_per_second() > 0 {
                Some((1000int / self.packets_per_second() as int) as u64)
            } else {
                None::<u64>
            },
    {
        if self.packets_per_second > 0 {
            Some(1000 / self.packets_per_second as u64)
        } else {
            None
        }
    }

    /// The payload of the packet with the given number.
    pub fn packet(sequence: u64) -> (payload: String)
        ensures
            payload@ == packet_text(sequence as int),
    {
        let mut payload = String::from_str("SPEEDTEST_PACKET:");
        payload.append(u64_text(sequence).as_str());
        payload
    }

    /// The outcome of a test that sent `counter.sent` packets, saw
    /// `counter.received` of them echoed and took `elapsed_ms`.
    pub fn finish(counter: LossCounter, elapsed_ms: u64) -> (r: PacketLossResult)
        ensures
            r.sent_packets == counter.sent,
            r.received_packets == counter.received,
            r.lost_packets == lost_of(counter.sent as int, counter.received as int),
            r.loss_percentage@ == loss_pct_of(counter.sent as int, counter.received as int),
            r.grade == loss_grade_of(r.loss_percentage@),
            r.test_duration_ms == elapsed_ms,
    {
        let lost: u64 = if counter.received <= counter.sent {
            counter.sent - counter.received
        } else {
            0
        };
        let loss_percentage = if counter.sent > 0 {
            let scaled: u128 = (lost as u128) * 100_000_000;
            let pct: u128 = scaled / (counter.sent as u128);
            assert(pct <= 100_000_000) by (nonlinear_arith)
                requires
                    pct == scaled / (counter.sent as u128),
                    scaled == lost * 100_000_000,
                    lost <= counter.sent,
                    counter.sent > 0,
            ;
            Fixed { micros: pct as i64 }
        } else {
            Fixed::zero()
        };
        PacketLossResult {
            sent_packets: counter.sent,
            received_packets: counter.received,
            lost_packets: lost,
            loss_percentage,
            grade: Self::calculate_grade(loss_percentage),
            test_duration_ms: elapsed_ms,
        }
    }

    /// The grade of a loss given in percent.
    pub fn calculate_grade(loss_percentage: Fixed) -> (g: PacketLossGrade)
        ensures
            g == loss_grade_of(loss_percentage@),
    {
        if loss_percentage.micros < 100_000 {
            PacketLossGrade::Excellent
        } else if loss_percentage.micros < 1_000_000 {
            PacketLossGrade::Good
        } else if loss_percentage.micros < 3_000_000 {
            PacketLossGrade::Fair
        } else {
            PacketLossGrade::Poor
        }
    }
}

impl LossCounter {
    /// A counter that has seen nothing.
    pub fn new() -> (c: LossCounter)
        ensures
            c.sent == 0,
            c.received == 0,
    {
        LossCounter { sent: 0, received: 0 }
    }

    /// The counter after one more attempt. The counts stop at the largest
    /// count.
    pub open spec fn after(self, sent: bool, echoed: bool) -> LossCounter {
        if sent && self.sent < u64::MAX {
            LossCounter {
                sent: (self.sent + 1) as u64,
                received: if echoed && self.received < u64::MAX {
                    (self.received + 1) as u64
                } else {
                    self.received
                },
            }
        } else {
            self
        }
    }

    /// Takes in one attempt: a packet that could be sent counts as sent, and
    /// as received where its echo came back in time. A packet that could not
    /// be sent counts as neither. No more packets count as received than as
    /// sent.
    pub fn record(&mut self, sent: bool, echoed: bool)
        ensures
            *final(self) == old(self).after(sent, echoed),
            old(self).received <= old(self).sent ==> final(self).received <= final(self).sent,
    {
        if sent && self.sent < u64::MAX {
            self.sent = self.sent + 1;
            if echoed && self.received < u64::MAX {
                self.received = self.received + 1;
            }
        }
    }
}

impl PacketLossResult {
    /// The text of the summary.
    pub open spec fn summary_text(self) -> Seq<char> {
        "📊 Packet Loss Test Results\n"@ + "━━━━━━━━━━━━━━━━━━━━━━━━━━\n"@ + "Sent:     "@ + decimal(
            self.sent_packets as nat,
        ) + " packets\n"@ + "Received: "@ + decimal(self.received_packets as nat)
            + " packets\n"@ + "Lost:     "@ + decimal(self.lost_packets as nat) + " packets\n"@
            + "Loss:     "@ + fixed_text(self.loss_percentage@, 2) + "% "@
            + self.grade.emoji_text() + "\nGrade:    "@ + self.grade.label()
    }

    /// The result in a few lines.
    pub fn summary(&self) -> (s: String)
        ensures
            s@ == self.summary_text(),
    {
        let mut s = String::from_str("📊 Packet Loss Test Results\n");
        s.append("━━━━━━━━━━━━━━━━━━━━━━━━━━\n");
        s.append("Sent:     ");
        s.append(u64_text(self.sent_packets).as_str());
        s.append(" packets\n");
        s.append("Received: ");
        s.append(u64_text(self.received_packets).as_str());
        s.append(" packets\n");
        s.append("Lost:     ");
        s.append(u64_text(self.lost_packets).as_str());
        s.append(" packets\n");
        s.append("Loss:     ");
        s.append(format_fixed(self.loss_percentage, 2).as_str());
        s.append("% ");
        s.append(
            match self.grade {
                PacketLossGrade::Excellent => "⭐",
                PacketLossGrade::Good => "✓",
                PacketLossGrade::Fair => "⚠️",
                PacketLossGrade::Poor => "🔴",
            },
        );
        s.append("\nGrade:    ");
        s.append(
            match self.grade {
                PacketLossGrade::Excellent => "Excellent",
                PacketLossGrade::Good => "Good",
                PacketLossGrade::Fair => "Fair",
                PacketLossGrade::Poor => "Poor",
            },
        );
        s
    }

    /// What to tell the user, by the grade.
    pub fn recommendation(&self) -> (s: &'static str)
        ensures
            s@ == self.grade.advice(),
    {
        match self.grade {
            PacketLossGrade::Excellent => "Excellent! Your network has minimal packet loss. Perfect for VoIP, gaming, and streaming.",
            PacketLossGrade::Good => "Good packet loss levels. Suitable for most online activities including video calls.",
            PacketLossGrade::Fair => "Moderate packet loss detected. May cause occasional issues with real-time applications. \
                 Check your WiFi signal strength or contact your ISP.",
            PacketLossGrade::Poor => "High packet loss detected! This will cause significant issues with video calls, gaming, \
                 and streaming. Recommendations:\n\
                 1. Check physical network cables\n\
                 2. Move closer to WiFi router\n\
                 3. Reduce interference from other devices\n\
                 4. Contact your ISP if problem persists",
        }
    }
}

} // verus!
