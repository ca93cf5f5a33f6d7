use speedtest_pro_backend::fixed::Fixed;
use speedtest_pro_backend::services::aim_scoring::QualityGrade;
use speedtest_pro_backend::services::binary_protocol::{BinaryMessage, TestStage};
use speedtest_pro_backend::services::loaded_latency::{BufferbloatGrade, ProbeError};
use speedtest_pro_backend::services::session::{
    probe_due, Session, SessionError, SessionStage, IDLE_DELAY_MS, IDLE_SAMPLES,
    PROBE_INTERVAL_MS, PROBE_TIMEOUT_MS,
};

fn fx(x: f64) -> Fixed {
    Fixed::from_micros((x * 1_000_000.0).round() as i64)
}

fn session() -> Session {
    Session::new("mumbai-01".to_string(), "1.2.3.4".to_string(), "test-1")
}

fn shown(message: Option<BinaryMessage>) -> Option<(TestStage, u8)> {
    match message {
        Some(BinaryMessage::Progress {
            stage,
            progress_pct,
            current_speed_mbps,
            current_latency_ms,
        }) => {
            assert_eq!(current_speed_mbps, fx(0.0));
            assert_eq!(current_latency_ms, fx(0.0));
            Some((stage, progress_pct))
        }
        Some(other) => panic!("no progress message: {other:?}"),
        None => None,
    }
}

fn measured() -> Session {
    let mut s = session();
    for _ in 0..IDLE_SAMPLES {
        assert_eq!(s.record_probe(Ok(fx(15.0))), Ok(Some(fx(15.0))));
    }
    assert!(s.begin_download());
    for _ in 0..10 {
        assert_eq!(s.record_probe(Ok(fx(95.0))), Ok(Some(fx(95.0))));
    }
    assert!(s.begin_upload(fx(300.0)));
    for _ in 0..10 {
        assert_eq!(s.record_probe(Ok(fx(180.0))), Ok(Some(fx(180.0))));
    }
    s
}

#[test]
fn cadence_of_a_session() {
    assert_eq!(IDLE_SAMPLES, 20);
    assert_eq!(IDLE_DELAY_MS, 100);
    assert_eq!(PROBE_INTERVAL_MS, 500);
    assert_eq!(PROBE_TIMEOUT_MS, 5000);
    assert!(!probe_due(0));
    assert!(!probe_due(499));
    assert!(probe_due(500));
    assert!(probe_due(u64::MAX));
}

#[test]
fn failures_of_probes_by_their_signs() {
    assert_eq!(ProbeError::from_signs(true, true, true), ProbeError::Timeout);
    assert_eq!(ProbeError::from_signs(true, false, false), ProbeError::Timeout);
    assert_eq!(ProbeError::from_signs(false, true, true), ProbeError::ConnectionReset);
    assert_eq!(ProbeError::from_signs(false, false, true), ProbeError::ConnectionRefused);
    assert_eq!(ProbeError::from_signs(false, false, false), ProbeError::Other);
}

#[test]
fn a_session_gives_its_result_after_all_stages() {
    let mut s = measured();
    assert_eq!(s.current_stage(), SessionStage::UploadLoaded);
    let e = s.finalize(fx(50.0), 10_000).unwrap();
    assert_eq!(s.current_stage(), SessionStage::Finalized);
    assert_eq!(e.basic.id, "test-1");
    assert_eq!(e.basic.server_id, "mumbai-01");
    assert_eq!(e.basic.client_ip, "1.2.3.4");
    assert_eq!(e.basic.download_mbps, fx(300.0));
    assert_eq!(e.basic.upload_mbps, fx(50.0));
    assert_eq!(e.basic.latency_ms, fx(15.0));
    assert_eq!(e.basic.jitter_ms, fx(0.0));
    assert_eq!(e.basic.test_duration_ms, 10_000);
    let loaded = e.loaded_latency.unwrap();
    assert_eq!(loaded.idle_samples.len(), 20);
    assert_eq!(loaded.download_samples.len(), 10);
    assert_eq!(loaded.upload_samples.len(), 10);
    assert_eq!(loaded.bufferbloat_upload_ratio, fx(11.0));
    assert_eq!(loaded.bufferbloat_grade, BufferbloatGrade::F);
    let aim = e.aim_scores.unwrap();
    assert_eq!(aim.gaming.score, fx(5.0 + 25.0 + 15.0 + 10.0));
    assert_eq!(aim.streaming.score, fx(40.0 + 25.0 + 20.0 + 10.0));
    assert_eq!(aim.video_conferencing.score, fx(30.0 + 10.0 + 25.0 + 15.0));
    assert_eq!(aim.general_browsing.score, fx(100.0));
    assert_eq!(aim.overall_score, fx(82.5));
    assert_eq!(aim.overall_grade, QualityGrade::Good);
    assert!(e.ai_insights.is_none());
}

#[test]
fn jitter_of_a_session_comes_from_its_idle_samples() {
    let mut s = session();
    for latency in [10.0, 11.0, 10.5, 12.0, 11.5] {
        s.record_probe(Ok(fx(latency))).unwrap();
    }
    s.begin_download();
    s.begin_upload(fx(100.0));
    let e = s.finalize(fx(10.0), 1).unwrap();
    assert_eq!(e.basic.jitter_ms, fx(0.875));
    assert_eq!(e.basic.latency_ms, fx(11.0));
}

#[test]
fn a_result_is_given_once() {
    let mut s = measured();
    assert!(s.finalize(fx(50.0), 10_000).is_some());
    assert!(s.finalize(fx(50.0), 10_000).is_none());
    assert_eq!(s.current_stage(), SessionStage::Finalized);
    assert_eq!(s.record_probe(Ok(fx(1.0))), Err(SessionError::Closed));
    assert!(!s.begin_download());
    assert!(!s.begin_upload(fx(1.0)));
    assert_eq!(s.transfer_failed(), None);
    s.cancel();
    assert_eq!(s.current_stage(), SessionStage::Finalized);
    assert_eq!(shown(s.report_progress(TestStage::Complete, 100)), Some((TestStage::Complete, 100)));
}

#[test]
fn no_stage_is_skipped() {
    let mut s = session();
    assert!(!s.begin_upload(fx(1.0)));
    assert!(s.finalize(fx(1.0), 1).is_none());
    assert_eq!(s.current_stage(), SessionStage::Idle);
    assert!(s.begin_download());
    assert!(!s.begin_download());
    assert!(s.finalize(fx(1.0), 1).is_none());
    assert_eq!(s.current_stage(), SessionStage::DownloadLoaded);
    assert!(s.begin_upload(fx(1.0)));
    assert!(!s.begin_upload(fx(2.0)));
    assert!(!s.begin_download());
    assert_eq!(s.current_stage(), SessionStage::UploadLoaded);
    let e = s.finalize(fx(3.0), 1).unwrap();
    assert_eq!(e.basic.download_mbps, fx(1.0));
    assert_eq!(e.basic.upload_mbps, fx(3.0));
}

#[test]
fn a_failed_idle_probe_aborts_the_session() {
    for error in [
        ProbeError::Timeout,
        ProbeError::ConnectionRefused,
        ProbeError::ConnectionReset,
        ProbeError::Other,
    ] {
        let mut s = session();
        s.record_probe(Ok(fx(15.0))).unwrap();
        assert_eq!(s.record_probe(Err(error)), Err(SessionError::IdleProbe(error)));
        assert_eq!(s.current_stage(), SessionStage::Aborted);
        assert!(!s.wants_idle_probe(IDLE_SAMPLES));
        assert_eq!(s.record_probe(Ok(fx(15.0))), Err(SessionError::Closed));
        assert!(!s.begin_download());
        assert!(s.finalize(fx(1.0), 1).is_none());
        assert!(s.report_progress(TestStage::IdleLatency, 50).is_none());
    }
}

#[test]
fn a_failed_probe_under_load_is_passed_over() {
    let mut s = session();
    s.record_probe(Ok(fx(15.0))).unwrap();
    s.begin_download();
    assert_eq!(s.record_probe(Err(ProbeError::Timeout)), Ok(None));
    assert_eq!(s.record_probe(Ok(fx(30.0))), Ok(Some(fx(30.0))));
    assert_eq!(s.current_stage(), SessionStage::DownloadLoaded);
    s.begin_upload(fx(10.0));
    assert_eq!(s.record_probe(Err(ProbeError::ConnectionReset)), Ok(None));
    assert_eq!(s.record_probe(Err(ProbeError::ConnectionRefused)), Ok(None));
    assert_eq!(s.current_stage(), SessionStage::UploadLoaded);
    let e = s.finalize(fx(1.0), 1).unwrap();
    let loaded = e.loaded_latency.unwrap();
    assert_eq!(loaded.download_samples, vec![fx(30.0)]);
    assert!(loaded.upload_samples.is_empty());
    assert_eq!(loaded.upload_avg_ms, fx(0.0));
}

#[test]
fn a_session_torn_down_during_download_gives_no_result() {
    let mut s = session();
    for _ in 0..IDLE_SAMPLES {
        s.record_probe(Ok(fx(15.0))).unwrap();
    }
    s.begin_download();
    s.record_probe(Ok(fx(95.0))).unwrap();
    s.cancel();
    assert_eq!(s.current_stage(), SessionStage::Aborted);
    assert!(!s.begin_upload(fx(300.0)));
    assert_eq!(s.record_probe(Ok(fx(180.0))), Err(SessionError::Closed));
    assert!(s.finalize(fx(50.0), 10_000).is_none());
    assert!(s.report_progress(TestStage::Complete, 100).is_none());
    s.cancel();
    assert_eq!(s.transfer_failed(), None);
    assert!(s.finalize(fx(50.0), 10_000).is_none());
    assert_eq!(s.current_stage(), SessionStage::Aborted);
}

#[test]
fn a_session_can_be_torn_down_at_every_stage() {
    for passed in 0..3 {
        let mut s = session();
        if passed >= 1 {
            s.begin_download();
        }
        if passed >= 2 {
            s.begin_upload(fx(1.0));
        }
        s.cancel();
        assert_eq!(s.current_stage(), SessionStage::Aborted);
        assert!(s.finalize(fx(1.0), 1).is_none());
    }
}

#[test]
fn a_failed_transfer_aborts_the_session() {
    for passed in 0..3 {
        let mut s = session();
        if passed >= 1 {
            s.begin_download();
        }
        if passed >= 2 {
            s.begin_upload(fx(1.0));
        }
        let stage = s.current_stage();
        assert_eq!(s.transfer_failed(), Some(SessionError::Transfer(stage)));
        assert_eq!(s.current_stage(), SessionStage::Aborted);
        assert_eq!(s.transfer_failed(), None);
        assert!(s.finalize(fx(1.0), 1).is_none());
    }
}

#[test]
fn idle_probes_are_wanted_until_enough_were_taken() {
    let mut s = session();
    for _ in 0..3 {
        assert!(s.wants_idle_probe(3));
        s.record_probe(Ok(fx(15.0))).unwrap();
    }
    assert!(!s.wants_idle_probe(3));
    assert!(s.wants_idle_probe(4));
    assert!(!s.wants_idle_probe(0));
    s.begin_download();
    assert!(!s.wants_idle_probe(100));
}

#[test]
fn progress_never_goes_down_and_stops_at_a_hundred() {
    let mut s = session();
    assert_eq!(shown(s.report_progress(TestStage::Initializing, 0)), Some((TestStage::Initializing, 0)));
    assert_eq!(shown(s.report_progress(TestStage::IdleLatency, 10)), Some((TestStage::IdleLatency, 10)));
    assert_eq!(shown(s.report_progress(TestStage::IdleLatency, 5)), Some((TestStage::IdleLatency, 10)));
    s.begin_download();
    assert_eq!(shown(s.report_progress(TestStage::Download, 30)), Some((TestStage::Download, 30)));
    assert_eq!(shown(s.report_progress(TestStage::Download, 30)), Some((TestStage::Download, 30)));
    assert_eq!(shown(s.report_progress(TestStage::Download, 57)), Some((TestStage::Download, 57)));
    s.begin_upload(fx(1.0));
    assert_eq!(shown(s.report_progress(TestStage::Upload, 0)), Some((TestStage::Upload, 57)));
    assert_eq!(shown(s.report_progress(TestStage::Upload, 200)), Some((TestStage::Upload, 100)));
    assert_eq!(shown(s.report_progress(TestStage::Finalizing, 255)), Some((TestStage::Finalizing, 100)));
    s.finalize(fx(1.0), 1).unwrap();
    assert_eq!(shown(s.report_progress(TestStage::Complete, 90)), Some((TestStage::Complete, 100)));
}
