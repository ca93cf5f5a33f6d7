use speedtest_pro_backend::config::AppConfig;
use speedtest_pro_backend::fixed::Fixed;
use speedtest_pro_backend::handlers::download::{
    download_test, served_size_mb, upload_test, DownloadQuery, BYTES_PER_MB, DEFAULT_SIZE_MB,
    MAX_SIZE_MB,
};
use speedtest_pro_backend::handlers::enhanced_test::{
    get_enhanced_result, probe_step, start_enhanced_test, step_percent, step_stage,
    EnhancedResultQuery, EnhancedTestRequest, Step, LOADED_PROBES,
};
use speedtest_pro_backend::handlers::health::health_check;
use speedtest_pro_backend::handlers::servers::get_servers;
use speedtest_pro_backend::handlers::test::{
    failure_message, get_history, get_result, probe_target, start_test, test_duration_ms,
    websocket_url, Lookup,
};
use speedtest_pro_backend::models::{Location, StartTestRequest};
use speedtest_pro_backend::services::binary_protocol::TestStage;

#[test]
fn size_of_a_download() {
    assert_eq!((DEFAULT_SIZE_MB, MAX_SIZE_MB, BYTES_PER_MB), (10, 100, 1024 * 1024));
    assert_eq!(served_size_mb(&DownloadQuery { size_mb: None }), 10);
    assert_eq!(served_size_mb(&DownloadQuery { size_mb: Some(0) }), 0);
    assert_eq!(served_size_mb(&DownloadQuery { size_mb: Some(1) }), 1);
    assert_eq!(served_size_mb(&DownloadQuery { size_mb: Some(100) }), 100);
    assert_eq!(served_size_mb(&DownloadQuery { size_mb: Some(101) }), 100);
    assert_eq!(served_size_mb(&DownloadQuery { size_mb: Some(usize::MAX) }), 100);
}

#[test]
fn response_to_a_download() {
    let r = download_test(&DownloadQuery { size_mb: Some(2) });
    assert_eq!(r.size_mb, 2);
    assert_eq!(r.body.len(), 2 * 1024 * 1024);
    assert_eq!(r.content_type, "application/octet-stream");
    assert_eq!(r.content_disposition, "attachment; filename=\"speedtest-2.bin\"");
    assert_eq!(r.cache_control, "no-cache, no-store, must-revalidate");
    assert!(r.body.iter().any(|b| *b != r.body[0]));
    let empty = download_test(&DownloadQuery { size_mb: Some(0) });
    assert!(empty.body.is_empty());
    assert_eq!(empty.content_disposition, "attachment; filename=\"speedtest-0.bin\"");
}

#[test]
fn receipt_for_an_upload() {
    let r = upload_test(3 * 1024 * 1024);
    assert!(r.success);
    assert_eq!(r.bytes_received, 3 * 1024 * 1024);
    assert_eq!(r.size_mb, Fixed::from_int(3));
    assert_eq!(upload_test(0).size_mb, Fixed::zero());
    assert_eq!(upload_test(1).size_mb, Fixed::zero());
    assert_eq!(upload_test(524_288).size_mb, Fixed::from_micros(500_000));
}

#[test]
fn health_of_the_server() {
    let status = health_check("1.2.3", 77);
    assert_eq!(status.status, "healthy");
    assert_eq!(status.version, "1.2.3");
    assert_eq!(status.uptime_seconds, 77);
    assert_eq!(status.active_tests, 0);
}

#[test]
fn list_of_servers() {
    let servers = get_servers(&AppConfig::default());
    assert_eq!(servers.len(), 1);
    assert_eq!(servers[0].id, "mumbai-01");
    assert_eq!(servers[0].name, "Mumbai, India");
    assert_eq!(
        servers[0].location,
        Location { lat: Fixed::from_micros(19_076_000), lon: Fixed::from_micros(72_877_700) }
    );
    assert!(servers[0].available);
    assert_eq!(servers[0].load, Fixed::from_micros(300_000));
}

#[test]
fn start_of_a_test() {
    let config = AppConfig::default();
    let r = start_test(&config);
    assert_eq!(r.test_id.len(), 36);
    assert_eq!(r.server_id, "mumbai-01");
    assert_eq!(r.websocket_url, format!("ws://127.0.0.1:8080/ws/test/{}", r.test_id));
    let e = start_enhanced_test(&config);
    assert_eq!(e.test_id.len(), 36);
    assert_ne!(e.test_id, r.test_id);
    assert_eq!(e.server_id, "mumbai-01");
    assert_eq!(e.websocket_url, format!("ws://127.0.0.1:8080/ws/enhanced/{}", e.test_id));
    assert_eq!(websocket_url(&config, "/x/", ""), "ws://127.0.0.1:8080/x/");
    assert_eq!(probe_target(&config), "127.0.0.1:8080");
}

#[test]
fn duration_of_a_test_stays_within_the_limits() {
    let config = AppConfig::default();
    let asked = |duration_ms| StartTestRequest { duration_ms, protocol: None };
    assert_eq!(test_duration_ms(&asked(None), &config), 10000);
    assert_eq!(test_duration_ms(&asked(Some(7000)), &config), 7000);
    assert_eq!(test_duration_ms(&asked(Some(5000)), &config), 5000);
    assert_eq!(test_duration_ms(&asked(Some(4999)), &config), 5000);
    assert_eq!(test_duration_ms(&asked(Some(0)), &config), 5000);
    assert_eq!(test_duration_ms(&asked(Some(30000)), &config), 30000);
    assert_eq!(test_duration_ms(&asked(Some(30001)), &config), 30000);
    assert_eq!(test_duration_ms(&asked(Some(u64::MAX)), &config), 30000);
}

#[test]
fn what_a_failed_test_tells_its_client() {
    assert_eq!(failure_message("connection reset"), "{\"error\": \"connection reset\"}");
    assert_eq!(failure_message(""), "{\"error\": \"\"}");
}

#[test]
fn replies_to_lookups() {
    let found = get_result(Lookup::Found);
    assert_eq!((found.status, found.error), (200, None));
    let missing = get_result(Lookup::Missing);
    assert_eq!((missing.status, missing.error.as_deref()), (404, Some("Test result not found")));
    let failed = get_result(Lookup::Failed);
    assert_eq!((failed.status, failed.error.as_deref()), (500, Some("Failed to fetch test result")));
    let enhanced = get_enhanced_result(Lookup::Missing);
    assert_eq!((enhanced.status, enhanced.error.as_deref()), (404, Some("Test result not found")));
    assert_eq!(get_enhanced_result(Lookup::Found).status, 200);
    assert_eq!(get_enhanced_result(Lookup::Failed).status, 500);
    let history = get_history(true);
    assert_eq!((history.status, history.error), (200, None));
    let history = get_history(false);
    assert_eq!((history.status, history.error.as_deref()), (500, Some("Failed to fetch test history")));
}

#[test]
fn steps_of_an_enhanced_test() {
    assert_eq!(LOADED_PROBES, 10);
    let mut steps = vec![Step::Initializing, Step::IdleLatency, Step::Download];
    steps.extend((0..LOADED_PROBES).map(Step::DownloadProbe));
    steps.push(Step::Upload);
    steps.extend((0..LOADED_PROBES).map(Step::UploadProbe));
    steps.push(Step::Finalizing);
    steps.push(Step::Complete);
    let percents: Vec<u8> = steps.iter().map(|s| step_percent(*s)).collect();
    assert_eq!(
        percents,
        vec![
            0, 10, 30, 30, 33, 36, 39, 42, 45, 48, 51, 54, 57, 60, 60, 63, 66, 69, 72, 75, 78, 81,
            84, 87, 90, 100
        ]
    );
    assert!(percents.windows(2).all(|w| w[0] <= w[1]));
    assert_eq!(probe_step(true, 0), Step::DownloadProbe(0));
    assert_eq!(probe_step(true, 9), Step::DownloadProbe(9));
    assert_eq!(probe_step(true, 10), Step::DownloadProbe(9));
    assert_eq!(probe_step(false, 3), Step::UploadProbe(3));
    assert_eq!(probe_step(false, 255), Step::UploadProbe(9));
    assert_eq!(step_percent(Step::DownloadProbe(200)), 57);
    assert_eq!(step_percent(Step::UploadProbe(255)), 87);
    assert_eq!(step_stage(Step::Initializing), TestStage::Initializing);
    assert_eq!(step_stage(Step::IdleLatency), TestStage::IdleLatency);
    assert_eq!(step_stage(Step::Download), TestStage::Download);
    assert_eq!(step_stage(Step::DownloadProbe(3)), TestStage::Download);
    assert_eq!(step_stage(Step::Upload), TestStage::Upload);
    assert_eq!(step_stage(Step::UploadProbe(3)), TestStage::Upload);
    assert_eq!(step_stage(Step::Finalizing), TestStage::Finalizing);
    assert_eq!(step_stage(Step::Complete), TestStage::Complete);
}

#[test]
fn requests_hold_what_was_asked() {
    let r = EnhancedTestRequest {
        include_ai_insights: Some(true),
        use_binary_protocol: None,
        duration_ms: Some(9000),
    };
    assert_eq!(r, r.clone());
    let q = EnhancedResultQuery { include_ai: Some(false) };
    assert_eq!(q.include_ai, Some(false));
}
