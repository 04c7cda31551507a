use nobreak_core::codec::MetricEstimate;
use nobreak_core::driver::cdc_read_result;
use nobreak_core::export::{export_record, timestamp_millis};
use nobreak_core::snapshot::{
    Freshness, MonitorStatus, Snapshot, SnapshotDevice, SnapshotQuality, Transport, WallTime,
};
use nobreak_core::text::{
    clone_strings, ends_with, eq_ignore_ascii_case, join2, join3, starts_with, str_before, str_eq,
};
use nobreak_core::vars::{VarValue, Vars};

fn snapshot(vars: Vars, connected: bool) -> Snapshot {
    Snapshot {
        ts: WallTime { unix_secs: 1_771_113_600, subsec_nanos: 123_456_789 },
        mono_ms: 42,
        device: SnapshotDevice {
            id: "cdc:/dev/ttyACM0".to_string(),
            model: "RagTech 3200VA".to_string(),
            transport: Transport {
                kind: "cdc".to_string(),
                path: "/dev/ttyACM0".to_string(),
                vid: "04d8".to_string(),
                pid: "000a".to_string(),
            },
            connected,
        },
        freshness: Freshness { rtt_ms: 7, age_ms: 0, stale: false, last_ok_ts: None },
        status: MonitorStatus { code: "ONLINE_RAW".to_string(), failures: Vec::new() },
        vars,
        quality: SnapshotQuality {
            poll_ms: 7,
            stale_ms: 0,
            reads_ok: 1,
            reads_err: 0,
            reconnects: 0,
            effective_interval_ms: 1000,
        },
    }
}

#[test]
fn record_picks_metrics_and_meta() {
    let mut frame = vec![0u8; 31];
    frame[..4].copy_from_slice(&[0xAA, 0x21, 0x00, 0x0C]);
    frame[15] = 33;
    let snap = snapshot(cdc_read_result(&frame).vars, true);
    let record = export_record(&snap);
    assert_eq!(record.ts, snap.ts);
    assert_eq!(record.unix_ms, 1_771_113_600_123);
    assert_eq!(record.device_id, "cdc:/dev/ttyACM0");
    assert_eq!(record.model, "RagTech 3200VA");
    assert_eq!(record.transport, &snap.device.transport);
    assert!(record.connected);
    assert_eq!(record.freshness, snap.freshness);
    assert_eq!(record.status, &snap.status);
    assert_eq!(
        record.metrics.temperature,
        Some(&VarValue::Estimate(MetricEstimate { raw: 33, divisor_tenths: 10 }))
    );
    assert_eq!(
        record.metrics.v_input,
        Some(&VarValue::Estimate(MetricEstimate { raw: 0, divisor_tenths: 5040 }))
    );
    assert!(record.metrics.v_output.is_some());
    assert!(record.metrics.f_output.is_some());
    assert!(record.metrics.p_output.is_some());
    assert!(record.metrics.v_battery.is_some());
    assert!(record.metrics.c_battery.is_some());
    assert_eq!(record.meta.metrics_confidence, Some(&VarValue::Text("experimental".to_string())));
    assert_eq!(record.meta.raw_frame_len, Some(&VarValue::Count(31)));
    assert!(matches!(record.meta.raw_frame_hex, Some(VarValue::Text(hex)) if hex.len() == 62));
}

#[test]
fn record_of_a_failure_has_no_metrics() {
    let snap = snapshot(Vars::new(), false);
    let record = export_record(&snap);
    assert!(!record.connected);
    assert_eq!(record.metrics.v_input, None);
    assert_eq!(record.metrics.v_output, None);
    assert_eq!(record.metrics.f_output, None);
    assert_eq!(record.metrics.p_output, None);
    assert_eq!(record.metrics.v_battery, None);
    assert_eq!(record.metrics.c_battery, None);
    assert_eq!(record.metrics.temperature, None);
    assert_eq!(record.meta.metrics_confidence, None);
    assert_eq!(record.meta.raw_frame_hex, None);
    assert_eq!(record.meta.raw_frame_len, None);
}

#[test]
fn timestamp_in_milliseconds() {
    assert_eq!(timestamp_millis(WallTime { unix_secs: 0, subsec_nanos: 0 }), 0);
    assert_eq!(timestamp_millis(WallTime { unix_secs: 1, subsec_nanos: 999_999 }), 1000);
    assert_eq!(timestamp_millis(WallTime { unix_secs: 1, subsec_nanos: 1_000_000 }), 1001);
    assert_eq!(timestamp_millis(WallTime { unix_secs: -1, subsec_nanos: 500_000_000 }), -500);
    assert_eq!(timestamp_millis(WallTime { unix_secs: i64::MAX, subsec_nanos: 0 }), i64::MAX);
    assert_eq!(timestamp_millis(WallTime { unix_secs: i64::MIN, subsec_nanos: 0 }), i64::MIN);
}

#[test]
fn string_helpers() {
    assert!(str_eq("", ""));
    assert!(str_eq("abc", "abc"));
    assert!(!str_eq("abc", "abd"));
    assert!(!str_eq("abc", "ab"));
    assert!(str_eq("héllo", "héllo"));
    assert!(eq_ignore_ascii_case("04D8", "04d8"));
    assert!(eq_ignore_ascii_case("AbZ", "aBz"));
    assert!(!eq_ignore_ascii_case("[", "{"));
    assert!(!eq_ignore_ascii_case("@", "`"));
    assert!(!eq_ignore_ascii_case("É", "é"));
    assert!(!eq_ignore_ascii_case("a", "ab"));
    for (a, b) in [("Az", "aZ"), ("a", "b"), ("é", "e"), ("K", "\u{212A}"), ("", "")] {
        assert_eq!(eq_ignore_ascii_case(a, b), a.eq_ignore_ascii_case(b));
    }
    assert!(starts_with("nobreak-x", "nobreak-"));
    assert!(starts_with("abc", ""));
    assert!(!starts_with("ab", "abc"));
    assert!(!starts_with("abx", "abc"));
    assert!(ends_with("x.jsonl", ".jsonl"));
    assert!(ends_with("abc", ""));
    assert!(!ends_with("jsonl", ".jsonl"));
    assert!(!ends_with("x.jsonx", ".jsonl"));
    assert_eq!(join2("ab", "cd"), "abcd");
    assert_eq!(join3("a", "", "c"), "ac");
    let list = vec!["x".to_string(), String::new(), "é".to_string()];
    assert_eq!(clone_strings(&list), list);
    assert!(clone_strings(&Vec::new()).is_empty());
}

#[test]
fn strings_are_ordered_as_the_standard_library_orders_them() {
    let words = ["", "a", "A", "ab", "abc", "abd", "b", "Z", "z", "é", "e", "~", "\u{10FFFF}", "\u{FFFF}", "0", "00", "rawFrameHex", "rawFrameLen"];
    for a in words {
        for b in words {
            assert_eq!(str_before(a, b), a < b, "{:?} before {:?}", a, b);
        }
    }
    assert!(str_before("", "a"));
    assert!(!str_before("a", ""));
    assert!(!str_before("same", "same"));
    assert!(str_before("rawFrameHex", "rawFrameLen"));
}
