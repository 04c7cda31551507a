use nobreak_core::codec::MetricEstimate;
use nobreak_core::device::{
    candidates, extract_vid_pid, is_cdc_ragtech, is_hid_ragtech, scan_udev_devices, DeviceInfo,
    ScanEvent, ScanStep, Subsystem, UdevDevice, UdevIdentity,
};
use nobreak_core::driver::{
    cdc_read_result, cdc_request_command, choose_device, find_device, unknown_transport_result,
    ConnectEvent, ConnectStep, DriverError, ReadEvent, ReadStep, VendorShimDriver, SERIAL_BAUD,
    SERIAL_TIMEOUT_MS,
};
use nobreak_core::exchange::{CdcExchange, ExchangeEvent, ExchangeStep, PortRead};
use nobreak_core::probe::{LibraryProbe, ProbeReport, ProbeStep};
use nobreak_core::vars::{VarValue, Vars};

fn identity(vendor: &str, product: &str) -> UdevIdentity {
    UdevIdentity { vendor: vendor.to_string(), product: product.to_string() }
}

fn udev(props: (&str, &str), ancestors: &[(&str, &str)], node: &str) -> UdevDevice {
    UdevDevice {
        properties: identity(props.0, props.1),
        ancestors: ancestors.iter().map(|a| identity(a.0, a.1)).collect(),
        devnode: node.to_string(),
    }
}

fn device(transport: &str, node: &str) -> DeviceInfo {
    let (vid, pid) = if transport == "cdc" { ("04d8", "000a") } else { ("0425", "0301") };
    DeviceInfo {
        id: format!("{}:{}", transport, node),
        model: "RagTech 3200VA".to_string(),
        transport: transport.to_string(),
        path: node.to_string(),
        vid: vid.to_string(),
        pid: pid.to_string(),
    }
}

fn connected_driver(dev: DeviceInfo) -> VendorShimDriver {
    let mut driver = VendorShimDriver::new("./vendor".to_string());
    assert_eq!(driver.connect(ConnectEvent::Start, None), ConnectStep::Scan);
    let step = driver.connect(ConnectEvent::Scanned(Ok(vec![dev.clone()])), None);
    if dev.transport == "cdc" {
        assert_eq!(step, ConnectStep::OpenPort { device: dev.clone(), baud: 2560, timeout_ms: 350 });
        let step = driver.connect(ConnectEvent::Opened(dev.clone(), Ok(())), None);
        assert_eq!(step, ConnectStep::Done(Ok(dev)));
    } else {
        assert_eq!(step, ConnectStep::Done(Ok(dev)));
    }
    driver
}

#[test]
fn error_messages() {
    assert_eq!(DriverError::DeviceNotFound.message(), "device not found");
    assert_eq!(DriverError::Disconnected.message(), "device disconnected");
    assert_eq!(DriverError::Timeout.message(), "timeout");
    assert_eq!(DriverError::Io("x".to_string()).message(), "io error: x");
    assert_eq!(DriverError::Other("boom".to_string()).message(), "driver error: boom");
}

#[test]
fn serial_parameters() {
    assert_eq!(SERIAL_BAUD, 2560);
    assert_eq!(SERIAL_TIMEOUT_MS, 350);
    assert_eq!(cdc_request_command(), vec![0xAA, 0x04, 0x00, 0x80, 0x1E, 0x9E]);
}

#[test]
fn vendor_pairs_ignore_case() {
    assert!(is_cdc_ragtech("04d8", "000a"));
    assert!(is_cdc_ragtech("04D8", "000A"));
    assert!(!is_cdc_ragtech("04d8", "000b"));
    assert!(!is_cdc_ragtech("04d", "000a"));
    assert!(!is_cdc_ragtech("", ""));
    assert!(!is_cdc_ragtech("0425", "0301"));
    assert!(is_hid_ragtech("0425", "0301"));
    assert!(!is_hid_ragtech("04d8", "000a"));
    assert!(!is_hid_ragtech("0425", "0301 "));
}

#[test]
fn vid_pid_from_properties_then_ancestors() {
    let own = udev(("04d8", "000a"), &[("1d6b", "0002")], "/dev/ttyACM0");
    assert_eq!(extract_vid_pid(&own), ("04d8".to_string(), "000a".to_string()));
    let inherited = udev(("", ""), &[("", ""), ("04d8", ""), ("04D8", "000A"), ("1d6b", "0002")], "/dev/ttyACM0");
    assert_eq!(extract_vid_pid(&inherited), ("04D8".to_string(), "000A".to_string()));
    let half = udev(("04d8", ""), &[("0425", "0301")], "/dev/ttyACM0");
    assert_eq!(extract_vid_pid(&half), ("0425".to_string(), "0301".to_string()));
    let nothing = udev(("04d8", ""), &[("", "000a")], "/dev/ttyACM0");
    assert_eq!(extract_vid_pid(&nothing), (String::new(), String::new()));
    let orphan = udev(("", ""), &[], "/dev/ttyACM0");
    assert_eq!(extract_vid_pid(&orphan), (String::new(), String::new()));
}

#[test]
fn candidates_are_filtered_in_order() {
    let bus = vec![
        udev(("1234", "5678"), &[], "/dev/ttyS0"),
        udev(("04d8", "000a"), &[], "/dev/ttyACM0"),
        udev(("04d8", "000a"), &[], ""),
        udev(("", ""), &[("04D8", "000A")], "/dev/ttyACM1"),
    ];
    let found = candidates(Subsystem::Tty, &bus);
    assert_eq!(found.len(), 2);
    assert_eq!(found[0], device("cdc", "/dev/ttyACM0"));
    assert_eq!(found[1].id, "cdc:/dev/ttyACM1");
    assert_eq!(found[1].vid, "04d8");
    assert_eq!(found[1].pid, "000a");
    assert_eq!(found[1].transport, "cdc");
    assert_eq!(found[1].model, "RagTech 3200VA");
    assert_eq!(found[1].path, "/dev/ttyACM1");
    assert!(candidates(Subsystem::Hidraw, &bus).is_empty());
}

#[test]
fn scan_prefers_cdc_over_hid() {
    assert_eq!(scan_udev_devices(ScanEvent::Start), ScanStep::Enumerate(Subsystem::Tty));
    assert_eq!(Subsystem::Tty.name(), "tty");
    assert_eq!(Subsystem::Hidraw.name(), "hidraw");
    let tty = vec![udev(("04d8", "000a"), &[], "/dev/ttyACM0")];
    assert_eq!(
        scan_udev_devices(ScanEvent::Enumerated(Subsystem::Tty, tty)),
        ScanStep::Done(vec![device("cdc", "/dev/ttyACM0")])
    );
    let other = vec![udev(("0425", "0301"), &[], "/dev/ttyUSB0")];
    assert_eq!(
        scan_udev_devices(ScanEvent::Enumerated(Subsystem::Tty, other)),
        ScanStep::Enumerate(Subsystem::Hidraw)
    );
    let hid = vec![
        udev(("04d8", "000a"), &[], "/dev/hidraw0"),
        udev(("", ""), &[("0425", "0301")], "/dev/hidraw1"),
    ];
    assert_eq!(
        scan_udev_devices(ScanEvent::Enumerated(Subsystem::Hidraw, hid)),
        ScanStep::Done(vec![device("hid", "/dev/hidraw1")])
    );
    assert_eq!(
        scan_udev_devices(ScanEvent::Enumerated(Subsystem::Hidraw, Vec::new())),
        ScanStep::Done(Vec::new())
    );
    let driver = VendorShimDriver::new("v".to_string());
    assert_eq!(driver.discover(ScanEvent::Start), ScanStep::Enumerate(Subsystem::Tty));
}

#[test]
fn choosing_a_device() {
    let devices = vec![device("cdc", "/dev/ttyACM0"), device("cdc", "/dev/ttyACM1"), device("cdc", "/dev/ttyACM1")];
    assert_eq!(choose_device(&devices, None), Some(0));
    assert_eq!(choose_device(&devices, Some("cdc:/dev/ttyACM1")), Some(1));
    assert_eq!(choose_device(&devices, Some("cdc:/dev/ttyACM9")), Some(0));
    assert_eq!(choose_device(&Vec::new(), Some("cdc:/dev/ttyACM1")), None);
    assert_eq!(choose_device(&Vec::new(), None), None);
    assert_eq!(find_device(&devices, "cdc:/dev/ttyACM1"), Some(1));
    assert_eq!(find_device(&devices, "cdc:/dev/ttyACM2"), None);
}

#[test]
fn connect_without_devices_clears_the_session() {
    let mut driver = connected_driver(device("cdc", "/dev/ttyACM0"));
    assert!(driver.is_connected() && driver.port_open());
    let step = driver.connect(ConnectEvent::Scanned(Ok(Vec::new())), None);
    assert_eq!(step, ConnectStep::Done(Err(DriverError::DeviceNotFound)));
    assert!(!driver.is_connected());
    assert!(!driver.port_open());
    assert_eq!(driver.current_device(), None);
}

#[test]
fn connect_scan_error_changes_nothing() {
    let mut driver = connected_driver(device("cdc", "/dev/ttyACM0"));
    let step = driver.connect(ConnectEvent::Scanned(Err(DriverError::Io("bus".to_string()))), None);
    assert_eq!(step, ConnectStep::Done(Err(DriverError::Io("bus".to_string()))));
    assert!(driver.is_connected() && driver.port_open());
}

#[test]
fn connect_opens_the_port_of_a_cdc_device() {
    let mut driver = VendorShimDriver::new("./vendor".to_string());
    assert_eq!(driver.vendor_dir(), "./vendor");
    assert!(!driver.is_connected());
    let a = device("cdc", "/dev/ttyACM0");
    let b = device("cdc", "/dev/ttyACM1");
    let step = driver.connect(ConnectEvent::Scanned(Ok(vec![a.clone(), b.clone()])), Some("cdc:/dev/ttyACM1"));
    assert_eq!(step, ConnectStep::OpenPort { device: b.clone(), baud: 2560, timeout_ms: 350 });
    assert!(!driver.is_connected());
    let step = driver.connect(ConnectEvent::Opened(b.clone(), Ok(())), Some("cdc:/dev/ttyACM1"));
    assert_eq!(step, ConnectStep::Done(Ok(b.clone())));
    assert_eq!(driver.current_device(), Some(b));
    assert!(driver.port_open());
}

#[test]
fn connect_reports_a_port_that_does_not_open() {
    let mut driver = VendorShimDriver::new("./vendor".to_string());
    let a = device("cdc", "/dev/ttyACM0");
    driver.connect(ConnectEvent::Scanned(Ok(vec![a.clone()])), None);
    let step = driver.connect(ConnectEvent::Opened(a, Err("busy".to_string())), None);
    assert_eq!(
        step,
        ConnectStep::Done(Err(DriverError::Io("failed to open serial port /dev/ttyACM0: busy".to_string())))
    );
    assert!(!driver.is_connected());
    assert!(!driver.port_open());
}

#[test]
fn connect_to_hid_needs_no_port() {
    let driver = connected_driver(device("hid", "/dev/hidraw0"));
    assert!(driver.is_connected());
    assert!(!driver.port_open());
}

#[test]
fn disconnect_is_idempotent() {
    let mut driver = connected_driver(device("cdc", "/dev/ttyACM0"));
    assert_eq!(driver.disconnect(), Ok(()));
    assert!(!driver.is_connected() && !driver.port_open());
    assert_eq!(driver.disconnect(), Ok(()));
    assert!(!driver.is_connected() && !driver.port_open());
}

#[test]
fn read_without_connection_fails() {
    let mut driver = VendorShimDriver::new("./vendor".to_string());
    assert_eq!(driver.read(ReadEvent::Start), ReadStep::Done(Err(DriverError::Disconnected)));
    assert_eq!(
        driver.read(ReadEvent::Exchanged(Ok(vec![1, 2, 3]))),
        ReadStep::Done(Err(DriverError::Disconnected))
    );
}

#[test]
fn hot_unplug_releases_the_session() {
    let mut driver = connected_driver(device("cdc", "/dev/ttyACM0"));
    assert_eq!(driver.read(ReadEvent::Start), ReadStep::Scan);
    let step = driver.read(ReadEvent::Scanned(Ok(Vec::new())));
    assert_eq!(step, ReadStep::Done(Err(DriverError::Disconnected)));
    assert!(!driver.is_connected());
    assert!(!driver.port_open());
}

#[test]
fn read_scan_error_is_passed_on() {
    let mut driver = connected_driver(device("cdc", "/dev/ttyACM0"));
    let step = driver.read(ReadEvent::Scanned(Err(DriverError::Io("bus".to_string()))));
    assert_eq!(step, ReadStep::Done(Err(DriverError::Io("bus".to_string()))));
    assert!(driver.is_connected() && driver.port_open());
}

#[test]
fn read_over_cdc_runs_the_exchange() {
    let dev = device("cdc", "/dev/ttyACM0");
    let mut driver = connected_driver(dev.clone());
    assert_eq!(driver.read(ReadEvent::Scanned(Ok(vec![device("cdc", "/dev/ttyACM7"), dev]))), ReadStep::Exchange);
    let frame = vec![0xAAu8, 0x21, 0x00];
    let step = driver.read(ReadEvent::Exchanged(Ok(frame.clone())));
    assert_eq!(step, ReadStep::Done(Ok(cdc_read_result(&frame))));
    let step = driver.read(ReadEvent::Exchanged(Err(DriverError::Timeout)));
    assert_eq!(step, ReadStep::Done(Err(DriverError::Timeout)));
    assert!(driver.is_connected());
}

#[test]
fn read_reopens_a_missing_port() {
    let a = device("cdc", "/dev/ttyACM0");
    let b = device("cdc", "/dev/ttyACM1");
    let mut driver = connected_driver(a.clone());
    driver.connect(ConnectEvent::Scanned(Ok(vec![b.clone()])), None);
    driver.connect(ConnectEvent::Opened(b, Err("busy".to_string())), None);
    assert_eq!(driver.current_device(), Some(a.clone()));
    assert!(!driver.port_open());
    let step = driver.read(ReadEvent::Scanned(Ok(vec![a])));
    assert_eq!(step, ReadStep::OpenPort { path: "/dev/ttyACM0".to_string(), baud: 2560, timeout_ms: 350 });
    let failed = driver.read(ReadEvent::Opened(Err("gone".to_string())));
    assert_eq!(
        failed,
        ReadStep::Done(Err(DriverError::Io("failed to open serial port /dev/ttyACM0: gone".to_string())))
    );
    assert_eq!(driver.read(ReadEvent::Opened(Ok(()))), ReadStep::Exchange);
    assert!(driver.port_open());
}

#[test]
fn read_over_hid_is_unimplemented() {
    let dev = device("hid", "/dev/hidraw0");
    let mut driver = connected_driver(dev.clone());
    let step = driver.read(ReadEvent::Scanned(Ok(vec![dev])));
    let expected = unknown_transport_result();
    assert_eq!(expected.status_code, "UNKNOWN");
    assert_eq!(expected.failures, vec!["vendor_snapshot_unimplemented".to_string()]);
    assert!(expected.vars.is_empty());
    assert_eq!(step, ReadStep::Done(Ok(expected)));
}

#[test]
fn cdc_result_of_a_short_frame() {
    let frame = [0xAAu8, 0x21, 0x00, 0x0C, 0x55];
    let result = cdc_read_result(&frame);
    assert_eq!(result.status_code, "ONLINE_RAW");
    assert!(result.failures.is_empty());
    assert_eq!(result.vars.get("rawFrameHex"), Some(&VarValue::Text("AA21000C55".to_string())));
    assert_eq!(result.vars.get("rawFrameLen"), Some(&VarValue::Count(5)));
    assert_eq!(result.vars.get("requestCommand"), Some(&VarValue::Text("AA0400801E9E".to_string())));
    assert_eq!(
        result.vars.get("metricsConfidence"),
        Some(&VarValue::Text("insufficient_frame_alignment".to_string()))
    );
    for key in ["vInput", "vOutput", "fOutput", "pOutput", "vBattery", "cBattery", "temperature"] {
        assert_eq!(result.vars.get(key), None);
    }
    assert!(matches!(result.vars.get("frameDecoded"), Some(VarValue::Frame(d)) if d.header.actual_len == 5));
    assert_eq!(result.vars.entries().len(), 5);
}

#[test]
fn cdc_result_of_an_aligned_frame() {
    let mut frame = vec![0u8; 31];
    frame[..4].copy_from_slice(&[0xAA, 0x21, 0x00, 0x0C]);
    frame[11] = 0x01;
    frame[12] = 0x02;
    frame[15] = 40;
    frame[20] = 0x10;
    frame[21] = 0x20;
    frame[23] = 0x30;
    frame[24] = 0x40;
    frame[26] = 99;
    frame[27] = 0x12;
    frame[28] = 0x34;
    let result = cdc_read_result(&frame);
    let estimate = |raw: u16, divisor_tenths: u16| Some(VarValue::Estimate(MetricEstimate { raw, divisor_tenths }));
    assert_eq!(result.vars.get("vInput").cloned(), estimate(0x0102, 5040));
    assert_eq!(result.vars.get("vOutput").cloned(), estimate(0x3040, 3660));
    assert_eq!(result.vars.get("vBattery").cloned(), estimate(0x1020, 12490));
    assert_eq!(result.vars.get("fOutput").cloned(), estimate(0x1234, 774));
    assert_eq!(result.vars.get("cBattery").cloned(), estimate(99, 10));
    assert_eq!(result.vars.get("pOutput").cloned(), estimate(0x12, 10));
    assert_eq!(result.vars.get("temperature").cloned(), estimate(40, 10));
    assert_eq!(result.vars.get("metricsConfidence"), Some(&VarValue::Text("experimental".to_string())));
    assert_eq!(result.vars.get("rawFrameLen"), Some(&VarValue::Count(31)));
    assert_eq!(result.vars.entries().len(), 12);
}

#[test]
fn vars_bind_and_replace() {
    let mut vars = Vars::new();
    assert!(vars.is_empty());
    assert_eq!(vars.get("a"), None);
    vars.insert("a".to_string(), VarValue::Count(1));
    vars.insert("b".to_string(), VarValue::Text("x".to_string()));
    vars.insert("a".to_string(), VarValue::Count(2));
    assert!(!vars.is_empty());
    assert_eq!(vars.get("a"), Some(&VarValue::Count(2)));
    assert_eq!(vars.get("b"), Some(&VarValue::Text("x".to_string())));
    assert!(vars.contains_key("b"));
    assert!(!vars.contains_key("c"));
    assert_eq!(vars.entries().len(), 2);
    vars.insert("b".to_string(), VarValue::Count(9));
    assert_eq!(vars.get("b"), Some(&VarValue::Count(9)));
    assert_eq!(vars.entries().len(), 2);
}

#[test]
fn vars_hold_each_name_once_in_order() {
    let names = ["vInput", "rawFrameHex", "", "b", "a", "ab", "B", "é", "rawFrameLen", "a", "vInput", "~"];
    let mut vars = Vars::new();
    for (n, name) in names.iter().enumerate() {
        vars.insert(name.to_string(), VarValue::Count(n as u64));
    }
    let keys: Vec<&str> = vars.entries().iter().map(|e| e.key.as_str()).collect();
    let mut expected: Vec<&str> = names.to_vec();
    expected.sort();
    expected.dedup();
    assert_eq!(keys, expected);
    assert_eq!(vars.get("a"), Some(&VarValue::Count(9)));
    assert_eq!(vars.get("vInput"), Some(&VarValue::Count(10)));
    assert_eq!(vars.get(""), Some(&VarValue::Count(2)));
    assert_eq!(vars.get("é"), Some(&VarValue::Count(7)));
}

#[test]
fn vars_do_not_depend_on_the_order_of_insertion() {
    let mut one = Vars::new();
    one.insert("x".to_string(), VarValue::Count(1));
    one.insert("a".to_string(), VarValue::Text("t".to_string()));
    one.insert("m".to_string(), VarValue::Count(3));
    let mut other = Vars::new();
    other.insert("m".to_string(), VarValue::Count(0));
    other.insert("a".to_string(), VarValue::Text("t".to_string()));
    other.insert("x".to_string(), VarValue::Count(1));
    other.insert("m".to_string(), VarValue::Count(3));
    assert_eq!(one, other);
    assert_eq!(one.clone(), other);
    other.insert("m".to_string(), VarValue::Count(4));
    assert_ne!(one, other);
}

#[test]
fn cdc_vars_are_walked_in_the_order_of_their_names() {
    let mut frame = vec![0u8; 31];
    frame[..4].copy_from_slice(&[0xAA, 0x21, 0x00, 0x0C]);
    let result = cdc_read_result(&frame);
    let keys: Vec<&str> = result.vars.entries().iter().map(|e| e.key.as_str()).collect();
    assert_eq!(
        keys,
        vec![
            "cBattery", "fOutput", "frameDecoded", "metricsConfidence", "pOutput", "rawFrameHex",
            "rawFrameLen", "requestCommand", "temperature", "vBattery", "vInput", "vOutput",
        ]
    );
    let copy = result.clone();
    assert_eq!(copy, result);
}

fn data(len: usize) -> PortRead {
    PortRead::Data((0..len).map(|i| i as u8).collect())
}

fn started_exchange() -> CdcExchange {
    let mut exchange = CdcExchange::new();
    assert_eq!(exchange.step(ExchangeEvent::Start), ExchangeStep::Drain { max: 256 });
    assert_eq!(exchange.step(ExchangeEvent::Drained(data(0))), ExchangeStep::Write(vec![0xAA, 0x04, 0x00, 0x80, 0x1E, 0x9E]));
    assert_eq!(exchange.step(ExchangeEvent::Written(Ok(()))), ExchangeStep::Flush);
    assert_eq!(exchange.step(ExchangeEvent::Flushed(Ok(()))), ExchangeStep::Receive { max: 128 });
    exchange
}

#[test]
fn exchange_drains_until_nothing_comes() {
    let mut exchange = CdcExchange::new();
    assert_eq!(exchange.step(ExchangeEvent::Start), ExchangeStep::Drain { max: 256 });
    assert_eq!(exchange.step(ExchangeEvent::Drained(data(256))), ExchangeStep::Drain { max: 256 });
    assert_eq!(exchange.step(ExchangeEvent::Drained(data(1))), ExchangeStep::Drain { max: 256 });
    assert!(matches!(exchange.step(ExchangeEvent::Drained(PortRead::TimedOut)), ExchangeStep::Write(_)));
    assert!(matches!(exchange.step(ExchangeEvent::Drained(PortRead::Failed("x".to_string()))), ExchangeStep::Write(_)));
    assert!(matches!(exchange.step(ExchangeEvent::Drained(data(0))), ExchangeStep::Write(_)));
}

#[test]
fn exchange_write_and_flush_failures() {
    let mut exchange = CdcExchange::new();
    assert_eq!(
        exchange.step(ExchangeEvent::Written(Err("pipe".to_string()))),
        ExchangeStep::Done(Err(DriverError::Io("failed to write request command: pipe".to_string())))
    );
    assert_eq!(
        exchange.step(ExchangeEvent::Flushed(Err("pipe".to_string()))),
        ExchangeStep::Done(Err(DriverError::Io("failed to flush request command: pipe".to_string())))
    );
}

#[test]
fn exchange_ends_on_a_large_read() {
    let mut exchange = started_exchange();
    let step = exchange.step(ExchangeEvent::Received { read: data(64), waited_ms: 1 });
    assert_eq!(step, ExchangeStep::Done(Ok((0..64).map(|i| i as u8).collect())));
}

#[test]
fn exchange_gathers_until_enough() {
    let mut exchange = started_exchange();
    assert_eq!(exchange.step(ExchangeEvent::Received { read: data(0), waited_ms: 1 }), ExchangeStep::Receive { max: 128 });
    assert_eq!(exchange.step(ExchangeEvent::Received { read: data(31), waited_ms: 2 }), ExchangeStep::Receive { max: 128 });
    assert_eq!(exchange.step(ExchangeEvent::Received { read: data(32), waited_ms: 3 }), ExchangeStep::Receive { max: 128 });
    let step = exchange.step(ExchangeEvent::Received { read: data(1), waited_ms: 4 });
    let mut expected: Vec<u8> = (0..31).map(|i| i as u8).collect();
    expected.extend((0..32).map(|i| i as u8));
    expected.push(0);
    assert_eq!(step, ExchangeStep::Done(Ok(expected)));
}

#[test]
fn exchange_ends_on_silence_after_data() {
    let mut exchange = started_exchange();
    assert_eq!(exchange.step(ExchangeEvent::Received { read: PortRead::TimedOut, waited_ms: 350 }), ExchangeStep::Receive { max: 128 });
    assert_eq!(exchange.step(ExchangeEvent::Received { read: data(31), waited_ms: 400 }), ExchangeStep::Receive { max: 128 });
    let step = exchange.step(ExchangeEvent::Received { read: PortRead::TimedOut, waited_ms: 750 });
    assert_eq!(step, ExchangeStep::Done(Ok((0..31).map(|i| i as u8).collect())));
}

#[test]
fn exchange_times_out_at_the_deadline() {
    let mut exchange = started_exchange();
    assert_eq!(exchange.step(ExchangeEvent::Received { read: PortRead::TimedOut, waited_ms: 2999 }), ExchangeStep::Receive { max: 128 });
    let step = exchange.step(ExchangeEvent::Received { read: PortRead::TimedOut, waited_ms: 3000 });
    assert_eq!(step, ExchangeStep::Done(Err(DriverError::Timeout)));
    let mut exchange = started_exchange();
    let step = exchange.step(ExchangeEvent::Received { read: data(0), waited_ms: 3001 });
    assert_eq!(step, ExchangeStep::Done(Err(DriverError::Timeout)));
    let mut exchange = started_exchange();
    let step = exchange.step(ExchangeEvent::Received { read: data(3), waited_ms: 3000 });
    assert_eq!(step, ExchangeStep::Done(Ok(vec![0, 1, 2])));
}

#[test]
fn exchange_read_failure_is_an_io_error() {
    let mut exchange = started_exchange();
    exchange.step(ExchangeEvent::Received { read: data(10), waited_ms: 1 });
    let step = exchange.step(ExchangeEvent::Received { read: PortRead::Failed("unplugged".to_string()), waited_ms: 2 });
    assert_eq!(step, ExchangeStep::Done(Err(DriverError::Io("serial read failed: unplugged".to_string()))));
}

#[test]
fn exchange_restart_forgets_the_response() {
    let mut exchange = started_exchange();
    exchange.step(ExchangeEvent::Received { read: data(10), waited_ms: 1 });
    exchange.step(ExchangeEvent::Start);
    let step = exchange.step(ExchangeEvent::Received { read: PortRead::TimedOut, waited_ms: 1 });
    assert_eq!(step, ExchangeStep::Receive { max: 128 });
}

#[test]
fn probe_walks_the_candidates() {
    let driver = VendorShimDriver::new("/opt/vendor".to_string());
    let mut probed = Vec::new();
    assert_eq!(driver.probe_vendor_runtime(&probed), ProbeStep::Load("device.so".to_string()));
    probed.push(LibraryProbe::Missing);
    assert_eq!(driver.probe_vendor_runtime(&probed), ProbeStep::Load("config.so".to_string()));
    probed.push(LibraryProbe::Loaded("/opt/vendor/config.so".to_string()));
    assert_eq!(driver.probe_vendor_runtime(&probed), ProbeStep::Load("supapi.so".to_string()));
    probed.push(LibraryProbe::Loaded("/opt/vendor/supapi.so".to_string()));
    assert_eq!(
        driver.probe_vendor_runtime(&probed),
        ProbeStep::Done(Ok(ProbeReport {
            loaded_libraries: vec!["/opt/vendor/config.so".to_string(), "/opt/vendor/supapi.so".to_string()],
            read_only: true,
        }))
    );
}

#[test]
fn probe_fails_without_libraries() {
    let driver = VendorShimDriver::new("/opt/vendor".to_string());
    let probed = vec![LibraryProbe::Missing, LibraryProbe::Missing, LibraryProbe::Missing];
    assert_eq!(
        driver.probe_vendor_runtime(&probed),
        ProbeStep::Done(Err(DriverError::Other("no vendor libraries found under /opt/vendor".to_string())))
    );
}

#[test]
fn probe_stops_at_the_first_failure() {
    let driver = VendorShimDriver::new("/opt/vendor".to_string());
    let probed = vec![
        LibraryProbe::Loaded("/opt/vendor/device.so".to_string()),
        LibraryProbe::Failed("/opt/vendor/config.so".to_string(), "bad ELF".to_string()),
    ];
    assert_eq!(
        driver.probe_vendor_runtime(&probed),
        ProbeStep::Done(Err(DriverError::Other("failed to load /opt/vendor/config.so: bad ELF".to_string())))
    );
}
