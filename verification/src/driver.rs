//! The driver's session: which device is current, whether its port is held,
//! and what each outcome of the outside work leads to.
//!
//! The driver performs no I/O itself. `connect` and `read` are advanced one
//! event at a time: each call takes what the caller's last action gave and
//! answers with the next action, until it answers `Done`.

use vstd::prelude::*;
use crate::codec::{decode_raw_frame, decoded_of, MetricEstimate};
use crate::device::{
    device_views, scan_step_of, scan_udev_devices, DeviceInfo, DeviceInfoView, ScanEvent, ScanStep,
};
use crate::hex::{bytes_hex, hex_of_bytes};
use crate::text::{join2, join3, opt_str_view, str_eq, string_views};
use crate::vars::{VarValue, VarValueView, Vars};

verus! {

/// Baud rate of the CDC serial port.
pub const SERIAL_BAUD: u32 = 2560;

/// Timeout of a single read or write on the serial port, in milliseconds.
pub const SERIAL_TIMEOUT_MS: u64 = 350;

/// Why a driver operation failed.
#[derive(Debug, Clone, PartialEq, Eq)]
pub enum DriverError {
    DeviceNotFound,
    Disconnected,
    Timeout,
    Io(String),
    Other(String),
}

pub enum DriverErrorView {
    DeviceNotFound,
    Disconnected,
    Timeout,
    Io(Seq<char>),
    Other(Seq<char>),
}

impl View for DriverError {
    type V = DriverErrorView;

    open spec fn view(&self) -> DriverErrorView {
        match self {
            DriverError::DeviceNotFound => DriverErrorView::DeviceNotFound,
            DriverError::Disconnected => DriverErrorView::Disconnected,
            DriverError::Timeout => DriverErrorView::Timeout,
            DriverError::Io(message) => DriverErrorView::Io(message@),
            DriverError::Other(message) => DriverErrorView::Other(message@),
        }
    }
}

/// The text an error is reported with.
pub open spec fn message_of(error: DriverErrorView) -> Seq<char> {
    match error {
        DriverErrorView::DeviceNotFound => "device not found"@,
        DriverErrorView::Disconnected => "device disconnected"@,
        DriverErrorView::Timeout => "timeout"@,
        DriverErrorView::Io(message) => "io error: "@ + message,
        DriverErrorView::Other(message) => "driver error: "@ + message,
    }
}

impl DriverError {
    /// The text this error is reported with.
    pub fn message(&self) -> (text: String)
        ensures
            text@ == message_of(self@),
    {
        match self {
            DriverError::DeviceNotFound => String::from_str("device not found"),
            DriverError::Disconnected => String::from_str("device disconnected"),
            DriverError::Timeout => String::from_str("timeout"),
            DriverError::Io(message) => join2("io error: ", message.as_str()),
            DriverError::Other(message) => join2("driver error: ", message.as_str()),
        }
    }
}

/// One successful driver read.
#[derive(Debug, Clone, PartialEq, Eq)]
pub struct ReadResult {
    pub status_code: String,
    pub failures: Vec<String>,
    pub vars: Vars,
}

pub struct ReadResultView {
    pub status_code: Seq<char>,
    pub failures: Seq<Seq<char>>,
    pub vars: Map<Seq<char>, VarValueView>,
}

impl View for ReadResult {
    type V = ReadResultView;

    open spec fn view(&self) -> ReadResultView {
        ReadResultView {
            status_code: self.status_code@,
            failures: string_views(self.failures@),
            vars: self.vars@,
        }
    }
}

/// The request that asks the device for one frame.
pub open spec fn cdc_request() -> Seq<u8> {
    seq![0xAAu8, 0x04u8, 0x00u8, 0x80u8, 0x1Eu8, 0x9Eu8]
}

/// The request as it is written to the port.
pub fn cdc_request_command() -> (request: Vec<u8>)
    ensures
        request@ == cdc_request(),
{
    let mut request: Vec<u8> = Vec::new();
    request.push(0xAA);
    request.push(0x04);
    request.push(0x00);
    request.push(0x80);
    request.push(0x1E);
    request.push(0x9E);
    assert(request@ =~= cdc_request());
    request
}

/// The request text that a reading carries is the request's bytes in
/// hexadecimal.
pub proof fn lemma_request_command_text()
    ensures
        "AA0400801E9E"@ == hex_of_bytes(cdc_request()),
{
    reveal_strlit("AA0400801E9E");
    let text = hex_of_bytes(cdc_request());
    assert(text.len() == 12);
    assert(text[0] == 'A' && text[1] == 'A');
    assert(text[2] == '0' && text[3] == '4');
    assert(text[4] == '0' && text[5] == '0');
    assert(text[6] == '8' && text[7] == '0');
    assert(text[8] == '1' && text[9] == 'E');
    assert(text[10] == '9' && text[11] == 'E');
    assert("AA0400801E9E"@ =~= text);
}

/// `vars` with the estimate bound to `key` where there is one.
pub open spec fn with_estimate(
    vars: Map<Seq<char>, VarValueView>,
    key: Seq<char>,
    estimate: Option<MetricEstimate>,
) -> Map<Seq<char>, VarValueView> {
    match estimate {
        Some(e) => vars.insert(key, VarValueView::Estimate(e)),
        None => vars,
    }
}

/// The variables of a CDC reading: the raw frame, the request that was sent,
/// the estimates that the frame yields, the confidence label and the decoded
/// frame.
pub open spec fn cdc_vars_of(frame: Seq<u8>) -> Map<Seq<char>, VarValueView> {
    let metrics = decoded_of(frame).likely_metrics;
    let raw = Map::<Seq<char>, VarValueView>::empty().insert(
        "rawFrameHex"@,
        VarValueView::Text(hex_of_bytes(frame)),
    ).insert("rawFrameLen"@, VarValueView::Count(frame.len() as u64)).insert(
        "requestCommand"@,
        VarValueView::Text("AA0400801E9E"@),
    );
    let v_input = with_estimate(raw, "vInput"@, metrics.v_input_est);
    let v_output = with_estimate(v_input, "vOutput"@, metrics.v_output_est);
    let f_output = with_estimate(v_output, "fOutput"@, metrics.f_output_est);
    let p_output = with_estimate(f_output, "pOutput"@, metrics.p_output_est);
    let v_battery = with_estimate(p_output, "vBattery"@, metrics.v_battery_est);
    let c_battery = with_estimate(v_battery, "cBattery"@, metrics.c_battery_est);
    let temperature = with_estimate(c_battery, "temperature"@, metrics.temperature_est);
    temperature.insert(
        "metricsConfidence"@,
        VarValueView::Text(metrics.mapping_confidence),
    ).insert("frameDecoded"@, VarValueView::Frame(decoded_of(frame)))
}

/// What a read over CDC returns for a frame.
pub open spec fn cdc_read_result_of(frame: Seq<u8>) -> ReadResultView {
    ReadResultView {
        status_code: "ONLINE_RAW"@,
        failures: Seq::empty(),
        vars: cdc_vars_of(frame),
    }
}

/// What a read returns on a transport that has no reader yet.
pub open spec fn unknown_read_result() -> ReadResultView {
    ReadResultView {
        status_code: "UNKNOWN"@,
        failures: seq!["vendor_snapshot_unimplemented"@],
        vars: Map::empty(),
    }
}

fn insert_estimate(vars: &mut Vars, key: &str, estimate: Option<MetricEstimate>)
    ensures
        final(vars)@ == with_estimate(old(vars)@, key@, estimate),
{
    if let Some(e) = estimate {
        vars.insert(String::from_str(key), VarValue::Estimate(e));
    }
}

/// Assembles the result of a CDC read from the frame that came back.
pub fn cdc_read_result(frame: &[u8]) -> (result: ReadResult)
    ensures
        result@ == cdc_read_result_of(frame@),
{
    let mut vars = Vars::new();
    vars.insert(String::from_str("rawFrameHex"), VarValue::Text(bytes_hex(frame)));
    vars.insert(String::from_str("rawFrameLen"), VarValue::Count(frame.len() as u64));
    vars.insert(
        String::from_str("requestCommand"),
        VarValue::Text(String::from_str("AA0400801E9E")),
    );
    let decoded = decode_raw_frame(frame);
    insert_estimate(&mut vars, "vInput", decoded.likely_metrics.v_input_est);
    insert_estimate(&mut vars, "vOutput", decoded.likely_metrics.v_output_est);
    insert_estimate(&mut vars, "fOutput", decoded.likely_metrics.f_output_est);
    insert_estimate(&mut vars, "pOutput", decoded.likely_metrics.p_output_est);
    insert_estimate(&mut vars, "vBattery", decoded.likely_metrics.v_battery_est);
    insert_estimate(&mut vars, "cBattery", decoded.likely_metrics.c_battery_est);
    insert_estimate(&mut vars, "temperature", decoded.likely_metrics.temperature_est);
    vars.insert(
        String::from_str("metricsConfidence"),
        VarValue::Text(decoded.likely_metrics.mapping_confidence.clone()),
    );
    vars.insert(String::from_str("frameDecoded"), VarValue::Frame(decoded));
    let result = ReadResult {
        status_code: String::from_str("ONLINE_RAW"),
        failures: Vec::new(),
        vars,
    };
    assert(result@.failures =~= Seq::empty());
    result
}

/// The result of a read on a transport that has no reader yet.
pub fn unknown_transport_result() -> (result: ReadResult)
    ensures
        result@ == unknown_read_result(),
{
    let mut failures: Vec<String> = Vec::new();
    failures.push(String::from_str("vendor_snapshot_unimplemented"));
    let result = ReadResult {
        status_code: String::from_str("UNKNOWN"),
        failures,
        vars: Vars::new(),
    };
    assert(result@.failures =~= seq!["vendor_snapshot_unimplemented"@]);
    result
}

/// The index of the first device at or after `from` whose id is `id`, or the
/// number of devices where none has it.
pub open spec fn index_of_id(devices: Seq<DeviceInfoView>, id: Seq<char>, from: int) -> int
    decreases devices.len() - from,
{
    if from < 0 || from >= devices.len() {
        devices.len() as int
    } else if devices[from].id == id {
        from
    } else {
        index_of_id(devices, id, from + 1)
    }
}

/// Whether a device with this id is among `devices`.
pub open spec fn has_id(devices: Seq<DeviceInfoView>, id: Seq<char>) -> bool {
    index_of_id(devices, id, 0) < devices.len()
}

/// Which device a connect settles on: the first with the preferred id where
/// one is named and present, else the first of the list.
pub open spec fn chosen_index(devices: Seq<DeviceInfoView>, preferred: Option<Seq<char>>) -> int {
    match preferred {
        Some(id) => if has_id(devices, id) {
            index_of_id(devices, id, 0)
        } else {
            0
        },
        None => 0,
    }
}

/// Finds the first device with the given id.
pub fn find_device(devices: &Vec<DeviceInfo>, id: &str) -> (found: Option<usize>)
    ensures
        found is Some <==> has_id(device_views(devices@), id@),
        found matches Some(at) ==> at == index_of_id(device_views(devices@), id@, 0),
{
    let mut i: usize = 0;
    while i < devices.len()
        invariant
            i <= devices@.len(),
            index_of_id(device_views(devices@), id@, 0) == index_of_id(
                device_views(devices@),
                id@,
                i as int,
            ),
        decreases devices@.len() - i,
    {
        if str_eq(devices[i].id.as_str(), id) {
            return Some(i);
        }
        i = i + 1;
    }
    None
}

/// Settles on a device, or on none where the list is empty.
pub fn choose_device(devices: &Vec<DeviceInfo>, preferred_id: Option<&str>) -> (chosen: Option<
    usize,
>)
    ensures
        chosen is Some <==> devices@.len() > 0,
        chosen matches Some(at) ==> at == chosen_index(
            device_views(devices@),
            opt_str_view(preferred_id),
        ),
{
    if devices.len() == 0 {
        return None;
    }
    match preferred_id {
        Some(id) => match find_device(devices, id) {
            Some(at) => Some(at),
            None => Some(0),
        },
        None => Some(0),
    }
}

/// The driver's session state.
#[derive(Debug)]
pub struct VendorShimDriver {
    vendor_dir: String,
    connected: Option<DeviceInfo>,
    port_open: bool,
}

pub struct DriverView {
    /// Directory that vendor libraries are looked for in.
    pub vendor_dir: Seq<char>,
    /// The device of the current session.
    pub connected: Option<DeviceInfoView>,
    /// Whether the session holds an open serial port.
    pub port_open: bool,
}

impl View for VendorShimDriver {
    type V = DriverView;

    closed spec fn view(&self) -> DriverView {
        DriverView {
            vendor_dir: self.vendor_dir@,
            connected: match self.connected {
                Some(device) => Some(device@),
                None => None,
            },
            port_open: self.port_open,
        }
    }
}

/// The session with no device and no port.
pub open spec fn cleared(state: DriverView) -> DriverView {
    DriverView { vendor_dir: state.vendor_dir, connected: None, port_open: false }
}

/// What the caller reports to a connect.
#[derive(Debug, PartialEq, Eq)]
pub enum ConnectEvent {
    /// A connect begins.
    Start,
    /// The bus was scanned.
    Scanned(Result<Vec<DeviceInfo>, DriverError>),
    /// The port of this device was opened, or failed to open with this text.
    Opened(DeviceInfo, Result<(), String>),
}

/// The view of what a scan returned.
pub open spec fn scan_view(scanned: Result<Vec<DeviceInfo>, DriverError>) -> Result<
    Seq<DeviceInfoView>,
    DriverErrorView,
> {
    match scanned {
        Ok(devices) => Ok(device_views(devices@)),
        Err(error) => Err(error@),
    }
}

/// The view of how opening a port ended.
pub open spec fn opened_view(opened: Result<(), String>) -> Result<(), Seq<char>> {
    match opened {
        Ok(_) => Ok(()),
        Err(reason) => Err(reason@),
    }
}

pub enum ConnectEventView {
    Start,
    Scanned(Result<Seq<DeviceInfoView>, DriverErrorView>),
    Opened(DeviceInfoView, Result<(), Seq<char>>),
}

impl View for ConnectEvent {
    type V = ConnectEventView;

    open spec fn view(&self) -> ConnectEventView {
        match self {
            ConnectEvent::Start => ConnectEventView::Start,
            ConnectEvent::Scanned(scanned) => ConnectEventView::Scanned(scan_view(*scanned)),
            ConnectEvent::Opened(device, opened) => ConnectEventView::Opened(
                device@,
                opened_view(*opened),
            ),
        }
    }
}

/// What the caller of a connect does next.
#[derive(Debug, PartialEq, Eq)]
pub enum ConnectStep {
    /// Scan the bus and report `Scanned`.
    Scan,
    /// Drop any port still held, open the serial port at this device's path
    /// at this baud rate and with this timeout on each read and write, and
    /// report `Opened`.
    OpenPort { device: DeviceInfo, baud: u32, timeout_ms: u64 },
    /// The connect is over. Drop any port that the session no longer holds.
    Done(Result<DeviceInfo, DriverError>),
}

pub enum ConnectStepView {
    Scan,
    OpenPort { device: DeviceInfoView, baud: u32, timeout_ms: u64 },
    Done(Result<DeviceInfoView, DriverErrorView>),
}

impl View for ConnectStep {
    type V = ConnectStepView;

    open spec fn view(&self) -> ConnectStepView {
        match self {
            ConnectStep::Scan => ConnectStepView::Scan,
            ConnectStep::OpenPort { device, baud, timeout_ms } => ConnectStepView::OpenPort {
                device: device@,
                baud: *baud,
                timeout_ms: *timeout_ms,
            },
            ConnectStep::Done(Ok(device)) => ConnectStepView::Done(Ok(device@)),
            ConnectStep::Done(Err(error)) => ConnectStepView::Done(Err(error@)),
        }
    }
}

/// The text of a failure to open the port at `path`.
pub open spec fn open_failure(path: Seq<char>, reason: Seq<char>) -> Seq<char> {
    "failed to open serial port "@ + path + ": "@ + reason
}

/// The session and the step that follow `event` in a connect.
///
/// A failed scan changes nothing. An empty scan clears the session. Otherwise
/// a device is chosen and any port held is given up; a CDC device then has
/// its port opened before it becomes current, any other becomes current at
/// once. A port that fails to open leaves the former device current.
pub open spec fn connect_spec(
    before: DriverView,
    event: ConnectEventView,
    preferred: Option<Seq<char>>,
) -> (DriverView, ConnectStepView) {
    match event {
        ConnectEventView::Start => (before, ConnectStepView::Scan),
        ConnectEventView::Scanned(Err(error)) => (before, ConnectStepView::Done(Err(error))),
        ConnectEventView::Scanned(Ok(devices)) => {
            if devices.len() == 0 {
                (cleared(before), ConnectStepView::Done(Err(DriverErrorView::DeviceNotFound)))
            } else {
                let chosen = devices[chosen_index(devices, preferred)];
                if chosen.transport == "cdc"@ {
                    (
                        DriverView { port_open: false, ..before },
                        ConnectStepView::OpenPort {
                            device: chosen,
                            baud: SERIAL_BAUD,
                            timeout_ms: SERIAL_TIMEOUT_MS,
                        },
                    )
                } else {
                    (
                        DriverView { connected: Some(chosen), port_open: false, ..before },
                        ConnectStepView::Done(Ok(chosen)),
                    )
                }
            }
        },
        ConnectEventView::Opened(device, Ok(_)) => (
            DriverView { connected: Some(device), port_open: true, ..before },
            ConnectStepView::Done(Ok(device)),
        ),
        ConnectEventView::Opened(device, Err(reason)) => (
            DriverView { port_open: false, ..before },
            ConnectStepView::Done(Err(DriverErrorView::Io(open_failure(device.path, reason)))),
        ),
    }
}

/// What the caller reports to a read.
#[derive(Debug, PartialEq, Eq)]
pub enum ReadEvent {
    /// A read begins.
    Start,
    /// The bus was scanned.
    Scanned(Result<Vec<DeviceInfo>, DriverError>),
    /// The port was opened, or failed to open with this text.
    Opened(Result<(), String>),
    /// The request/response exchange ended.
    Exchanged(Result<Vec<u8>, DriverError>),
}

/// The view of how an exchange ended.
pub open spec fn exchanged_view(exchanged: Result<Vec<u8>, DriverError>) -> Result<
    Seq<u8>,
    DriverErrorView,
> {
    match exchanged {
        Ok(frame) => Ok(frame@),
        Err(error) => Err(error@),
    }
}

pub enum ReadEventView {
    Start,
    Scanned(Result<Seq<DeviceInfoView>, DriverErrorView>),
    Opened(Result<(), Seq<char>>),
    Exchanged(Result<Seq<u8>, DriverErrorView>),
}

impl View for ReadEvent {
    type V = ReadEventView;

    open spec fn view(&self) -> ReadEventView {
        match self {
            ReadEvent::Start => ReadEventView::Start,
            ReadEvent::Scanned(scanned) => ReadEventView::Scanned(scan_view(*scanned)),
            ReadEvent::Opened(opened) => ReadEventView::Opened(opened_view(*opened)),
            ReadEvent::Exchanged(exchanged) => ReadEventView::Exchanged(
                exchanged_view(*exchanged),
            ),
        }
    }
}

/// What the caller of a read does next.
#[derive(Debug, PartialEq, Eq)]
pub enum ReadStep {
    /// Scan the bus and report `Scanned`.
    Scan,
    /// Open the serial port at this path at this baud rate and with this
    /// timeout on each read and write, and report `Opened`.
    OpenPort { path: String, baud: u32, timeout_ms: u64 },
    /// Run the request/response exchange on the open port and report `Exchanged`.
    Exchange,
    /// The read is over. Drop any port that the session no longer holds.
    Done(Result<ReadResult, DriverError>),
}

pub enum ReadStepView {
    Scan,
    OpenPort { path: Seq<char>, baud: u32, timeout_ms: u64 },
    Exchange,
    Done(Result<ReadResultView, DriverErrorView>),
}

impl View for ReadStep {
    type V = ReadStepView;

    open spec fn view(&self) -> ReadStepView {
        match self {
            ReadStep::Scan => ReadStepView::Scan,
            ReadStep::OpenPort { path, baud, timeout_ms } => ReadStepView::OpenPort {
                path: path@,
                baud: *baud,
                timeout_ms: *timeout_ms,
            },
            ReadStep::Exchange => ReadStepView::Exchange,
            ReadStep::Done(Ok(result)) => ReadStepView::Done(Ok(result@)),
            ReadStep::Done(Err(error)) => ReadStepView::Done(Err(error@)),
        }
    }
}

/// The session and the step that follow `event` in a read.
///
/// Without a current device every event ends the read as disconnected. A
/// failed scan ends it with the scan's error. A scan that no longer lists the
/// current device clears the session. A CDC device has its port opened where
/// none is held, then the exchange runs and its frame becomes the result. Any
/// other transport yields the fixed result of an unknown transport.
pub open spec fn read_spec(before: DriverView, event: ReadEventView) -> (
    DriverView,
    ReadStepView,
) {
    match before.connected {
        None => (before, ReadStepView::Done(Err(DriverErrorView::Disconnected))),
        Some(current) => match event {
            ReadEventView::Start => (before, ReadStepView::Scan),
            ReadEventView::Scanned(Err(error)) => (before, ReadStepView::Done(Err(error))),
            ReadEventView::Scanned(Ok(devices)) => {
                if !has_id(devices, current.id) {
                    (cleared(before), ReadStepView::Done(Err(DriverErrorView::Disconnected)))
                } else if current.transport == "cdc"@ {
                    if before.port_open {
                        (before, ReadStepView::Exchange)
                    } else {
                        (
                            before,
                            ReadStepView::OpenPort {
                                path: current.path,
                                baud: SERIAL_BAUD,
                                timeout_ms: SERIAL_TIMEOUT_MS,
                            },
                        )
                    }
                } else {
                    (before, ReadStepView::Done(Ok(unknown_read_result())))
                }
            },
            ReadEventView::Opened(Ok(_)) => (
                DriverView { port_open: true, ..before },
                ReadStepView::Exchange,
            ),
            ReadEventView::Opened(Err(reason)) => (
                before,
                ReadStepView::Done(Err(DriverErrorView::Io(open_failure(current.path, reason)))),
            ),
            ReadEventView::Exchanged(Ok(frame)) => (
                before,
                ReadStepView::Done(Ok(cdc_read_result_of(frame))),
            ),
            ReadEventView::Exchanged(Err(error)) => (before, ReadStepView::Done(Err(error))),
        },
    }
}

/// Whether a session holds a port only while it has a device.
pub open spec fn session_consistent(state: DriverView) -> bool {
    state.port_open ==> state.connected is Some
}

/// A session holds a port only while it has a device: no step of a connect
/// or of a read breaks that, and a cleared session holds neither.
pub proof fn lemma_session_stays_consistent(
    state: DriverView,
    connect: ConnectEventView,
    preferred: Option<Seq<char>>,
    read: ReadEventView,
)
    requires
        session_consistent(state),
    ensures
        session_consistent(connect_spec(state, connect, preferred).0),
        session_consistent(read_spec(state, read).0),
        session_consistent(cleared(state)),
        cleared(state).connected is None && !cleared(state).port_open,
{
}

/// A device that has left the bus ends the read as disconnected and clears
/// the session, port included.
pub proof fn lemma_unplugged_device_clears_session(
    state: DriverView,
    devices: Seq<DeviceInfoView>,
)
    requires
        state.connected matches Some(current) && !has_id(devices, current.id),
    ensures
        read_spec(state, ReadEventView::Scanned(Ok(devices))) == (
            cleared(state),
            ReadStepView::Done(Err(DriverErrorView::Disconnected)),
        ),
{
}

fn open_failure_error(path: &str, reason: &str) -> (error: DriverError)
    ensures
        error@ == DriverErrorView::Io(open_failure(path@, reason@)),
{
    let head = join3("failed to open serial port ", path, ": ");
    DriverError::Io(join2(head.as_str(), reason))
}

impl VendorShimDriver {
    /// A session with no device, for the given vendor directory.
    pub fn new(vendor_dir: String) -> (driver: VendorShimDriver)
        ensures
            driver@ == (DriverView { vendor_dir: vendor_dir@, connected: None, port_open: false }),
    {
        VendorShimDriver { vendor_dir, connected: None, port_open: false }
    }

    /// The directory that vendor libraries are looked for in.
    pub fn vendor_dir(&self) -> (dir: &str)
        ensures
            dir@ == self@.vendor_dir,
    {
        self.vendor_dir.as_str()
    }

    /// Whether a device is current.
    pub fn is_connected(&self) -> (connected: bool)
        ensures
            connected == self@.connected is Some,
    {
        self.connected.is_some()
    }

    /// The current device.
    pub fn current_device(&self) -> (device: Option<DeviceInfo>)
        ensures
            device is Some <==> self@.connected is Some,
            device matches Some(d) ==> Some(d@) == self@.connected,
    {
        match &self.connected {
            Some(device) => Some(device.clone()),
            None => None,
        }
    }

    /// Whether the session holds an open port. The caller keeps its port
    /// handle exactly as long as this holds.
    pub fn port_open(&self) -> (open: bool)
        ensures
            open == self@.port_open,
    {
        self.port_open
    }

    /// Advances a scan of the bus for candidate devices by one step.
    pub fn discover(&self, event: ScanEvent) -> (step: ScanStep)
        ensures
            step@ == scan_step_of(event@),
    {
        scan_udev_devices(event)
    }

    /// Ends the session: no device, no port. Always succeeds.
    pub fn disconnect(&mut self) -> (done: Result<(), DriverError>)
        ensures
            done is Ok,
            final(self)@ == cleared(old(self)@),
    {
        self.connected = None;
        self.port_open = false;
        Ok(())
    }

    /// Advances a connect by one event.
    pub fn connect(&mut self, event: ConnectEvent, preferred_id: Option<&str>) -> (step:
        ConnectStep)
        ensures
            final(self)@ == connect_spec(old(self)@, event@, opt_str_view(preferred_id)).0,
            step@ == connect_spec(old(self)@, event@, opt_str_view(preferred_id)).1,
    {
        match event {
            ConnectEvent::Start => ConnectStep::Scan,
            ConnectEvent::Scanned(Err(error)) => ConnectStep::Done(Err(error)),
            ConnectEvent::Scanned(Ok(devices)) => {
                match choose_device(&devices, preferred_id) {
                    None => {
                        self.connected = None;
                        self.port_open = false;
                        ConnectStep::Done(Err(DriverError::DeviceNotFound))
                    },
                    Some(at) => {
                        let chosen = devices[at].clone();
                        self.port_open = false;
                        if str_eq(chosen.transport.as_str(), "cdc") {
                            ConnectStep::OpenPort {
                                device: chosen,
                                baud: SERIAL_BAUD,
                                timeout_ms: SERIAL_TIMEOUT_MS,
                            }
                        } else {
                            self.connected = Some(chosen.clone());
                            ConnectStep::Done(Ok(chosen))
                        }
                    },
                }
            },
            ConnectEvent::Opened(device, Ok(_)) => {
                self.port_open = true;
                self.connected = Some(device.clone());
                ConnectStep::Done(Ok(device))
            },
            ConnectEvent::Opened(device, Err(reason)) => {
                self.port_open = false;
                ConnectStep::Done(
                    Err(open_failure_error(device.path.as_str(), reason.as_str())),
                )
            },
        }
    }

    /// Advances a read by one event.
    pub fn read(&mut self, event: ReadEvent) -> (step: ReadStep)
        ensures
            final(self)@ == read_spec(old(self)@, event@).0,
            step@ == read_spec(old(self)@, event@).1,
    {
        let current = match &self.connected {
            Some(device) => device.clone(),
            None => {
                return ReadStep::Done(Err(DriverError::Disconnected));
            },
        };
        match event {
            ReadEvent::Start => ReadStep::Scan,
            ReadEvent::Scanned(Err(error)) => ReadStep::Done(Err(error)),
            ReadEvent::Scanned(Ok(devices)) => {
                if find_device(&devices, current.id.as_str()).is_none() {
                    self.connected = None;
                    self.port_open = false;
                    ReadStep::Done(Err(DriverError::Disconnected))
                } else if str_eq(current.transport.as_str(), "cdc") {
                    if self.port_open {
                        ReadStep::Exchange
                    } else {
                        ReadStep::OpenPort {
                            path: current.path,
                            baud: SERIAL_BAUD,
                            timeout_ms: SERIAL_TIMEOUT_MS,
                        }
                    }
                } else {
                    ReadStep::Done(Ok(unknown_transport_result()))
                }
            },
            ReadEvent::Opened(Ok(_)) => {
                self.port_open = true;
                ReadStep::Exchange
            },
            ReadEvent::Opened(Err(reason)) => ReadStep::Done(
                Err(open_failure_error(current.path.as_str(), reason.as_str())),
            ),
            ReadEvent::Exchanged(Ok(frame)) => ReadStep::Done(
                Ok(cdc_read_result(frame.as_slice())),
            ),
            ReadEvent::Exchanged(Err(error)) => ReadStep::Done(Err(error)),
        }
    }
}

} // verus!
